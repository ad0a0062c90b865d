//! Launch arguments for the external remapper, synthesized from a stored
//! mapping and a device.

use vstd::prelude::*;
use crate::error::{Error, ErrorView};
use crate::identity::{device_path, device_path_of};
use crate::store::file::{get, get_of, StoreFile, StoreFileView};
use crate::mapping::{
    axis_views,
    button_views,
    AxisMapping,
    AxisMappingView,
    ButtonMapping,
    ButtonMappingView,
    ControllerMapping,
    ControllerMappingView,
};
use crate::text::{join, joined, texts};

verus! {

/// What the remapper is launched with: the device it reads and the two
/// association lists that remap its buttons and axes.
#[derive(Debug, PartialEq, Eq)]
pub struct LaunchSpec {
    pub device_path: String,
    pub button_map: String,
    pub axis_map: String,
}

#[verifier::ext_equal]
pub struct LaunchSpecView {
    pub device_path: Seq<char>,
    pub button_map: Seq<char>,
    pub axis_map: Seq<char>,
}

impl View for LaunchSpec {
    type V = LaunchSpecView;

    open spec fn view(&self) -> LaunchSpecView {
        LaunchSpecView {
            device_path: self.device_path@,
            button_map: self.button_map@,
            axis_map: self.axis_map@,
        }
    }
}

/// One button association: the physical button, `=`, the virtual button.
pub open spec fn button_association(mapping: ButtonMappingView) -> Seq<char> {
    mapping.physical_button + "="@ + mapping.virtual_button
}

/// One axis association: the physical axis, `=`, the virtual axis.
pub open spec fn axis_association(mapping: AxisMappingView) -> Seq<char> {
    mapping.physical_axis + "="@ + mapping.virtual_axis
}

/// The button associations in stored order, joined by commas.
pub open spec fn button_map_of(buttons: Seq<ButtonMappingView>) -> Seq<char> {
    joined(Seq::new(buttons.len(), |i: int| button_association(buttons[i])), ","@)
}

/// The axis associations in stored order, joined by commas.
pub open spec fn axis_map_of(axes: Seq<AxisMappingView>) -> Seq<char> {
    joined(Seq::new(axes.len(), |i: int| axis_association(axes[i])), ","@)
}

/// The launch arguments for a device and its mapping.
pub open spec fn launch_spec_of(
    controller_event: Seq<char>,
    mapping: ControllerMappingView,
) -> LaunchSpecView {
    LaunchSpecView {
        device_path: device_path_of(controller_event),
        button_map: button_map_of(mapping.buttons),
        axis_map: axis_map_of(mapping.axes),
    }
}

/// The launch arguments for a device whose controller reports `name`: a
/// missing mapping where none is stored under that name, the failure of
/// the lookup where the stored mappings do not decode.
pub open spec fn synthesize_of(
    file: StoreFileView,
    name: Seq<char>,
    controller_event: Seq<char>,
) -> Result<LaunchSpecView, ErrorView> {
    match get_of(file, name) {
        Ok(Some(mapping)) => Ok(launch_spec_of(controller_event, mapping)),
        Ok(None) => Err(ErrorView::NoMapping),
        Err(error) => Err(error),
    }
}

/// The shell command that starts the remapper in the background, with
/// elevated privilege, the D-pad bound to its two hat axes and both
/// vertical stick axes inverted.
pub open spec fn command_line_of(spec: LaunchSpecView) -> Seq<char> {
    "pkexec xboxdrv --evdev "@ + spec.device_path + " \\\n            --evdev-absmap "@
        + spec.axis_map
        + ",ABS_HAT0X=dpad_x,ABS_HAT0Y=dpad_y \\\n            --axismap -Y1=Y1,-Y2=Y2 \\\n            --evdev-keymap "@
        + spec.button_map + " \\\n            --mimic-xpad --silent &"@
}

/// The shell command that stops the remapper of a device.
pub open spec fn stop_command_of(controller_event: Seq<char>) -> Seq<char> {
    "pkexec pkill -f 'xboxdrv.*"@ + controller_event + "'"@
}

/// Renders the button associations in stored order, joined by commas.
pub fn render_button_map(buttons: &Vec<ButtonMapping>) -> (text: String)
    ensures
        text@ == button_map_of(button_views(buttons@)),
{
    let mut pairs: Vec<String> = Vec::new();
    let mut i: usize = 0;
    while i < buttons.len()
        invariant
            i <= buttons.len(),
            pairs.len() == i,
            forall|j: int| 0 <= j < i ==> pairs@[j]@ == button_association(buttons@[j]@),
        decreases buttons.len() - i,
    {
        let mut pair = buttons[i].physical_button.clone();
        pair.append("=");
        pair.append(buttons[i].virtual_button.as_str());
        pairs.push(pair);
        i += 1;
    }
    assert(texts(pairs@) =~= Seq::new(
        button_views(buttons@).len(),
        |i: int| button_association(button_views(buttons@)[i]),
    ));
    join(&pairs, ",")
}

/// Renders the axis associations in stored order, joined by commas.
pub fn render_axis_map(axes: &Vec<AxisMapping>) -> (text: String)
    ensures
        text@ == axis_map_of(axis_views(axes@)),
{
    let mut pairs: Vec<String> = Vec::new();
    let mut i: usize = 0;
    while i < axes.len()
        invariant
            i <= axes.len(),
            pairs.len() == i,
            forall|j: int| 0 <= j < i ==> pairs@[j]@ == axis_association(axes@[j]@),
        decreases axes.len() - i,
    {
        let mut pair = axes[i].physical_axis.clone();
        pair.append("=");
        pair.append(axes[i].virtual_axis.as_str());
        pairs.push(pair);
        i += 1;
    }
    assert(texts(pairs@) =~= Seq::new(
        axis_views(axes@).len(),
        |i: int| axis_association(axis_views(axes@)[i]),
    ));
    join(&pairs, ",")
}

impl LaunchSpec {
    /// The launch arguments for a device, named by its event device, and
    /// its mapping.
    pub fn for_mapping(controller_event: &str, mapping: &ControllerMapping) -> (spec: LaunchSpec)
        ensures
            spec@ == launch_spec_of(controller_event@, mapping@),
    {
        LaunchSpec {
            device_path: device_path(controller_event),
            button_map: render_button_map(&mapping.buttons),
            axis_map: render_axis_map(&mapping.axes),
        }
    }

    /// The shell command that starts the remapper with these arguments.
    pub fn command_line(&self) -> (command: String)
        ensures
            command@ == command_line_of(self@),
    {
        let mut command = String::from_str("pkexec xboxdrv --evdev ");
        command.append(self.device_path.as_str());
        command.append(" \\\n            --evdev-absmap ");
        command.append(self.axis_map.as_str());
        command.append(
            ",ABS_HAT0X=dpad_x,ABS_HAT0Y=dpad_y \\\n            --axismap -Y1=Y1,-Y2=Y2 \\\n            --evdev-keymap ",
        );
        command.append(self.button_map.as_str());
        command.append(" \\\n            --mimic-xpad --silent &");
        command
    }
}

/// Synthesizes the launch arguments for a device, named by its event
/// device, whose controller reports `name`. Where no mapping is stored
/// under that name the caller is told so, apart from every other failure,
/// and is to capture one first.
pub fn synthesize(file: &StoreFile, name: &str, controller_event: &str) -> (launch: Result<
    LaunchSpec,
    Error,
>)
    ensures
        match launch {
            Ok(spec) => synthesize_of(file@, name@, controller_event@) == Ok::<
                LaunchSpecView,
                ErrorView,
            >(spec@),
            Err(error) => synthesize_of(file@, name@, controller_event@) == Err::<
                LaunchSpecView,
                ErrorView,
            >(error@),
        },
{
    match get(file, name) {
        Ok(Some(mapping)) => Ok(LaunchSpec::for_mapping(controller_event, &mapping)),
        Ok(None) => Err(Error::NoMapping),
        Err(error) => Err(error),
    }
}

/// The shell command that stops the remapper of a device.
pub fn stop_command(controller_event: &str) -> (command: String)
    ensures
        command@ == stop_command_of(controller_event@),
{
    String::from_str("pkexec pkill -f 'xboxdrv.*").concat(controller_event).concat("'")
}

/// What is reported once the remapper of a device was started.
pub fn started_message(controller_event: &str) -> (message: String)
    ensures
        message@ == "Started xboxdrv for "@ + controller_event@,
{
    String::from_str("Started xboxdrv for ").concat(controller_event)
}

/// What is reported once the remapper of a device was stopped.
pub fn stopped_message(controller_event: &str) -> (message: String)
    ensures
        message@ == "Stopped xboxdrv for "@ + controller_event@,
{
    String::from_str("Stopped xboxdrv for ").concat(controller_event)
}

} // verus!
