//! Mapping records: which physical button or axis drives which virtual one.

use vstd::prelude::*;

verus! {

/// A physical button bound to a button of the virtual gamepad.
#[derive(Debug, PartialEq, Eq)]
pub struct ButtonMapping {
    pub virtual_button: String,
    pub physical_button: String,
}

/// A physical axis bound to an axis of the virtual gamepad.
#[derive(Debug, PartialEq, Eq)]
pub struct AxisMapping {
    pub virtual_axis: String,
    pub physical_axis: String,
}

/// The mapping of one controller, keyed by the name the device reports.
#[derive(Debug, PartialEq, Eq)]
pub struct ControllerMapping {
    pub name: String,
    pub buttons: Vec<ButtonMapping>,
    pub axes: Vec<AxisMapping>,
}

#[verifier::ext_equal]
pub struct ButtonMappingView {
    pub virtual_button: Seq<char>,
    pub physical_button: Seq<char>,
}

#[verifier::ext_equal]
pub struct AxisMappingView {
    pub virtual_axis: Seq<char>,
    pub physical_axis: Seq<char>,
}

#[verifier::ext_equal]
pub struct ControllerMappingView {
    pub name: Seq<char>,
    pub buttons: Seq<ButtonMappingView>,
    pub axes: Seq<AxisMappingView>,
}

impl View for ButtonMapping {
    type V = ButtonMappingView;

    open spec fn view(&self) -> ButtonMappingView {
        ButtonMappingView {
            virtual_button: self.virtual_button@,
            physical_button: self.physical_button@,
        }
    }
}

impl View for AxisMapping {
    type V = AxisMappingView;

    open spec fn view(&self) -> AxisMappingView {
        AxisMappingView { virtual_axis: self.virtual_axis@, physical_axis: self.physical_axis@ }
    }
}

/// Views of a list of button mappings, in order.
pub open spec fn button_views(buttons: Seq<ButtonMapping>) -> Seq<ButtonMappingView> {
    Seq::new(buttons.len(), |i: int| buttons[i]@)
}

/// Views of a list of axis mappings, in order.
pub open spec fn axis_views(axes: Seq<AxisMapping>) -> Seq<AxisMappingView> {
    Seq::new(axes.len(), |i: int| axes[i]@)
}

impl View for ControllerMapping {
    type V = ControllerMappingView;

    open spec fn view(&self) -> ControllerMappingView {
        ControllerMappingView {
            name: self.name@,
            buttons: button_views(self.buttons@),
            axes: axis_views(self.axes@),
        }
    }
}

impl Clone for ButtonMapping {
    fn clone(&self) -> (copy: Self)
        ensures
            copy@ == self@,
    {
        ButtonMapping {
            virtual_button: self.virtual_button.clone(),
            physical_button: self.physical_button.clone(),
        }
    }
}

impl Clone for AxisMapping {
    fn clone(&self) -> (copy: Self)
        ensures
            copy@ == self@,
    {
        AxisMapping {
            virtual_axis: self.virtual_axis.clone(),
            physical_axis: self.physical_axis.clone(),
        }
    }
}

/// Copies a list of button mappings, keeping order and contents.
pub fn clone_buttons(buttons: &Vec<ButtonMapping>) -> (copy: Vec<ButtonMapping>)
    ensures
        button_views(copy@) == button_views(buttons@),
{
    let mut copy: Vec<ButtonMapping> = Vec::new();
    let mut i: usize = 0;
    while i < buttons.len()
        invariant
            i <= buttons.len(),
            copy.len() == i,
            forall|j: int| 0 <= j < i ==> copy@[j]@ == buttons@[j]@,
        decreases buttons.len() - i,
    {
        copy.push(buttons[i].clone());
        i += 1;
    }
    copy
}

/// Copies a list of axis mappings, keeping order and contents.
pub fn clone_axes(axes: &Vec<AxisMapping>) -> (copy: Vec<AxisMapping>)
    ensures
        axis_views(copy@) == axis_views(axes@),
{
    let mut copy: Vec<AxisMapping> = Vec::new();
    let mut i: usize = 0;
    while i < axes.len()
        invariant
            i <= axes.len(),
            copy.len() == i,
            forall|j: int| 0 <= j < i ==> copy@[j]@ == axes@[j]@,
        decreases axes.len() - i,
    {
        copy.push(axes[i].clone());
        i += 1;
    }
    copy
}

impl Clone for ControllerMapping {
    fn clone(&self) -> (copy: Self)
        ensures
            copy@ == self@,
    {
        ControllerMapping {
            name: self.name.clone(),
            buttons: clone_buttons(&self.buttons),
            axes: clone_axes(&self.axes),
        }
    }
}

} // verus!
