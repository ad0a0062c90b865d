use blitz::event::{abs_axis_name, key_name, EventKind, InputEvent, EV_ABS, EV_KEY};

#[test]
fn key_event_is_classified_as_key() {
    let event = InputEvent { event_type: EV_KEY, code: 0x130, value: 1 };
    assert_eq!(event.kind(), EventKind::Key(0x130));
}

#[test]
fn absolute_axis_event_is_classified_as_axis() {
    let event = InputEvent { event_type: EV_ABS, code: 16, value: -1 };
    assert_eq!(event.kind(), EventKind::AbsAxis(16));
}

#[test]
fn other_event_types_are_other() {
    for event_type in [0u16, 2, 4, 5, 0x11, 0x12, 0x14, 0x15, 0x16, 0x17, 0x0101, 0xffff] {
        let event = InputEvent { event_type, code: 3, value: 1 };
        assert_eq!(event.kind(), EventKind::Other);
    }
}

#[test]
fn classification_agrees_with_the_device_layer() {
    for event_type in 0u16..=0x0102 {
        for code in [0u16, 1, 16, 17, 0x130, 0x2ff, u16::MAX] {
            let ours = InputEvent { event_type, code, value: 1 }.kind();
            let theirs = evdev::InputEvent::new(evdev::EventType(event_type), code, 1).kind();
            let expected = match theirs {
                evdev::InputEventKind::Key(key) => EventKind::Key(key.code()),
                evdev::InputEventKind::AbsAxis(axis) => EventKind::AbsAxis(axis.0),
                _ => EventKind::Other,
            };
            assert_eq!(ours, expected);
            let by_rule = if event_type == 1 {
                EventKind::Key(code)
            } else if event_type == 3 {
                EventKind::AbsAxis(code)
            } else {
                EventKind::Other
            };
            assert_eq!(ours, by_rule);
        }
    }
}

#[test]
fn event_type_constants_are_the_kernel_ones() {
    assert_eq!(EV_KEY, evdev::EventType::KEY.0);
    assert_eq!(EV_ABS, evdev::EventType::ABSOLUTE.0);
}

#[test]
fn key_name_is_symbolic() {
    assert_eq!(key_name(0x130), "BTN_SOUTH");
    assert_eq!(key_name(0x220), "BTN_DPAD_UP");
    assert_eq!(key_name(30), "KEY_A");
}

#[test]
fn key_name_of_an_unnamed_code() {
    assert_eq!(key_name(0x2ff), "unknown key: 767");
}

#[test]
fn axis_name_is_symbolic() {
    assert_eq!(abs_axis_name(0), "ABS_X");
    assert_eq!(abs_axis_name(1), "ABS_Y");
    assert_eq!(abs_axis_name(16), "ABS_HAT0X");
    assert_eq!(abs_axis_name(17), "ABS_HAT0Y");
}

#[test]
fn axis_name_of_an_unnamed_code() {
    assert_eq!(abs_axis_name(0x3f), "unknown key: 63");
}

#[test]
fn names_agree_with_the_device_layer() {
    for code in 0u16..=0x300 {
        assert_eq!(key_name(code), format!("{:?}", evdev::Key::new(code)));
        assert_eq!(abs_axis_name(code), format!("{:?}", evdev::AbsoluteAxisType(code)));
    }
}
