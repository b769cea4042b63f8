use padbridge::translate::{convert, translate, AXIS_MAX, AXIS_MIN, LEFT_AXIS, RIGHT_AXIS};
use padbridge::{ControlState, PadButton, RawInputEvent};

#[test]
fn convert_endpoints_and_midpoint() {
    assert_eq!(convert(AXIS_MIN), 0);
    assert_eq!(convert(AXIS_MAX), 99);
    assert_eq!(convert(0), 50);
}

#[test]
fn convert_stays_in_range_and_is_monotonic() {
    let mut prev: u8 = 0;
    let mut raw: i32 = -1000;
    while raw <= 1000 {
        let v = convert(raw);
        assert!(v <= 99);
        assert!(v >= prev);
        prev = v;
        raw += 1;
    }
    assert_eq!(prev, 99);
}

#[test]
fn convert_clamps_out_of_range() {
    assert_eq!(convert(-2000), 0);
    assert_eq!(convert(i32::MIN), 0);
    assert_eq!(convert(2000), 99);
    assert_eq!(convert(i32::MAX), 99);
}

#[test]
fn full_right_axis_sets_right_to_99() {
    let states = [
        ControlState { left: 0, right: 0, mower: 0 },
        ControlState { left: 37, right: 12, mower: 99 },
        ControlState { left: 99, right: 99, mower: 0 },
    ];
    for s in states {
        let event = RawInputEvent::AxisChanged { axis: RIGHT_AXIS, raw: 1000 };
        let next = translate(event, s);
        assert_eq!(next, ControlState { left: s.left, right: 99, mower: s.mower });
    }
}

#[test]
fn left_axis_updates_left_only() {
    let s = ControlState { left: 10, right: 80, mower: 99 };
    let event = RawInputEvent::AxisChanged { axis: LEFT_AXIS, raw: -1000 };
    let next = translate(event, s);
    assert_eq!(next, ControlState { left: 0, right: 80, mower: 99 });
}

#[test]
fn unknown_axis_is_passthrough() {
    let s = ControlState { left: 10, right: 80, mower: 0 };
    let event = RawInputEvent::AxisChanged { axis: 12345, raw: 1000 };
    assert_eq!(translate(event, s), s);
}

#[test]
fn toggle_turns_mower_on_and_off() {
    let s = ControlState { left: 20, right: 30, mower: 0 };
    let event = RawInputEvent::ButtonReleased { button: PadButton::North };
    let on = translate(event, s);
    assert_eq!(on, ControlState { left: 20, right: 30, mower: 99 });
    let off = translate(event, on);
    assert_eq!(off, ControlState { left: 20, right: 30, mower: 0 });
}

#[test]
fn toggle_twice_is_identity() {
    let event = RawInputEvent::ButtonReleased { button: PadButton::North };
    for s in [
        ControlState { left: 5, right: 70, mower: 0 },
        ControlState { left: 5, right: 70, mower: 99 },
    ] {
        assert_eq!(translate(event, translate(event, s)), s);
    }
}

#[test]
fn other_button_release_is_noop() {
    let s = ControlState { left: 42, right: 17, mower: 99 };
    let event = RawInputEvent::ButtonReleased { button: PadButton::Other };
    assert_eq!(translate(event, s), s);
}

#[test]
fn unknown_event_kind_is_passthrough() {
    for s in [
        ControlState { left: 0, right: 0, mower: 0 },
        ControlState { left: 99, right: 1, mower: 99 },
    ] {
        assert_eq!(translate(RawInputEvent::Other, s), s);
    }
}
