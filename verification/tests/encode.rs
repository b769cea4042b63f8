use padbridge::ControlState;

#[test]
fn encode_examples() {
    let s = ControlState { left: 5, right: 99, mower: 0 };
    assert_eq!(s.encode(), "L05R99M00");
    let z = ControlState { left: 0, right: 0, mower: 0 };
    assert_eq!(z.encode(), "L00R00M00");
}

#[test]
fn encode_is_fixed_width() {
    let states = [
        ControlState { left: 0, right: 0, mower: 0 },
        ControlState { left: 7, right: 50, mower: 99 },
        ControlState { left: 99, right: 99, mower: 99 },
        ControlState { left: 10, right: 1, mower: 0 },
    ];
    for s in states {
        assert_eq!(s.encode().len(), 9);
    }
}

#[test]
fn encode_zero_pads_each_field() {
    let s = ControlState { left: 1, right: 23, mower: 99 };
    assert_eq!(s.encode(), "L01R23M99");
}

#[test]
fn init_state_is_all_zero() {
    let s = ControlState::init();
    assert_eq!(s, ControlState { left: 0, right: 0, mower: 0 });
    assert_eq!(s.encode(), "L00R00M00");
}
