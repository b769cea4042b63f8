//! Translation of raw hardware events into control states: a pure,
//! total, single-step reducer.
//!
//! Analog axis positions are carried in thousandths of full scale, so a
//! stick pushed all the way down is -1000 and all the way up is 1000.
//! Working in this fixed-point form keeps the whole translation exact:
//! the linear map into [0, 99] rounds halves away from zero, and that
//! policy is applied consistently for every input.

use vstd::prelude::*;
use crate::state::ControlState;

verus! {

/// Device code of the axis that drives the `right` field.
pub const RIGHT_AXIS: u32 = 196617;

/// Device code of the axis that drives the `left` field.
pub const LEFT_AXIS: u32 = 196618;

/// Smallest representable axis position (full scale down), in thousandths.
pub const AXIS_MIN: i32 = -1000;

/// Largest representable axis position (full scale up), in thousandths.
pub const AXIS_MAX: i32 = 1000;

/// A gamepad button, reduced to the one distinction the translator makes:
/// the designated toggle button against everything else.
#[derive(Clone, Copy, Debug, PartialEq, Eq, Structural)]
pub enum PadButton {
    /// The designated toggle button that flips the mower on and off.
    North,
    /// Any other button; releasing it changes nothing.
    Other,
}

/// A raw hardware event, as a closed set of the shapes the translator
/// consumes. Anything the device reports beyond these is `Other`.
#[derive(Clone, Copy, Debug, PartialEq, Eq, Structural)]
pub enum RawInputEvent {
    /// An analog control moved: which axis (by device code) and its new
    /// position in thousandths of full scale.
    AxisChanged { axis: u32, raw: i32 },
    /// A digital control was released.
    ButtonReleased { button: PadButton },
    /// Any event kind the translator does not act on.
    Other,
}

/// The linear map from an axis position in thousandths of full scale to
/// the normalized range [0, 99], rounding halves away from zero.
/// Positions outside [-1000, 1000] are clamped first, so the map is total.
pub open spec fn spec_convert(raw: int) -> int {
    let c = if raw < -1000 {
        -1000int
    } else if raw > 1000 {
        1000int
    } else {
        raw
    };
    ((c + 1000) * 99 + 1000) / 2000
}

/// Converts an axis position in thousandths of full scale to the
/// normalized range [0, 99].
pub fn convert(raw: i32) -> (r: u8)
    ensures
        r == spec_convert(raw as int),
        r <= 99,
{
    let c: i32 = if raw < -1000 {
        -1000
    } else if raw > 1000 {
        1000
    } else {
        raw
    };
    let n: u32 = ((c + 1000) as u32 * 99 + 1000) / 2000;
    proof {
        assert(n <= 99) by (nonlinear_arith)
            requires
                n == ((c + 1000) * 99 + 1000) / 2000,
                -1000 <= c <= 1000,
        ;
    }
    n as u8
}

/// Whether the translator acts on an event at all: a move of one of the
/// two mapped axes, or a release of the toggle button.
pub open spec fn is_actionable(event: RawInputEvent) -> bool {
    match event {
        RawInputEvent::AxisChanged { axis, .. } => axis == RIGHT_AXIS || axis == LEFT_AXIS,
        RawInputEvent::ButtonReleased { button } => button == PadButton::North,
        RawInputEvent::Other => false,
    }
}

/// What one translation step produces: the new state after `event`, given
/// the previous state `prev`. Unrecognized events pass `prev` through.
pub open spec fn spec_translate(event: RawInputEvent, prev: ControlState) -> ControlState {
    match event {
        RawInputEvent::AxisChanged { axis, raw } => {
            if axis == RIGHT_AXIS {
                ControlState { left: prev.left, right: spec_convert(raw as int) as u8, mower: prev.mower }
            } else if axis == LEFT_AXIS {
                ControlState { left: spec_convert(raw as int) as u8, right: prev.right, mower: prev.mower }
            } else {
                prev
            }
        },
        RawInputEvent::ButtonReleased { button } => {
            if button == PadButton::North {
                ControlState {
                    left: prev.left,
                    right: prev.right,
                    mower: if prev.mower == 99 { 0 } else { 99 },
                }
            } else {
                prev
            }
        },
        RawInputEvent::Other => prev,
    }
}

/// Maps one raw event plus the previous state to the new state. Pure,
/// total and deterministic: unrecognized axes, buttons and event kinds
/// return `prev` unchanged.
pub fn translate(event: RawInputEvent, prev: ControlState) -> (r: ControlState)
    ensures
        r == spec_translate(event, prev),
        prev.wf() ==> r.wf(),
{
    match event {
        RawInputEvent::AxisChanged { axis, raw } => {
            let value = convert(raw);
            if axis == RIGHT_AXIS {
                ControlState { left: prev.left, right: value, mower: prev.mower }
            } else if axis == LEFT_AXIS {
                ControlState { left: value, right: prev.right, mower: prev.mower }
            } else {
                prev
            }
        },
        RawInputEvent::ButtonReleased { button } => {
            match button {
                PadButton::North => ControlState {
                    left: prev.left,
                    right: prev.right,
                    mower: if prev.mower == 99 { 0 } else { 99 },
                },
                PadButton::Other => prev,
            }
        },
        RawInputEvent::Other => prev,
    }
}

/// The conversion always lands in [0, 99], whatever the input.
pub proof fn lemma_convert_bounds(raw: int)
    ensures
        0 <= spec_convert(raw) <= 99,
{
    let c = if raw < -1000 {
        -1000int
    } else if raw > 1000 {
        1000int
    } else {
        raw
    };
    assert(0 <= ((c + 1000) * 99 + 1000) / 2000 <= 99) by (nonlinear_arith)
        requires
            -1000 <= c <= 1000,
    ;
}

/// The conversion is monotonic non-decreasing: a larger axis position
/// never maps to a smaller normalized value.
pub proof fn lemma_convert_monotonic(a: int, b: int)
    requires
        a <= b,
    ensures
        spec_convert(a) <= spec_convert(b),
{
    let ca = if a < -1000 {
        -1000int
    } else if a > 1000 {
        1000int
    } else {
        a
    };
    let cb = if b < -1000 {
        -1000int
    } else if b > 1000 {
        1000int
    } else {
        b
    };
    assert(ca <= cb);
    vstd::arithmetic::mul::lemma_mul_inequality(ca + 1000, cb + 1000, 99);
    assert((ca + 1000) * 99 + 1000 <= (cb + 1000) * 99 + 1000);
    vstd::arithmetic::div_mod::lemma_div_is_ordered(
        (ca + 1000) * 99 + 1000,
        (cb + 1000) * 99 + 1000,
        2000,
    );
}

/// Pushing the right-axis stick to full scale sets `right` to 99 and
/// leaves the other two fields exactly as they were.
pub proof fn lemma_full_right(s: ControlState)
    ensures
        spec_translate(
            RawInputEvent::AxisChanged { axis: RIGHT_AXIS, raw: AXIS_MAX },
            s,
        ) == (ControlState { left: s.left, right: 99, mower: s.mower }),
{
    assert(spec_convert(1000) == 99);
}

/// Releasing the toggle button twice in succession restores the original
/// state: off goes to on and back to off (and the other way round).
pub proof fn lemma_toggle_twice(s: ControlState)
    requires
        s.wf(),
    ensures
        spec_translate(
            RawInputEvent::ButtonReleased { button: PadButton::North },
            spec_translate(RawInputEvent::ButtonReleased { button: PadButton::North }, s),
        ) == s,
{
}

/// Every unrecognized event — an unmapped axis, a button other than the
/// toggle, or a kind the translator does not know — passes the previous
/// state through unchanged.
pub proof fn lemma_passthrough(event: RawInputEvent, s: ControlState)
    requires
        !is_actionable(event),
    ensures
        spec_translate(event, s) == s,
{
}

} // verus!
