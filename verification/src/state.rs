//! The canonical control state and its fixed-width text encoding.

use vstd::prelude::*;

verus! {

/// The character a single decimal digit encodes to.
pub open spec fn spec_digit(d: int) -> char {
    if d == 0 {
        '0'
    } else if d == 1 {
        '1'
    } else if d == 2 {
        '2'
    } else if d == 3 {
        '3'
    } else if d == 4 {
        '4'
    } else if d == 5 {
        '5'
    } else if d == 6 {
        '6'
    } else if d == 7 {
        '7'
    } else if d == 8 {
        '8'
    } else {
        '9'
    }
}

/// A value in [0, 99] as exactly two zero-padded decimal digits.
pub open spec fn spec_two_digits(v: int) -> Seq<char> {
    seq![spec_digit(v / 10), spec_digit(v % 10)]
}

/// The canonical 9-character wire encoding of a state:
/// `L` then two digits, `R` then two digits, `M` then two digits.
pub open spec fn spec_encode(s: ControlState) -> Seq<char> {
    seq!['L'] + spec_two_digits(s.left as int) + seq!['R'] + spec_two_digits(
        s.right as int,
    ) + seq!['M'] + spec_two_digits(s.mower as int)
}

/// The one-character string a single decimal digit encodes to.
fn digit_str(d: u8) -> (r: &'static str)
    requires
        d < 10,
    ensures
        r@ == seq![spec_digit(d as int)],
{
    proof {
        reveal_strlit("0");
        reveal_strlit("1");
        reveal_strlit("2");
        reveal_strlit("3");
        reveal_strlit("4");
        reveal_strlit("5");
        reveal_strlit("6");
        reveal_strlit("7");
        reveal_strlit("8");
        reveal_strlit("9");
    }
    let r: &'static str = match d {
        0 => "0",
        1 => "1",
        2 => "2",
        3 => "3",
        4 => "4",
        5 => "5",
        6 => "6",
        7 => "7",
        8 => "8",
        _ => "9",
    };
    proof {
        assert(r@ =~= seq![spec_digit(d as int)]);
    }
    r
}

/// Normalized control inputs. `left` and `right` are analog axis positions
/// mapped into [0, 99]; `mower` is a binary toggle that is always exactly
/// 0 (off) or 99 (on), kept in the same numeric range so that the wire
/// format is uniform across the three fields.
#[derive(Clone, Copy, Debug, PartialEq, Eq, Structural)]
pub struct ControlState {
    pub left: u8,
    pub right: u8,
    pub mower: u8,
}

impl ControlState {
    /// All three fields lie in [0, 99], and the toggle is never an
    /// intermediate value.
    pub open spec fn wf(self) -> bool {
        &&& self.left <= 99
        &&& self.right <= 99
        &&& self.mower == 0 || self.mower == 99
    }

    /// The all-zero state every run starts from.
    pub fn init() -> (r: ControlState)
        ensures
            r == (ControlState { left: 0, right: 0, mower: 0 }),
            r.wf(),
    {
        ControlState { left: 0, right: 0, mower: 0 }
    }

    /// Encodes the state as its canonical 9-character text message, each
    /// field as two zero-padded decimal digits: e.g. `L05R99M00`.
    /// Total over every state whose fields lie in [0, 99], and always
    /// exactly 9 characters wide.
    pub fn encode(&self) -> (r: String)
        requires
            self.left <= 99,
            self.right <= 99,
            self.mower <= 99,
        ensures
            r@ == spec_encode(*self),
            r@.len() == 9,
    {
        proof {
            reveal_strlit("L");
            reveal_strlit("R");
            reveal_strlit("M");
        }
        let mut s = String::from_str("L");
        s.append(digit_str(self.left / 10));
        s.append(digit_str(self.left % 10));
        s.append("R");
        s.append(digit_str(self.right / 10));
        s.append(digit_str(self.right % 10));
        s.append("M");
        s.append(digit_str(self.mower / 10));
        s.append(digit_str(self.mower % 10));
        proof {
            assert(s@ =~= spec_encode(*self));
        }
        s
    }
}

} // verus!
