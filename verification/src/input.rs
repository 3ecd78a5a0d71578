//! Control input for one actor on one frame: a bitset over the five
//! logical controls (left, right, thrust, fire, secondary).

use vstd::prelude::*;

verus! {

/// A bitset of held controls.  Bit 0 is left, bit 1 right, bit 2 thrust,
/// bit 3 fire, bit 4 secondary.
#[derive(Clone, Copy, Debug)]
pub struct Input(u8);

impl Input {
    /// The raw bits, for contracts.
    pub closed spec fn bits(self) -> u8 {
        self.0
    }

    pub open spec fn is_left(self) -> bool {
        self.bits() & 1 != 0
    }

    pub open spec fn is_right(self) -> bool {
        self.bits() & 2 != 0
    }

    pub open spec fn is_thrust(self) -> bool {
        self.bits() & 4 != 0
    }

    pub open spec fn is_fire(self) -> bool {
        self.bits() & 8 != 0
    }

    pub open spec fn is_secondary(self) -> bool {
        self.bits() & 16 != 0
    }

    /// The mask that `is` tests for the left control.
    pub fn left() -> (r: Input)
        ensures
            r.bits() == 1,
    {
        Input(1)
    }

    /// The mask that `is` tests for the right control.
    pub fn right() -> (r: Input)
        ensures
            r.bits() == 2,
    {
        Input(2)
    }

    /// The mask that `is` tests for the thrust control.
    pub fn thrust() -> (r: Input)
        ensures
            r.bits() == 4,
    {
        Input(4)
    }

    /// The mask that `is` tests for the fire control.
    pub fn fire() -> (r: Input)
        ensures
            r.bits() == 8,
    {
        Input(8)
    }

    /// The mask that `is` tests for the secondary control.
    pub fn secondary() -> (r: Input)
        ensures
            r.bits() == 16,
    {
        Input(16)
    }

    /// Build an input from the five held-control flags.
    pub fn new(left: bool, right: bool, thrust: bool, fire: bool, secondary: bool) -> (r: Input)
        ensures
            r.is_left() == left,
            r.is_right() == right,
            r.is_thrust() == thrust,
            r.is_fire() == fire,
            r.is_secondary() == secondary,
    {
        let a1: u8 = if left {
            1
        } else {
            0
        };
        let a2: u8 = if right {
            2
        } else {
            0
        };
        let a3: u8 = if thrust {
            4
        } else {
            0
        };
        let a4: u8 = if fire {
            8
        } else {
            0
        };
        let a5: u8 = if secondary {
            16
        } else {
            0
        };
        let v: u8 = a1 + a2 + a3 + a4 + a5;
        proof {
            assert((v & 1 != 0) == (a1 == 1) && (v & 2 != 0) == (a2 == 2) && (v & 4 != 0) == (a3
                == 4) && (v & 8 != 0) == (a4 == 8) && (v & 16 != 0) == (a5 == 16))
                by (bit_vector)
                requires
                    v == a1 + a2 + a3 + a4 + a5,
                    a1 == 0 || a1 == 1,
                    a2 == 0 || a2 == 2,
                    a3 == 0 || a3 == 4,
                    a4 == 0 || a4 == 8,
                    a5 == 0 || a5 == 16,
            ;
        }
        Input(v)
    }

    /// Contradictory left-and-right is neutralised: when both turn bits are
    /// held they cancel, and every other bit is kept.
    pub fn normalize(self) -> (r: Input)
        ensures
            r.is_left() == (self.is_left() && !self.is_right()),
            r.is_right() == (self.is_right() && !self.is_left()),
            r.is_thrust() == self.is_thrust(),
            r.is_fire() == self.is_fire(),
            r.is_secondary() == self.is_secondary(),
    {
        let v: u8 = self.0;
        if v & 3 == 3 {
            let w: u8 = v & 0xfc;
            proof {
                assert((w & 1 != 0) == false && (w & 2 != 0) == false && (w & 4 != 0) == (v & 4
                    != 0) && (w & 8 != 0) == (v & 8 != 0) && (w & 16 != 0) == (v & 16 != 0) && (v
                    & 1 != 0) && (v & 2 != 0)) by (bit_vector)
                    requires
                        w == v & 0xfc,
                        v & 3 == 3,
                ;
            }
            Input(w)
        } else {
            proof {
                assert(!(v & 1 != 0 && v & 2 != 0)) by (bit_vector)
                    requires
                        v & 3 != 3,
                ;
            }
            self
        }
    }

    /// True when this input holds any of the bits of `other`.
    pub fn is(self, other: Input) -> (r: bool)
        ensures
            r == (self.bits() & other.bits() != 0),
    {
        self.0 & other.0 != 0
    }

    /// The union of two inputs.
    pub fn bitor(self, other: Input) -> (r: Input)
        ensures
            r.bits() == self.bits() | other.bits(),
    {
        Input(self.0 | other.0)
    }
}

/// Instantaneous held-state of the five logical keys, polled outside the
/// engine and handed to a user-controlled generator.
#[derive(Clone, Copy, Debug)]
pub struct KeyState {
    pub left: bool,
    pub right: bool,
    pub thrust: bool,
    pub fire: bool,
    pub secondary: bool,
}

} // verus!
