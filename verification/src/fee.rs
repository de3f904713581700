//! Amounts of fees.

use vstd::prelude::*;

verus! {

/// The weight of the second limb of a [`FeeAmount`].
pub const LIMB_BASE: u128 = 0x1_0000_0000_0000_0000;

/// An amount of fees: an unsigned number of 256 bits.
#[derive(Clone, Copy, Debug)]
pub struct FeeAmount {
    /// The digits of the amount in base 2^64, the least significant first.
    pub limbs: [u64; 4],
}

impl FeeAmount {
    /// The amount as a number.
    pub open spec fn value(self) -> nat {
        (self.limbs@[0] + LIMB_BASE * (self.limbs@[1] + LIMB_BASE * (self.limbs@[2] + LIMB_BASE
            * self.limbs@[3]))) as nat
    }

    /// The amount as a `u64`, if it is small enough to be one.
    pub fn as_u64(&self) -> (r: Option<u64>)
        ensures
            r is Some <==> self.value() <= u64::MAX,
            r matches Some(v) ==> v == self.value(),
    {
        if self.limbs[1] == 0 && self.limbs[2] == 0 && self.limbs[3] == 0 {
            Some(self.limbs[0])
        } else {
            None
        }
    }
}

impl From<u64> for FeeAmount {
    fn from(amount: u64) -> (r: Self) {
        FeeAmount { limbs: [amount, 0, 0, 0] }
    }
}

impl vstd::std_specs::convert::FromSpecImpl<u64> for FeeAmount {
    open spec fn obeys_from_spec() -> bool {
        true
    }

    open spec fn from_spec(amount: u64) -> Self {
        FeeAmount { limbs: [amount, 0, 0, 0] }
    }
}

} // verus!
