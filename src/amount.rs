use vstd::prelude::*;

verus! {

/// Largest amount a balance can hold.
pub open spec fn amount_max() -> int {
    u128::MAX as int
}

/// Clamps a mathematical amount into the representable range.
pub open spec fn clamp(x: int) -> u128 {
    if x < 0 {
        0
    } else if x > amount_max() {
        u128::MAX
    } else {
        x as u128
    }
}

/// A currency amount in the host's smallest unit. Every arithmetic operation
/// clamps at zero and at the largest representable amount instead of wrapping
/// or panicking.
#[derive(Clone, Copy, Debug, PartialEq, Eq, Structural)]
pub struct Amount {
    yocto: u128,
}

impl Amount {
    pub closed spec fn value(self) -> u128 {
        self.yocto
    }

    pub fn from_yocto(yocto: u128) -> (r: Amount)
        ensures
            r.value() == yocto,
    {
        Amount { yocto }
    }

    pub fn as_yocto(&self) -> (r: u128)
        ensures
            r == self.value(),
    {
        self.yocto
    }

    pub fn saturating_add(self, other: Amount) -> (r: Amount)
        ensures
            r.value() == clamp(self.value() + other.value()),
    {
        Amount { yocto: self.yocto.saturating_add(other.yocto) }
    }

    pub fn saturating_sub(self, other: Amount) -> (r: Amount)
        ensures
            r.value() == clamp(self.value() - other.value()),
    {
        Amount { yocto: self.yocto.saturating_sub(other.yocto) }
    }

    pub fn saturating_mul(self, factor: u128) -> (r: Amount)
        ensures
            r.value() == clamp(self.value() * factor),
    {
        match self.yocto.checked_mul(factor) {
            Some(p) => Amount { yocto: p },
            None => {
                proof {
                    assert(self.value() * factor >= 0) by (nonlinear_arith);
                }
                Amount { yocto: u128::MAX }
            },
        }
    }
}

} // verus!
