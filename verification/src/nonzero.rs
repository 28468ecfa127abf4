//! A 32-bit number that is never zero.

use vstd::prelude::*;

verus! {

#[derive(Debug, Clone, Copy, PartialEq, Eq, Structural)]
pub struct NonZeroU32 {
    value: u32,
}

impl NonZeroU32 {
    #[verifier::type_invariant]
    spec fn positive(self) -> bool {
        self.value > 0
    }

    pub closed spec fn spec_value(self) -> u32 {
        self.value
    }

    pub fn new(value: u32) -> (r: Option<NonZeroU32>)
        ensures
            r is Some <==> value != 0,
            r matches Some(n) ==> n.spec_value() == value,
    {
        if value == 0 { None } else { Some(NonZeroU32 { value }) }
    }

    pub fn get(self) -> (r: u32)
        ensures
            r == self.spec_value(),
            r > 0,
    {
        proof {
            use_type_invariant(self);
        }
        self.value
    }
}

} // verus!
