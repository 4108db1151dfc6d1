use vstd::prelude::*;

verus! {

/// The length over buffer of a model, in millimeters; above zero.
#[derive(Debug, Copy, Clone, PartialEq, Eq, Structural)]
pub struct LengthOverBuffer(u32);

impl LengthOverBuffer {
    #[verifier::type_invariant]
    spec fn positive(self) -> bool {
        self.0 > 0
    }

    pub closed spec fn spec_value(self) -> u32 {
        self.0
    }

    /// The length `value`; `None` when it is zero.
    pub fn new(value: u32) -> (r: Option<LengthOverBuffer>)
        ensures
            r is None <==> value == 0,
            r matches Some(l) ==> l.spec_value() == value,
    {
        if value == 0 {
            None
        } else {
            Some(LengthOverBuffer(value))
        }
    }

    /// The length, above zero.
    pub fn value(&self) -> (r: u32)
        ensures
            r == self.spec_value(),
            r > 0,
    {
        proof {
            use_type_invariant(self);
        }
        self.0
    }
}

} // verus!
