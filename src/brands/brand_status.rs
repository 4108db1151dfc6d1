use vstd::prelude::*;

verus! {

/// Whether a brand still trades.
#[derive(Debug, Copy, Clone, Eq, PartialEq, Structural)]
pub enum BrandStatus {
    Active,
    OutOfBusiness,
}

impl Default for BrandStatus {
    fn default() -> (r: BrandStatus)
        ensures
            r == BrandStatus::Active,
    {
        BrandStatus::Active
    }
}

} // verus!
