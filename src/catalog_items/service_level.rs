use vstd::prelude::*;

verus! {

/// The classes of service that a passenger car offers.
#[derive(Debug, Copy, Clone, PartialEq, Eq, Structural)]
pub enum ServiceLevel {
    FirstClass,
    SecondClass,
    ThirdClass,
    FirstAndSecondClass,
    SecondAndThirdClass,
    FirstSecondAndThirdClass,
}

} // verus!
