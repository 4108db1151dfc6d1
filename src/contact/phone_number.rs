use vstd::prelude::*;
use vstd::string::*;

verus! {

/// A phone number.
#[derive(Debug, Clone)]
pub struct PhoneNumber(String);

impl View for PhoneNumber {
    type V = Seq<char>;

    closed spec fn view(&self) -> Seq<char> {
        self.0@
    }
}

impl PhoneNumber {
    pub fn new(value: &str) -> (r: PhoneNumber)
        ensures
            r@ == value@,
    {
        PhoneNumber(String::from_str(value))
    }

    /// The text as it was given.
    pub fn to_string(&self) -> (r: String)
        ensures
            r@ == self@,
    {
        self.0.clone()
    }
}

impl PartialEq for PhoneNumber {
    fn eq(&self, other: &PhoneNumber) -> (r: bool) {
        self.0 == other.0
    }
}

impl vstd::std_specs::cmp::PartialEqSpecImpl for PhoneNumber {
    open spec fn obeys_eq_spec() -> bool {
        true
    }

    open spec fn eq_spec(&self, other: &PhoneNumber) -> bool {
        self@ == other@
    }
}

} // verus!
