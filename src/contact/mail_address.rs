use vstd::prelude::*;
use vstd::string::*;

verus! {

/// An e-mail address.
#[derive(Debug, Clone)]
pub struct MailAddress(String);

impl View for MailAddress {
    type V = Seq<char>;

    closed spec fn view(&self) -> Seq<char> {
        self.0@
    }
}

impl MailAddress {
    pub fn new(value: &str) -> (r: MailAddress)
        ensures
            r@ == value@,
    {
        MailAddress(String::from_str(value))
    }

    /// The text as it was given.
    pub fn to_string(&self) -> (r: String)
        ensures
            r@ == self@,
    {
        self.0.clone()
    }
}

impl PartialEq for MailAddress {
    fn eq(&self, other: &MailAddress) -> (r: bool) {
        self.0 == other.0
    }
}

impl vstd::std_specs::cmp::PartialEqSpecImpl for MailAddress {
    open spec fn obeys_eq_spec() -> bool {
        true
    }

    open spec fn eq_spec(&self, other: &MailAddress) -> bool {
        self@ == other@
    }
}

} // verus!
