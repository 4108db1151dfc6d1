use vstd::prelude::*;
use vstd::string::*;

verus! {

/// Who owns a railway company.
#[derive(Debug, Eq, PartialEq, Structural, Copy, Clone)]
pub enum Ownership {
    Private,
    Public,
}

impl Ownership {
    /// "Private" or "Public".
    pub fn to_string(&self) -> (r: String)
        ensures
            r@ == match *self {
                Ownership::Private => "Private"@,
                Ownership::Public => "Public"@,
            },
    {
        match self {
            Ownership::Private => String::from_str("Private"),
            Ownership::Public => String::from_str("Public"),
        }
    }
}

} // verus!
