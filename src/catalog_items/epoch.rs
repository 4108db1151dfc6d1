use vstd::prelude::*;
use vstd::string::*;

verus! {

/// The period of railway history that a model belongs to, by its label
/// (such as "IV" or "IIIb").
#[derive(Debug, Clone)]
pub struct Epoch(String);

impl View for Epoch {
    type V = Seq<char>;

    closed spec fn view(&self) -> Seq<char> {
        self.0@
    }
}

impl Epoch {
    /// The epoch with label `label`.
    pub fn new(label: &str) -> (r: Epoch)
        ensures
            r@ == label@,
    {
        Epoch(String::from_str(label))
    }

    /// The label of this epoch.
    pub fn label(&self) -> (r: &str)
        ensures
            r@ == self@,
    {
        self.0.as_str()
    }
}

impl PartialEq for Epoch {
    fn eq(&self, other: &Epoch) -> (r: bool) {
        self.0 == other.0
    }
}

impl vstd::std_specs::cmp::PartialEqSpecImpl for Epoch {
    open spec fn obeys_eq_spec() -> bool {
        true
    }

    open spec fn eq_spec(&self, other: &Epoch) -> bool {
        self@ == other@
    }
}

} // verus!
