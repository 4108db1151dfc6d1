use crate::text::{text_cmp, text_compare};
use std::cmp::Ordering;
use vstd::prelude::*;
use vstd::string::*;

verus! {

/// The number of an item in its brand's catalog; never blank.
#[derive(Debug, Clone)]
pub struct ItemNumber(String);

impl View for ItemNumber {
    type V = Seq<char>;

    closed spec fn view(&self) -> Seq<char> {
        self.0@
    }
}

impl ItemNumber {
    /// The item number `value`; fails when `value` is blank.
    pub fn new(value: &str) -> (r: Result<ItemNumber, &'static str>)
        ensures
            r is Ok <==> value@.len() > 0,
            r matches Ok(n) ==> n@ == value@,
            r matches Err(e) ==> e@ == "Item number cannot be blank"@,
    {
        if value.unicode_len() == 0 {
            Err("Item number cannot be blank")
        } else {
            Ok(ItemNumber(String::from_str(value)))
        }
    }

    /// The item number text.
    pub fn value(&self) -> (r: &str)
        ensures
            r@ == self@,
    {
        self.0.as_str()
    }

    /// Compares the texts in lexicographic order.
    pub fn compare(&self, other: &ItemNumber) -> (r: Ordering)
        ensures
            r == text_cmp(self@, other@),
    {
        text_compare(self.0.as_str(), other.0.as_str())
    }
}

impl PartialEq for ItemNumber {
    fn eq(&self, other: &ItemNumber) -> (r: bool) {
        self.0 == other.0
    }
}

impl vstd::std_specs::cmp::PartialEqSpecImpl for ItemNumber {
    open spec fn obeys_eq_spec() -> bool {
        true
    }

    open spec fn eq_spec(&self, other: &ItemNumber) -> bool {
        self@ == other@
    }
}

} // verus!
