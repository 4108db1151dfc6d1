use crate::slug::{slugify, Slug};
use crate::text::{text_cmp, text_compare};
use std::cmp::Ordering;
use vstd::prelude::*;

verus! {

/// The identifier of a brand: a slug.
#[derive(Debug, Clone)]
pub struct BrandId(Slug);

impl View for BrandId {
    type V = Seq<char>;

    closed spec fn view(&self) -> Seq<char> {
        self.0@
    }
}

impl BrandId {
    /// The identifier whose text is the slug of `id`.
    pub fn new(id: &str) -> (r: BrandId)
        ensures
            r@ == slugify(id@),
    {
        BrandId(Slug::new(id))
    }

    /// The identifier text.
    pub fn to_string(&self) -> (r: String)
        ensures
            r@ == self@,
    {
        self.0.to_string()
    }

    /// Compares the identifier texts in lexicographic order.
    pub fn compare(&self, other: &BrandId) -> (r: Ordering)
        ensures
            r == text_cmp(self@, other@),
    {
        text_compare(self.0.as_str(), other.0.as_str())
    }
}

impl PartialEq for BrandId {
    fn eq(&self, other: &BrandId) -> (r: bool) {
        self.0 == other.0
    }
}

impl vstd::std_specs::cmp::PartialEqSpecImpl for BrandId {
    open spec fn obeys_eq_spec() -> bool {
        true
    }

    open spec fn eq_spec(&self, other: &BrandId) -> bool {
        self@ == other@
    }
}

impl PartialOrd for BrandId {
    fn partial_cmp(&self, other: &BrandId) -> (r: Option<Ordering>) {
        Some(self.compare(other))
    }
}

impl vstd::std_specs::cmp::PartialOrdSpecImpl for BrandId {
    open spec fn obeys_partial_cmp_spec() -> bool {
        true
    }

    open spec fn partial_cmp_spec(&self, other: &BrandId) -> Option<Ordering> {
        Some(text_cmp(self@, other@))
    }
}

} // verus!
