use crate::slug::{slugify, Slug};
use crate::text::{text_cmp, text_compare};
use std::cmp::Ordering;
use vstd::prelude::*;

verus! {

/// The identifier of a railway company: a slug.
#[derive(Debug, Clone)]
pub struct RailwayId(Slug);

impl View for RailwayId {
    type V = Seq<char>;

    closed spec fn view(&self) -> Seq<char> {
        self.0@
    }
}

impl RailwayId {
    /// The identifier whose text is the slug of `id`.
    pub fn new(id: &str) -> (r: RailwayId)
        ensures
            r@ == slugify(id@),
    {
        RailwayId(Slug::new(id))
    }

    /// The identifier text.
    pub fn to_string(&self) -> (r: String)
        ensures
            r@ == self@,
    {
        self.0.to_string()
    }

    /// Compares the identifier texts in lexicographic order.
    pub fn compare(&self, other: &RailwayId) -> (r: Ordering)
        ensures
            r == text_cmp(self@, other@),
    {
        text_compare(self.0.as_str(), other.0.as_str())
    }
}

impl PartialEq for RailwayId {
    fn eq(&self, other: &RailwayId) -> (r: bool) {
        self.0 == other.0
    }
}

impl vstd::std_specs::cmp::PartialEqSpecImpl for RailwayId {
    open spec fn obeys_eq_spec() -> bool {
        true
    }

    open spec fn eq_spec(&self, other: &RailwayId) -> bool {
        self@ == other@
    }
}

impl PartialOrd for RailwayId {
    fn partial_cmp(&self, other: &RailwayId) -> (r: Option<Ordering>) {
        Some(self.compare(other))
    }
}

impl vstd::std_specs::cmp::PartialOrdSpecImpl for RailwayId {
    open spec fn obeys_partial_cmp_spec() -> bool {
        true
    }

    open spec fn partial_cmp_spec(&self, other: &RailwayId) -> Option<Ordering> {
        Some(text_cmp(self@, other@))
    }
}

} // verus!
