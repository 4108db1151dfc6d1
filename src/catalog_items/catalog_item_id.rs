use crate::catalog_items::catalog_item::Brand;
use crate::catalog_items::item_number::ItemNumber;
use crate::slug::{
    is_slug, lemma_slug_fixed_point, lemma_slug_of_form, slug_of, slugify, Slug,
};
use vstd::prelude::*;
use vstd::string::*;

verus! {

/// The identifier of a catalog item, derived from its business key:
/// `slugify(brand name) + "-" + slugify(item number)` (without the hyphen
/// where one of the two slugs is empty). It is always a slug.
#[derive(Debug, Clone)]
pub struct CatalogItemId(Slug);

impl View for CatalogItemId {
    type V = Seq<char>;

    closed spec fn view(&self) -> Seq<char> {
        self.0@
    }
}

impl CatalogItemId {
    /// The id of the item `item_number` of `brand`, e.g. "acme-60000".
    pub fn new(brand: &Brand, item_number: &ItemNumber) -> (r: CatalogItemId)
        ensures
            r@ == slug_of(brand.spec_name(), item_number@),
            is_slug(r@),
    {
        CatalogItemId(Slug::of(brand.name(), item_number.value()))
    }

    /// Reads an id from its text, normalized to a slug; fails when the text
    /// is empty.
    pub fn parse(s: &str) -> (r: Result<CatalogItemId, ()>)
        ensures
            r is Ok <==> s@.len() > 0,
            r matches Ok(id) ==> id@ == slugify(s@),
    {
        if s.unicode_len() == 0 {
            Err(())
        } else {
            Ok(CatalogItemId(Slug::new(s)))
        }
    }

    /// Returns the value for this catalog item id
    pub fn value(&self) -> (r: &str)
        ensures
            r@ == self@,
    {
        self.0.as_str()
    }

    /// The id text.
    pub fn to_string(&self) -> (r: String)
        ensures
            r@ == self@,
    {
        self.0.to_string()
    }
}

impl PartialEq for CatalogItemId {
    fn eq(&self, other: &CatalogItemId) -> (r: bool) {
        self.0 == other.0
    }
}

impl vstd::std_specs::cmp::PartialEqSpecImpl for CatalogItemId {
    open spec fn obeys_eq_spec() -> bool {
        true
    }

    open spec fn eq_spec(&self, other: &CatalogItemId) -> bool {
        self@ == other@
    }
}

impl std::str::FromStr for CatalogItemId {
    type Err = ();

    fn from_str(s: &str) -> Result<CatalogItemId, ()> {
        CatalogItemId::parse(s)
    }
}

/// The id is a function of the brand name and item number: equal keys give
/// equal ids.
pub proof fn lemma_id_deterministic(name1: Seq<char>, number1: Seq<char>, name2: Seq<char>, number2: Seq<char>)
    requires
        name1 == name2,
        number1 == number2,
    ensures
        slug_of(name1, number1) == slug_of(name2, number2),
{
}

/// The text of an id is a slug and reads back as the same id: parsing
/// `id.value()` normalizes it to itself.
pub proof fn lemma_id_text_reads_back(name: Seq<char>, number: Seq<char>)
    ensures
        is_slug(slug_of(name, number)),
        slugify(slug_of(name, number)) == slug_of(name, number),
{
    lemma_slug_of_form(name, number);
    lemma_slug_fixed_point(slug_of(name, number));
}

/// Keys that share the slug of one part and differ in the slug of the other
/// give different ids.
pub proof fn lemma_id_distinguishes_keys(
    name1: Seq<char>,
    number1: Seq<char>,
    name2: Seq<char>,
    number2: Seq<char>,
)
    requires
        (slugify(name1) == slugify(name2) && slugify(number1) != slugify(number2)) || (slugify(
            number1,
        ) == slugify(number2) && slugify(name1) != slugify(name2)),
    ensures
        slug_of(name1, number1) != slug_of(name2, number2),
{
    let a1 = slugify(name1);
    let b1 = slugify(number1);
    let a2 = slugify(name2);
    let b2 = slugify(number2);
    let t1 = slug_of(name1, number1);
    let t2 = slug_of(name2, number2);
    if t1 == t2 {
        if a1 == a2 {
            if a1.len() == 0 {
                assert(t1 == b1 && t2 == b2);
            } else if b1.len() == 0 {
                assert(b2.len() > 0) by {
                    if b2.len() == 0 {
                        assert(b1 =~= b2);
                    }
                }
                assert(t1 == a1);
                assert(t2.len() == a1.len() + 1 + b2.len());
            } else if b2.len() == 0 {
                assert(t2 == a2);
                assert(t1.len() == a1.len() + 1 + b1.len());
            } else {
                assert(b1 =~= t1.subrange(a1.len() as int + 1, t1.len() as int));
                assert(b2 =~= t2.subrange(a2.len() as int + 1, t2.len() as int));
            }
        } else {
            if b1.len() == 0 {
                assert(t1 == a1 && t2 == a2);
            } else if a1.len() == 0 {
                assert(a2.len() > 0) by {
                    if a2.len() == 0 {
                        assert(a1 =~= a2);
                    }
                }
                assert(t1 == b1);
                assert(t2.len() == a2.len() + 1 + b2.len());
            } else if a2.len() == 0 {
                assert(t2 == b2);
                assert(t1.len() == a1.len() + 1 + b1.len());
            } else {
                assert(t1.len() == a1.len() + 1 + b1.len());
                assert(t2.len() == a2.len() + 1 + b2.len());
                assert(a1 =~= t1.subrange(0, a1.len() as int));
                assert(a2 =~= t2.subrange(0, a2.len() as int));
            }
        }
    }
}

/// Keys whose parts have non-empty slugs, and whose item numbers normalize to
/// text without hyphens, give different ids whenever the slugs of the brand
/// names or of the item numbers differ.
pub proof fn lemma_id_distinguishes_hyphen_free_numbers(
    name1: Seq<char>,
    number1: Seq<char>,
    name2: Seq<char>,
    number2: Seq<char>,
)
    requires
        slugify(name1).len() > 0,
        slugify(name2).len() > 0,
        slugify(number1).len() > 0,
        slugify(number2).len() > 0,
        !slugify(number1).contains('-'),
        !slugify(number2).contains('-'),
        slugify(name1) != slugify(name2) || slugify(number1) != slugify(number2),
    ensures
        slug_of(name1, number1) != slug_of(name2, number2),
{
    let a1 = slugify(name1);
    let b1 = slugify(number1);
    let a2 = slugify(name2);
    let b2 = slugify(number2);
    let t1 = slug_of(name1, number1);
    let t2 = slug_of(name2, number2);
    assert(t1 == a1 + seq!['-'] + b1);
    assert(t2 == a2 + seq!['-'] + b2);
    if t1 == t2 {
        if b1.len() < b2.len() {
            let k = t1.len() - b1.len() - 1;
            assert(t1[k] == '-');
            let j = k - a2.len() - 1;
            assert(t2[k] == b2[j]);
            assert(b2.contains('-'));
        } else if b2.len() < b1.len() {
            let k = t2.len() - b2.len() - 1;
            assert(t2[k] == '-');
            let j = k - a1.len() - 1;
            assert(t1[k] == b1[j]);
            assert(b1.contains('-'));
        } else {
            assert(a1 =~= t1.subrange(0, a1.len() as int));
            assert(a2 =~= t2.subrange(0, a2.len() as int));
            assert(b1 =~= t1.subrange(a1.len() as int + 1, t1.len() as int));
            assert(b2 =~= t2.subrange(a2.len() as int + 1, t2.len() as int));
        }
    }
}

} // verus!
