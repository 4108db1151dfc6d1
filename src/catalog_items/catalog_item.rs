use crate::brands::brand_id::BrandId;
use crate::catalog_items::catalog_item_id::CatalogItemId;
use crate::catalog_items::category::Category;
use crate::catalog_items::delivery_date::DeliveryDate;
use crate::catalog_items::item_number::ItemNumber;
use crate::catalog_items::power_method::PowerMethod;
use crate::catalog_items::rolling_stock::RollingStock;
use crate::metadata::Metadata;
use crate::scales::scale_id::ScaleId;
use crate::slug::slug_of;
use crate::text::{as_str_opt, lemma_text_cmp_equal, opt_string, opt_text, text_cmp, to_owned_opt};
use std::cmp::Ordering;
use vstd::prelude::*;
use vstd::string::*;

verus! {

/// The business key of a catalog item: brand id, brand name, item number.
pub type ItemKey = (Seq<char>, Seq<char>, Seq<char>);

/// Lexicographic order of two keys, field by field.
pub open spec fn key_cmp(a: ItemKey, b: ItemKey) -> Ordering {
    if text_cmp(a.0, b.0) != Ordering::Equal {
        text_cmp(a.0, b.0)
    } else if text_cmp(a.1, b.1) != Ordering::Equal {
        text_cmp(a.1, b.1)
    } else {
        text_cmp(a.2, b.2)
    }
}

/// A catalog item, it can contain one or more rolling stock.
///
/// A catalog item is identified by its brand and item number: two items
/// with the same brand and number are equal, whatever else they hold.
#[derive(Debug, Clone)]
pub struct CatalogItem {
    catalog_item_id: CatalogItemId,
    brand: Brand,
    item_number: ItemNumber,
    category: Category,
    description: Option<String>,
    details: Option<String>,
    scale: Scale,
    power_method: PowerMethod,
    rolling_stocks: Vec<RollingStock>,
    delivery_date: Option<DeliveryDate>,
    count: u8,
    metadata: Metadata,
}

impl CatalogItem {
    pub closed spec fn spec_id(self) -> Seq<char> {
        self.catalog_item_id@
    }

    pub closed spec fn spec_brand(self) -> Brand {
        self.brand
    }

    pub closed spec fn spec_item_number(self) -> Seq<char> {
        self.item_number@
    }

    pub closed spec fn spec_category(self) -> Category {
        self.category
    }

    pub closed spec fn spec_description(self) -> Option<Seq<char>> {
        opt_string(self.description)
    }

    pub closed spec fn spec_details(self) -> Option<Seq<char>> {
        opt_string(self.details)
    }

    pub closed spec fn spec_scale(self) -> Scale {
        self.scale
    }

    pub closed spec fn spec_power_method(self) -> PowerMethod {
        self.power_method
    }

    pub closed spec fn spec_rolling_stocks(self) -> Seq<RollingStock> {
        self.rolling_stocks@
    }

    pub closed spec fn spec_delivery_date(self) -> Option<DeliveryDate> {
        self.delivery_date
    }

    pub closed spec fn spec_count(self) -> u8 {
        self.count
    }

    pub closed spec fn spec_metadata(self) -> Metadata {
        self.metadata
    }

    /// The business key: brand id, brand name and item number.
    pub open spec fn key(self) -> ItemKey {
        (self.spec_brand().spec_id(), self.spec_brand().spec_name(), self.spec_item_number())
    }

    /// Creates a new catalog item; its id is derived from the brand name and
    /// the item number.
    pub fn new(
        brand: Brand,
        item_number: ItemNumber,
        category: Category,
        description: Option<&str>,
        details: Option<&str>,
        rolling_stocks: Vec<RollingStock>,
        power_method: PowerMethod,
        scale: Scale,
        delivery_date: Option<DeliveryDate>,
        count: u8,
        metadata: Metadata,
    ) -> (r: CatalogItem)
        ensures
            r.spec_id() == slug_of(brand.spec_name(), item_number@),
            r.spec_brand() == brand,
            r.spec_item_number() == item_number@,
            r.spec_category() == category,
            r.spec_description() == opt_text(description),
            r.spec_details() == opt_text(details),
            r.spec_rolling_stocks() == rolling_stocks@,
            r.spec_power_method() == power_method,
            r.spec_scale() == scale,
            r.spec_delivery_date() == delivery_date,
            r.spec_count() == count,
            r.spec_metadata() == metadata,
    {
        let catalog_item_id = CatalogItemId::new(&brand, &item_number);
        CatalogItem {
            catalog_item_id,
            brand,
            item_number,
            category,
            description: to_owned_opt(description),
            details: to_owned_opt(details),
            scale,
            power_method,
            rolling_stocks,
            delivery_date,
            count,
            metadata,
        }
    }

    pub fn id(&self) -> (r: &CatalogItemId)
        ensures
            r@ == self.spec_id(),
    {
        &self.catalog_item_id
    }

    /// Return the Brand for this catalog item.
    pub fn brand(&self) -> (r: &Brand)
        ensures
            *r == self.spec_brand(),
    {
        &self.brand
    }

    /// Return the item number as in the corresponding brand catalog.
    pub fn item_number(&self) -> (r: &ItemNumber)
        ensures
            r@ == self.spec_item_number(),
    {
        &self.item_number
    }

    pub fn rolling_stocks(&self) -> (r: &Vec<RollingStock>)
        ensures
            r@ == self.spec_rolling_stocks(),
    {
        &self.rolling_stocks
    }

    /// The item is in the locomotives category.
    pub fn is_locomotive(&self) -> (r: bool)
        ensures
            r == (self.spec_category() == Category::Locomotives),
    {
        self.category == Category::Locomotives
    }

    pub fn category(&self) -> (r: Category)
        ensures
            r == self.spec_category(),
    {
        self.category
    }

    pub fn count(&self) -> (r: u8)
        ensures
            r == self.spec_count(),
    {
        self.count
    }

    pub fn description(&self) -> (r: Option<&str>)
        ensures
            opt_text(r) == self.spec_description(),
    {
        as_str_opt(&self.description)
    }

    pub fn details(&self) -> (r: Option<&str>)
        ensures
            opt_text(r) == self.spec_details(),
    {
        as_str_opt(&self.details)
    }

    pub fn scale(&self) -> (r: &Scale)
        ensures
            *r == self.spec_scale(),
    {
        &self.scale
    }

    pub fn power_method(&self) -> (r: PowerMethod)
        ensures
            r == self.spec_power_method(),
    {
        self.power_method
    }

    pub fn delivery_date(&self) -> (r: &Option<DeliveryDate>)
        ensures
            *r == self.spec_delivery_date(),
    {
        &self.delivery_date
    }

    pub fn metadata(&self) -> (r: &Metadata)
        ensures
            *r == self.spec_metadata(),
    {
        &self.metadata
    }

    /// Orders by brand (its id, then its name), then by item number.
    pub fn compare(&self, other: &CatalogItem) -> (r: Ordering)
        ensures
            r == key_cmp(self.key(), other.key()),
    {
        match self.brand.compare(&other.brand) {
            Ordering::Equal => self.item_number.compare(&other.item_number),
            o => o,
        }
    }
}

impl PartialEq for CatalogItem {
    /// Same brand and same item number.
    fn eq(&self, other: &CatalogItem) -> (r: bool) {
        self.brand == other.brand && self.item_number == other.item_number
    }
}

impl vstd::std_specs::cmp::PartialEqSpecImpl for CatalogItem {
    open spec fn obeys_eq_spec() -> bool {
        true
    }

    open spec fn eq_spec(&self, other: &CatalogItem) -> bool {
        self.key() == other.key()
    }
}

impl PartialOrd for CatalogItem {
    fn partial_cmp(&self, other: &CatalogItem) -> (r: Option<Ordering>) {
        Some(self.compare(other))
    }
}

impl vstd::std_specs::cmp::PartialOrdSpecImpl for CatalogItem {
    open spec fn obeys_partial_cmp_spec() -> bool {
        true
    }

    open spec fn partial_cmp_spec(&self, other: &CatalogItem) -> Option<Ordering> {
        Some(key_cmp(self.key(), other.key()))
    }
}

/// Two catalog items are equal, and compare as equal, exactly when their
/// brands and item numbers are the same, whatever their descriptions,
/// details, rolling stock or other fields.
pub proof fn lemma_identity_is_business_key(a: CatalogItem, b: CatalogItem)
    ensures
        (key_cmp(a.key(), b.key()) == Ordering::Equal) == (a.key() == b.key()),
{
    lemma_text_cmp_equal(a.key().0, b.key().0);
    lemma_text_cmp_equal(a.key().1, b.key().1);
    lemma_text_cmp_equal(a.key().2, b.key().2);
}

/// A model railways manufacturer, as a catalog item refers to it: its id and
/// name.
#[derive(Debug, Clone)]
pub struct Brand {
    brand_id: BrandId,
    name: String,
}

impl Brand {
    pub closed spec fn spec_id(self) -> Seq<char> {
        self.brand_id@
    }

    pub closed spec fn spec_name(self) -> Seq<char> {
        self.name@
    }

    /// Creates a new brand with the given name.
    pub fn new(brand_id: BrandId, name: &str) -> (r: Brand)
        ensures
            r.spec_id() == brand_id@,
            r.spec_name() == name@,
    {
        Brand { brand_id, name: String::from_str(name) }
    }

    /// Returns this brand unique identifier
    pub fn id(&self) -> (r: &BrandId)
        ensures
            r@ == self.spec_id(),
    {
        &self.brand_id
    }

    /// Returns this brand name
    pub fn name(&self) -> (r: &str)
        ensures
            r@ == self.spec_name(),
    {
        self.name.as_str()
    }

    /// The brand name.
    pub fn to_string(&self) -> (r: String)
        ensures
            r@ == self.spec_name(),
    {
        self.name.clone()
    }

    /// Orders by id, then by name.
    pub fn compare(&self, other: &Brand) -> (r: Ordering)
        ensures
            r == (if text_cmp(self.spec_id(), other.spec_id()) != Ordering::Equal {
                text_cmp(self.spec_id(), other.spec_id())
            } else {
                text_cmp(self.spec_name(), other.spec_name())
            }),
    {
        match self.brand_id.compare(&other.brand_id) {
            Ordering::Equal => crate::text::text_compare(self.name.as_str(), other.name.as_str()),
            o => o,
        }
    }
}

impl PartialEq for Brand {
    fn eq(&self, other: &Brand) -> (r: bool) {
        self.brand_id == other.brand_id && self.name == other.name
    }
}

impl vstd::std_specs::cmp::PartialEqSpecImpl for Brand {
    open spec fn obeys_eq_spec() -> bool {
        true
    }

    open spec fn eq_spec(&self, other: &Brand) -> bool {
        self.spec_id() == other.spec_id() && self.spec_name() == other.spec_name()
    }
}

/// A modelling scale, as a catalog item refers to it: its id and name.
#[derive(Debug, Clone)]
pub struct Scale {
    scale_id: ScaleId,
    name: String,
}

impl Scale {
    pub closed spec fn spec_id(self) -> Seq<char> {
        self.scale_id@
    }

    pub closed spec fn spec_name(self) -> Seq<char> {
        self.name@
    }

    /// Creates a new Scale with the given name.
    pub fn new(scale_id: ScaleId, name: &str) -> (r: Scale)
        ensures
            r.spec_id() == scale_id@,
            r.spec_name() == name@,
    {
        Scale { scale_id, name: String::from_str(name) }
    }

    /// Returns this scale unique identifier
    pub fn id(&self) -> (r: &ScaleId)
        ensures
            r@ == self.spec_id(),
    {
        &self.scale_id
    }

    /// Returns this scale name
    pub fn name(&self) -> (r: &str)
        ensures
            r@ == self.spec_name(),
    {
        self.name.as_str()
    }

    /// The scale name.
    pub fn to_string(&self) -> (r: String)
        ensures
            r@ == self.spec_name(),
    {
        self.name.clone()
    }
}

impl PartialEq for Scale {
    fn eq(&self, other: &Scale) -> (r: bool) {
        self.scale_id == other.scale_id && self.name == other.name
    }
}

impl vstd::std_specs::cmp::PartialEqSpecImpl for Scale {
    open spec fn obeys_eq_spec() -> bool {
        true
    }

    open spec fn eq_spec(&self, other: &Scale) -> bool {
        self.spec_id() == other.spec_id() && self.spec_name() == other.spec_name()
    }
}

} // verus!
