use catalog::brands::brand_id::BrandId;
use catalog::catalog_items::catalog_item::Brand;
use catalog::catalog_items::catalog_item_id::CatalogItemId;
use catalog::catalog_items::item_number::ItemNumber;
use catalog::railways::railway_id::RailwayId;
use catalog::scales::scale_id::ScaleId;
use catalog::slug::Slug;
use std::str::FromStr;

#[test]
fn brand_id_it_should_create_new_brand_ids() {
    let brand_id = BrandId::new("brand name");
    assert_eq!("brand-name", brand_id.to_string());
}

#[test]
fn it_should_create_new_railway_ids() {
    let railway_id = RailwayId::new("railway name");
    assert_eq!("railway-name", railway_id.to_string());
}

#[test]
fn it_should_compare_two_railway_ids() {
    let id1 = RailwayId::new("railway name");
    let id2 = RailwayId::new("railway name");
    assert_eq!(id1, id2);
}

#[test]
fn scale_id_it_should_create_new_brand_ids() {
    let brand_id = ScaleId::new("scale name");
    assert_eq!("scale-name", brand_id.to_string());
}

#[test]
fn it_should_create_new_catalog_item_ids() {
    let brand = Brand::new(BrandId::new("ACME"), "ACME");
    let item_number = ItemNumber::new("60000").unwrap();
    let id = CatalogItemId::new(&brand, &item_number);

    assert_eq!("acme-60000", id.value());
}

#[test]
fn it_should_display_catalog_item_ids() {
    let id: CatalogItemId = CatalogItemId::from_str("acme-60000").unwrap();
    assert_eq!("acme-60000", id.to_string());
}

#[test]
fn catalog_item_ids_from_empty_text_fail() {
    assert!(CatalogItemId::from_str("").is_err());
    assert_eq!("acme-60000", CatalogItemId::parse("ACME 60000").unwrap().value());
}

#[test]
fn slugs_lower_and_join_words() {
    assert_eq!("acme", Slug::new("ACME").as_str());
    assert_eq!("brand-name", Slug::new("  Brand   Name!! ").as_str());
    assert_eq!("a-b-c", Slug::new("--a__b..C--").as_str());
    assert_eq!("", Slug::new("").as_str());
    assert_eq!("", Slug::new(" -?- ").as_str());
    assert_eq!("h0e-1-87", Slug::new("H0e (1:87)").as_str());
    assert_eq!("caf", Slug::new("Café").as_str());
    assert_eq!("acme-60000", Slug::of("ACME", "60000").as_str());
}

#[test]
fn slugs_are_idempotent() {
    for text in ["ACME", "  Brand   Name!! ", "--a__b..C--", "", "x-y-z", "Ferrovie dello Stato S.p.A."] {
        let once = Slug::new(text);
        let twice = Slug::new(once.as_str());
        assert_eq!(once, twice);
    }
}

#[test]
fn identifiers_order_by_text() {
    assert!(BrandId::new("acme") < BrandId::new("roco"));
    assert!(RailwayId::new("sbb") > RailwayId::new("fs"));
    assert!(ScaleId::new("h0") < ScaleId::new("h0e"));
}

#[test]
fn catalog_item_ids_are_determined_by_brand_and_number() {
    let acme = Brand::new(BrandId::new("ACME"), "ACME");
    let roco = Brand::new(BrandId::new("Roco"), "Roco");
    let n1 = ItemNumber::new("60000").unwrap();
    let n2 = ItemNumber::new("60001").unwrap();
    assert_eq!(CatalogItemId::new(&acme, &n1), CatalogItemId::new(&acme, &n1));
    assert_ne!(CatalogItemId::new(&acme, &n1), CatalogItemId::new(&acme, &n2));
    assert_ne!(CatalogItemId::new(&acme, &n1), CatalogItemId::new(&roco, &n1));
}

#[test]
fn blank_item_numbers_are_rejected() {
    assert_eq!(Err("Item number cannot be blank"), ItemNumber::new("").map(|n| n.value().to_string()));
    assert_eq!("60000", ItemNumber::new("60000").unwrap().value());
}

#[test]
fn catalog_item_ids_are_slugs_even_with_an_empty_part() {
    let bang = Brand::new(BrandId::new("!"), "!");
    let one = ItemNumber::new("1").unwrap();
    let id = CatalogItemId::new(&bang, &one);
    assert_eq!("1", id.value());
    assert_eq!(id, CatalogItemId::from_str(id.value()).unwrap());
    let acme = Brand::new(BrandId::new("ACME"), "ACME");
    let dashes = ItemNumber::new("--").unwrap();
    assert_eq!("acme", CatalogItemId::new(&acme, &dashes).value());
    assert_eq!("acme", Slug::of("ACME", "?").as_str());
    assert_eq!("x", Slug::of("", "X").as_str());
}

#[test]
fn catalog_item_ids_read_back_unchanged() {
    let acme = Brand::new(BrandId::new("ACME Treni"), "ACME Treni");
    let number = ItemNumber::new("60 000/b").unwrap();
    let id = CatalogItemId::new(&acme, &number);
    assert_eq!("acme-treni-60-000-b", id.value());
    assert_eq!(id, CatalogItemId::from_str(id.value()).unwrap());
}
