use catalog::brands::brand_id::BrandId;
use catalog::catalog_items::catalog_item::Brand;
use catalog::catalog_items::catalog_item_id::CatalogItemId;
use catalog::catalog_items::item_number::ItemNumber;
use catalog::decimal::Decimal;
use catalog::metadata::Metadata;
use catalog::railways::railway::Railway;
use catalog::railways::railway_id::RailwayId;
use catalog::scales::ratio::Ratio;
use isocountry::CountryCode;

#[test]
fn acme_fs_and_h0_end_to_end() {
    let brand = Brand::new(BrandId::new("ACME"), "ACME");
    let number = ItemNumber::new("60000").unwrap();
    assert_eq!("acme-60000", CatalogItemId::new(&brand, &number).value());

    let railway = Railway::new(
        RailwayId::new("FS"),
        "FS",
        "Ferrovie dello stato italiane",
        None,
        None,
        None,
        None,
        CountryCode::ITA,
        None,
        None,
        None,
        None,
        Metadata::created_at(0),
    );
    assert_eq!("FS - Ferrovie dello stato italiane", railway.to_string());

    let h0 = Ratio::try_from(Decimal::from(87)).unwrap();
    let n = Ratio::try_from(Decimal::from(160)).unwrap();
    assert_eq!("1:87", h0.to_string());
    assert!(h0 > n);
}
