use catalog::brands::brand::Brand;
use catalog::brands::brand_id::BrandId;
use catalog::brands::brand_status::BrandStatus;
use catalog::brands::brand_type::BrandType;
use catalog::contact::mail_address::MailAddress;
use catalog::contact::website_url::WebsiteUrl;
use catalog::contact::ContactInfo;
use catalog::decimal::Decimal;
use catalog::metadata::Metadata;
use catalog::scales::ratio::Ratio;
use catalog::scales::scale::Scale;
use catalog::scales::scale_gauge::{Gauge, TrackGauge};
use catalog::scales::scale_id::ScaleId;
use catalog::scales::standard::Standard;
use chrono::{DateTime, Utc};

fn acme() -> Brand {
    let now: DateTime<Utc> = Utc::now();
    let contact_info = ContactInfo::new(
        Some(MailAddress::new("mail@acmetreni.com")),
        Some(WebsiteUrl::try_from("http://www.acmetreni.com").unwrap()),
        None,
    );
    Brand::new(
        BrandId::new("ACME"),
        "ACME",
        Some("Associazione Costruzioni Modellistiche Esatte"),
        None,
        None,
        BrandType::Industrial,
        BrandStatus::Active,
        Some(contact_info),
        None,
        Metadata::created_at(now.timestamp_millis()),
    )
}

fn scale_h0() -> Scale {
    Scale::new(
        ScaleId::new("H0"),
        "H0",
        Some("Scale H0"),
        Ratio::try_from(Decimal::from(87)).unwrap(),
        Gauge::new(TrackGauge::Standard, Decimal::from(16), Decimal::from(65)),
        Vec::new(),
        Metadata::created_at(Utc::now().timestamp_millis()),
    )
}

#[test]
fn it_should_create_brands() {
    let now: DateTime<Utc> = Utc::now();
    let contact_info = ContactInfo::new(
        Some(MailAddress::new("mail@acmetreni.com")),
        Some(WebsiteUrl::try_from("http://www.acmetreni.com").unwrap()),
        None,
    );
    let brand = Brand::new(
        BrandId::new("ACME"),
        "ACME",
        Some("Associazione Costruzioni Modellistiche Esatte"),
        None,
        None,
        BrandType::Industrial,
        BrandStatus::Active,
        Some(contact_info.clone()),
        None,
        Metadata::created_at(now.timestamp_millis()),
    );

    assert_eq!(&BrandId::new("ACME"), brand.brand_id());
    assert_eq!("ACME", brand.name());
    assert_eq!(
        Some("Associazione Costruzioni Modellistiche Esatte"),
        brand.registered_company_name()
    );
    assert_eq!(None, brand.group_name());
    assert_eq!(None, brand.description());
    assert_eq!(BrandType::Industrial, brand.brand_type());
    assert!(brand.is_active());
    assert_eq!(
        Some(&MailAddress::new("mail@acmetreni.com")),
        brand.contact_info().unwrap().email()
    );
    assert!(brand.socials().is_none());
    assert_eq!(&Metadata::created_at(now.timestamp_millis()), brand.metadata());
}

#[test]
fn is_should_display_brands() {
    let acme = acme();
    assert_eq!("ACME", acme.to_string());
}

#[test]
fn it_should_define_default_brand_type() {
    let brand_type = BrandType::default();
    assert_eq!(BrandType::Industrial, brand_type);
}

#[test]
fn brand_types_parse_from_text() {
    assert_eq!(Ok(BrandType::BrassModels), "brass_models".parse::<BrandType>());
    assert_eq!(Err("The brand type value cannot be blank"), BrandType::parse(""));
    assert_eq!(Err("Invalid value for brand type"), BrandType::parse("Industrial"));
    assert_eq!(BrandStatus::Active, BrandStatus::default());
}

#[test]
fn scale_it_should_create_new_scales() {
    let now: DateTime<Utc> = Utc::now();
    let id = ScaleId::new("H0");
    let ratio = Ratio::try_from(Decimal::from(87)).unwrap();
    let gauge = Gauge::new(TrackGauge::Standard, Decimal::from(16), Decimal::from(65));
    let scale = Scale::new(
        id.clone(),
        "H0",
        Some("Scale H0"),
        ratio.clone(),
        gauge.clone(),
        Vec::new(),
        Metadata::created_at(now.timestamp_millis()),
    );

    assert_eq!(&id, scale.scale_id());
    assert_eq!("H0", scale.name());
    assert_eq!(Some("Scale H0"), scale.description());
    assert_eq!(&ratio, scale.ratio());
    assert_eq!(&gauge, scale.gauge());
    assert!(scale.standards().is_empty());
    assert_eq!(&Metadata::created_at(now.timestamp_millis()), scale.metadata());
}

#[test]
fn it_should_display_scales() {
    let scale = scale_h0();
    assert_eq!("H0 (1:87)", scale.to_string());
}

#[test]
fn scales_keep_each_standard_once() {
    let scale = Scale::new(
        ScaleId::new("N"),
        "N",
        None,
        Ratio::try_from(Decimal::from(160)).unwrap(),
        Gauge::new(TrackGauge::Standard, Decimal::new(9, 0), Decimal::new(354, 3)),
        vec![Standard::NEM, Standard::NMRA, Standard::NEM, Standard::Japanese, Standard::NMRA],
        Metadata::created_at(0),
    );
    assert_eq!(&vec![Standard::NEM, Standard::NMRA, Standard::Japanese], scale.standards());
    assert_eq!(Decimal::new(354, 3), scale.gauge().inches());
    assert_eq!(Decimal::new(9, 0), scale.gauge().millimeters());
    assert_eq!(TrackGauge::Standard, scale.gauge().track_gauge());
}
