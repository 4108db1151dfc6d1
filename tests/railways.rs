use catalog::contact::website_url::WebsiteUrl;
use catalog::contact::ContactInfo;
use catalog::decimal::Decimal;
use catalog::metadata::Metadata;
use catalog::railways::period_of_activity::{Date, PeriodOfActivity, RailwayStatus};
use catalog::railways::railway::Railway;
use catalog::railways::railway_gauge::{RailwayGauge, TrackGauge};
use catalog::railways::railway_id::RailwayId;
use catalog::railways::railway_length::RailwayLength;
use catalog::railways::railway_ownership::Ownership;
use catalog::socials::{Handler, Socials};
use chrono::Utc;
use isocountry::CountryCode;

#[test]
fn it_should_create_new_active_periods_of_activity() {
    let active = PeriodOfActivity::active_railway(Date::with_year(1900));
    assert_eq!(RailwayStatus::Active, active.status());
    assert_eq!(&Date::with_year(1900), active.operating_since());
    assert_eq!(None, active.operating_until());
}

#[test]
fn it_should_create_new_inactive_periods_of_activity() {
    let end_date = Date::with_exact_day(2000, 12, 24).unwrap();
    let active = PeriodOfActivity::inactive_railway(Date::with_year(1900), end_date);
    assert_eq!(RailwayStatus::Inactive, active.status());
    assert_eq!(&Date::with_year(1900), active.operating_since());
    assert_eq!(Some(&end_date), active.operating_until());
}

#[test]
fn exact_days_must_exist() {
    assert!(Date::with_exact_day(2000, 2, 29).is_some());
    assert!(Date::with_exact_day(1900, 2, 29).is_none());
    assert!(Date::with_exact_day(2023, 4, 31).is_none());
    assert!(Date::with_exact_day(2023, 13, 1).is_none());
    assert!(Date::with_exact_day(2023, 1, 0).is_none());
}

#[test]
fn it_should_create_new_railways() {
    let metadata = Metadata::created_at(Utc::now().timestamp_millis());
    let socials = Some(Socials::new(
        None,
        Handler::try_from("fsitaliane").ok(),
        Handler::try_from("ferrovie-dello-stato-s-p-a-").ok(),
        Handler::try_from("FSitaliane").ok(),
        Handler::try_from("fsitaliane").ok(),
    ));
    let length = RailwayLength::of_kilometers(Decimal::new(245640, 1)).unwrap();
    let gauge = RailwayGauge::standard();
    let contact_info = ContactInfo::new(
        None,
        Some(WebsiteUrl::try_from("https://www.fsitaliane.it").unwrap()),
        None,
    );
    let railway = Railway::new(
        RailwayId::new("FS"),
        "FS",
        "Ferrovie dello stato italiane",
        None,
        None,
        Some(length),
        Some(gauge.clone()),
        CountryCode::ITA,
        Some(Ownership::Public),
        Some("Rome"),
        Some(contact_info.clone()),
        socials.clone(),
        metadata.clone(),
    );

    assert_eq!(&RailwayId::new("FS"), railway.railway_id());
    assert_eq!("FS", railway.name());
    assert_eq!(
        "Ferrovie dello stato italiane",
        railway.registered_company_name()
    );
    assert_eq!(Some("Rome"), railway.headquarters());
    assert_eq!(Some(&length), railway.length());
    assert_eq!(Some(&gauge), railway.gauge());
    assert_eq!(Some(Ownership::Public), railway.ownership());
    assert_eq!(
        contact_info.website_url(),
        railway.contact_info().unwrap().website_url()
    );
    let twitter = socials.as_ref().unwrap().twitter();
    assert_eq!(twitter, railway.socials().unwrap().twitter());
    assert_eq!(&metadata, railway.metadata());
    assert_eq!(&CountryCode::ITA, railway.country());
}

#[test]
fn it_should_display_railways() {
    let metadata = Metadata::created_at(Utc::now().timestamp_millis());
    let railway = Railway::new(
        RailwayId::new("FS"),
        "FS",
        "Ferrovie dello stato italiane",
        None,
        None,
        None,
        None,
        CountryCode::ITA,
        Some(Ownership::Public),
        Some("Rome"),
        None,
        None,
        metadata,
    );
    assert_eq!("FS - Ferrovie dello stato italiane", railway.to_string());
}

#[test]
fn it_should_create_railway_gauges() {
    let gauge = RailwayGauge::new(Decimal::new(1435, 3), TrackGauge::Standard);
    assert_eq!(Decimal::new(1435, 3), gauge.meters());
    assert_eq!(TrackGauge::Standard, gauge.track_gauge());
}

#[test]
fn it_should_create_a_standard_railway_gauges() {
    let gauge = RailwayGauge::standard();
    assert_eq!(Decimal::new(1435, 3), gauge.meters());
    assert_eq!(TrackGauge::Standard, gauge.track_gauge());
}

#[test]
fn it_should_create_a_metre_railway_gauges() {
    let gauge = RailwayGauge::metre();
    assert_eq!(Decimal::new(10, 1), gauge.meters());
    assert_eq!(TrackGauge::Narrow, gauge.track_gauge());
}

#[test]
fn it_should_create_new_railway_lengths() {
    let miles = Decimal::new(100, 0);
    let kilometers = Decimal::new(100, 0);
    let len = RailwayLength::new(kilometers, miles);
    assert_eq!(miles, len.miles());
    assert_eq!(kilometers, len.kilometers());
}

#[test]
fn it_should_display_a_railway_length_value() {
    let miles = Decimal::new(100, 0);
    let kilometers = Decimal::new(100, 0);
    let len = RailwayLength::new(kilometers, miles);
    assert_eq!("kilometers: 100, miles: 100", len.to_string());
}

#[test]
fn it_should_create_a_railway_length_from_kilometers() {
    let kilometers = Decimal::new(100, 0);
    let length = RailwayLength::of_kilometers(kilometers).unwrap();
    assert_eq!(kilometers, length.kilometers());
    assert_eq!(Decimal::new(62137100, 6), length.miles());
}

#[test]
fn it_should_create_a_railway_length_from_miles() {
    let miles = Decimal::new(100, 0);
    let length = RailwayLength::of_miles(miles).unwrap();
    assert_eq!(Decimal::new(16093400, 5), length.kilometers());
    assert_eq!(miles, length.miles());
}

#[test]
fn railway_length_beyond_the_decimal_range_fails() {
    let huge = Decimal::from_i128_with_scale(79228162514264337593543950335, 0);
    assert!(RailwayLength::of_miles(huge).is_none());
}

#[test]
fn it_should_display_ownerships() {
    assert_eq!("Private", Ownership::Private.to_string());
}

#[test]
fn railways_compare_by_all_attributes() {
    let make = |headquarters: Option<&str>| {
        Railway::new(
            RailwayId::new("FS"),
            "FS",
            "Ferrovie dello stato italiane",
            None,
            Some(PeriodOfActivity::active_railway(Date::with_year(1905))),
            RailwayLength::of_kilometers(Decimal::new(245640, 1)),
            Some(RailwayGauge::standard()),
            CountryCode::ITA,
            Some(Ownership::Public),
            headquarters,
            Some(ContactInfo::new(None, WebsiteUrl::try_from("https://www.fsitaliane.it").ok(), None)),
            Some(Socials::default()),
            Metadata::created_at(0),
        )
    };
    assert_eq!(make(Some("Rome")), make(Some("Rome")));
    assert_ne!(make(Some("Rome")), make(None));
}
