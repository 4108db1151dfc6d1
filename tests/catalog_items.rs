use catalog::brands::brand_id::BrandId;
use catalog::catalog_items::catalog_item::{Brand, CatalogItem, Scale};
use catalog::catalog_items::category::{
    Category, ElectricMultipleUnitType, FreightCarType, LocomotiveType, PassengerCarType,
    RailcarType,
};
use catalog::catalog_items::control::{Control, DccInterface};
use catalog::catalog_items::delivery_date::DeliveryDate;
use catalog::catalog_items::epoch::Epoch;
use catalog::catalog_items::item_number::ItemNumber;
use catalog::catalog_items::length_over_buffer::LengthOverBuffer;
use catalog::catalog_items::power_method::PowerMethod;
use catalog::catalog_items::rolling_stock::{Railway, RollingStock};
use catalog::catalog_items::rolling_stock_id::RollingStockId;
use catalog::catalog_items::service_level::ServiceLevel;
use catalog::catalog_items::tech_specs::{Coupling, FeatureFlag, Radius, TechSpecs};
use catalog::decimal::Decimal;
use catalog::metadata::Metadata;
use catalog::railways::railway_id::RailwayId;
use catalog::scales::scale_id::ScaleId;
use std::cmp::Ordering;
use std::str::FromStr;
use uuid::Uuid;

fn fs() -> Railway {
    Railway::new(RailwayId::new("FS"), "FS")
}

fn locomotive(control: Option<Control>, dcc: Option<DccInterface>) -> RollingStock {
    RollingStock::new_locomotive(
        RollingStockId::new(),
        "E.656",
        "E.656 077",
        Some("I serie"),
        fs(),
        Epoch::new("IV"),
        LocomotiveType::ElectricLocomotive,
        Some("Milano Smistamento"),
        Some("blu/grigio"),
        LengthOverBuffer::new(210),
        control,
        dcc,
        None,
    )
}

fn freight_car() -> RollingStock {
    RollingStock::new_freight_car(
        RollingStockId::new(),
        "Gbhs",
        None,
        fs(),
        Epoch::new("IV"),
        Some(FreightCarType::CoveredFreightCars),
        Some("castano"),
        LengthOverBuffer::new(160),
        None,
    )
}

fn passenger_car() -> RollingStock {
    RollingStock::new_passenger_car(
        RollingStockId::new(),
        "UIC-Z",
        Some("61 83 19-90 105-3"),
        fs(),
        Epoch::new("IV"),
        Some(PassengerCarType::CompartmentCoach),
        Some(ServiceLevel::FirstClass),
        None,
        None,
        None,
    )
}

fn catalog_item(number: &str, description: Option<&str>, rolling_stocks: Vec<RollingStock>) -> CatalogItem {
    CatalogItem::new(
        Brand::new(BrandId::new("ACME"), "ACME"),
        ItemNumber::new(number).unwrap(),
        Category::Locomotives,
        description,
        None,
        rolling_stocks,
        PowerMethod::DC,
        Scale::new(ScaleId::new("H0"), "H0"),
        Some(DeliveryDate::by_year(2024)),
        1,
        Metadata::created_at(0),
    )
}

#[test]
fn it_should_create_new_brands() {
    let b = Brand::new(BrandId::new("ACME"), "ACME");
    assert_eq!(&BrandId::new("ACME"), b.id());
    assert_eq!("ACME", b.name());
}

#[test]
fn it_should_display_brand_as_string() {
    let b = Brand::new(BrandId::new("ACME"), "ACME");
    assert_eq!("ACME", b.to_string());
}

#[test]
fn catalog_item_it_should_create_new_scales() {
    let s = Scale::new(ScaleId::new("H0"), "H0");
    assert_eq!(&ScaleId::new("H0"), s.id());
    assert_eq!("H0", s.name());
}

#[test]
fn it_should_display_scale_as_string() {
    let s = Scale::new(ScaleId::new("H0"), "H0");
    assert_eq!("H0", s.to_string());
}

#[test]
fn it_should_parse_string_as_controls() {
    let c = "DCC_READY".parse::<Control>();
    assert!(c.is_ok());
    assert_eq!(c.unwrap(), Control::DccReady);
}

#[test]
fn it_should_fail_to_parse_invalid_value_as_controls() {
    let blank = "".parse::<Control>();
    assert!(blank.is_err());

    let invalid = "invalid".parse::<Control>();
    assert!(invalid.is_err());
}

#[test]
fn it_should_display_controls() {
    let c = Control::DccReady;
    assert_eq!("DccReady", c.to_string());
}

#[test]
fn it_should_parse_string_as_dcc_interfaces() {
    let dcc = "NEM_652".parse::<DccInterface>();
    assert!(dcc.is_ok());
    assert_eq!(dcc.unwrap(), DccInterface::Nem652);
}

#[test]
fn it_should_fail_to_parse_invalid_string_as_dcc_interfaces() {
    let blank = "".parse::<DccInterface>();
    assert!(blank.is_err());

    let invalid = "invalid".parse::<DccInterface>();
    assert!(invalid.is_err());
}

#[test]
fn it_should_display_dcc_interfaces() {
    let dcc = DccInterface::Nem652;
    assert_eq!("Nem652", dcc.to_string());
}

#[test]
fn parse_errors_tell_blank_from_unknown() {
    assert_eq!(Err("Control value cannot be blank"), Control::parse(""));
    assert_eq!(
        Err("Invalid value for control [allowed values are DCC, DCC_READY, DCC_SOUND]"),
        Control::parse("dcc")
    );
    assert_eq!(Ok(Control::Dcc), Control::parse("DCC"));
    assert_eq!(Ok(Control::DccSound), Control::parse("DCC_SOUND"));
    assert_eq!(Err("Dcc interface value cannot be blank"), DccInterface::parse(""));
    assert_eq!(Err("Invalid value for dcc interfaces"), DccInterface::parse("NEM_653"));
    assert_eq!(Ok(DccInterface::Mtc21), DccInterface::parse("MTC_21"));
    assert_eq!(Ok(DccInterface::Plux22), DccInterface::parse("PLUX_22"));
    assert_eq!(Err("Power method value cannot be blank"), PowerMethod::parse(""));
    assert_eq!(
        Err("Invalid value for power methods [allowed: 'AC' or 'DC']"),
        PowerMethod::parse("XX")
    );
}

#[test]
fn controls_with_a_decoder() {
    assert!(Control::Dcc.with_decoder());
    assert!(Control::DccSound.with_decoder());
    assert!(!Control::DccReady.with_decoder());
    assert!(!Control::NoDcc.with_decoder());
}

#[test]
fn it_should_create_new_length_over_buffer() {
    let len = LengthOverBuffer::new(303).unwrap();
    assert_eq!(303, len.value());
}

#[test]
fn length_over_buffer_rejects_zero() {
    assert_eq!(None, LengthOverBuffer::new(0));
}

#[test]
fn it_should_parse_string_as_power_methods() {
    let pm = "AC".parse::<PowerMethod>();
    assert!(pm.is_ok());
    assert_eq!("AC", pm.unwrap().to_string());
}

#[test]
fn it_should_create_new_rolling_stock_id_from_str() {
    let id = "3302b9a7-252c-4b41-8de2-eb71efb1888e"
        .parse::<RollingStockId>()
        .unwrap();
    assert_eq!(
        RollingStockId::from_u128(
            Uuid::from_str("3302b9a7-252c-4b41-8de2-eb71efb1888e")
                .unwrap()
                .as_u128()
        ),
        id
    );
}

#[test]
fn it_should_create_new_rolling_stock_id_from_uuid() {
    let uuid = Uuid::new_v4();
    let rolling_stock_id = RollingStockId::from_u128(uuid.as_u128());
    assert_eq!(uuid.as_u128(), rolling_stock_id.value());
}

#[test]
fn it_should_fail_to_parse_invalid_values_as_rolling_stocks() {
    let result = "invalid value".parse::<RollingStockId>();
    assert!(result.is_err());
}

#[test]
fn rolling_stock_ids_render_as_uuids() {
    let text = "3302b9a7-252c-4b41-8de2-eb71efb1888e";
    let id = RollingStockId::parse(text).unwrap();
    assert_eq!(text, id.to_string());
    assert_ne!(RollingStockId::new(), RollingStockId::new());
}

#[test]
fn it_should_create_tech_specs() {
    let tech_specs = TechSpecs::new(
        Some(Radius::new(Decimal::from(360)).unwrap()),
        Coupling::Nem362,
        FeatureFlag::No,
        FeatureFlag::No,
        FeatureFlag::No,
        FeatureFlag::No,
        FeatureFlag::No,
        FeatureFlag::No,
        FeatureFlag::No,
    );
    assert_eq!(Coupling::Nem362, tech_specs.coupling());
    assert_eq!(Decimal::from(360), tech_specs.minimum_radius().unwrap().value());
}

#[test]
fn tech_specs_default_to_nothing() {
    let t = TechSpecs::default();
    assert!(t.minimum_radius().is_none());
    assert_eq!(Coupling::default(), t.coupling());
    assert_eq!(FeatureFlag::No, t.lights());
    assert_eq!(FeatureFlag::default(), t.metal_body());
    assert!(Radius::new(Decimal::from(-1)).is_none());
}

#[test]
fn rolling_stock_category_follows_the_variant() {
    let emu = RollingStock::new_electric_multiple_unit(
        RollingStockId::new(),
        "ALe 582",
        None,
        fs(),
        Epoch::new("V"),
        ElectricMultipleUnitType::PowerCar,
        None,
        None,
        false,
        None,
        Some(Control::DccSound),
        Some(DccInterface::Next18),
        None,
    );
    let railcar = RollingStock::new_railcar(
        RollingStockId::new(),
        "ALn 668",
        Some("ALn 668 1449"),
        fs(),
        Epoch::new("IV"),
        Some(RailcarType::PowerCar),
        None,
        None,
        true,
        None,
        Some(Control::DccReady),
        None,
        None,
    );
    assert_eq!(Category::ElectricMultipleUnits, emu.category());
    assert_eq!(Category::Locomotives, locomotive(None, None).category());
    assert_eq!(Category::FreightCars, freight_car().category());
    assert_eq!(Category::PassengerCars, passenger_car().category());
    assert_eq!(Category::Railcars, railcar.category());
    assert!(emu.with_decoder());
    assert_eq!(Some(DccInterface::Next18), emu.dcc_interface());
    assert!(!railcar.with_decoder());
    assert_eq!(None, railcar.dcc_interface());
}

#[test]
fn towed_rolling_stock_has_no_decoder() {
    for rs in [freight_car(), passenger_car()] {
        assert!(!rs.with_decoder());
        assert_eq!(None, rs.dcc_interface());
    }
}

#[test]
fn rolling_stock_accessors() {
    let loco = locomotive(Some(Control::Dcc), Some(DccInterface::Plux22));
    assert!(loco.with_decoder());
    assert_eq!(Some(DccInterface::Plux22), loco.dcc_interface());
    assert_eq!(Some("E.656 077"), loco.road_number());
    assert_eq!(Some("blu/grigio"), loco.livery());
    assert_eq!(Some(210), loco.length_over_buffer().map(|l| l.value()));
    assert_eq!("IV", loco.epoch().label());
    assert_eq!("FS", loco.railway().name());
    assert_eq!(&RailwayId::new("FS"), loco.railway().id());
    assert!(loco.tech_specs().is_none());
    let car = freight_car();
    assert_eq!(None, car.road_number());
    assert_eq!(Some("castano"), car.livery());
    let coach = passenger_car();
    assert_eq!(Some("61 83 19-90 105-3"), coach.road_number());
    assert_eq!(None, coach.livery());
    assert_eq!(coach.id(), coach.id());
}

#[test]
fn catalog_items_are_identified_by_brand_and_number() {
    let a = catalog_item("60000", Some("first"), vec![locomotive(None, None)]);
    let b = catalog_item("60000", Some("second"), vec![freight_car(), passenger_car()]);
    let c = catalog_item("60001", Some("first"), vec![locomotive(None, None)]);
    assert!(a == b);
    assert_eq!(Some(Ordering::Equal), a.partial_cmp(&b));
    assert!(a != c);
    assert!(a < c);
    assert_eq!("acme-60000", a.id().value());
    assert_eq!("acme-60001", c.id().value());
}

#[test]
fn catalog_item_accessors() {
    let item = catalog_item("60000", Some("E.656 in blue livery"), vec![locomotive(None, None)]);
    assert_eq!("ACME", item.brand().name());
    assert_eq!("60000", item.item_number().value());
    assert!(item.is_locomotive());
    assert_eq!(Category::Locomotives, item.category());
    assert_eq!(1, item.count());
    assert_eq!(Some("E.656 in blue livery"), item.description());
    assert_eq!(None, item.details());
    assert_eq!("H0", item.scale().name());
    assert_eq!(PowerMethod::DC, item.power_method());
    assert_eq!(&Some(DeliveryDate::by_year(2024)), item.delivery_date());
    assert_eq!(1, item.rolling_stocks().len());
    assert_eq!(1, item.metadata().version());
}

#[test]
fn delivery_dates_take_quarters_one_to_four() {
    assert_eq!(None, DeliveryDate::by_quarter(2024, 0));
    assert_eq!(None, DeliveryDate::by_quarter(2024, 5));
    let d = DeliveryDate::by_quarter(2024, 3).unwrap();
    assert_eq!(2024, d.year());
    assert_eq!(Some(3), d.quarter());
}

#[test]
fn new_rolling_stock_ids_are_version_4_uuids() {
    let v = RollingStockId::new().value();
    assert_eq!(4, (v >> 76) & 0xf);
    assert_eq!(2, (v >> 62) & 0x3);
}

#[test]
fn rolling_stock_equality_compares_every_attribute() {
    let id = RollingStockId::new();
    let make = |livery: Option<&str>| {
        RollingStock::new_freight_car(
            id,
            "Gbhs",
            None,
            fs(),
            Epoch::new("IV"),
            Some(FreightCarType::CoveredFreightCars),
            livery,
            LengthOverBuffer::new(160),
            Some(TechSpecs::default()),
        )
    };
    assert_eq!(make(Some("castano")), make(Some("castano")));
    assert_ne!(make(Some("castano")), make(None));
    assert_ne!(freight_car(), passenger_car());
    assert_eq!(fs(), fs());
    assert_ne!(fs(), Railway::new(RailwayId::new("SBB"), "SBB"));
}

#[test]
fn tech_specs_and_radii_compare_by_value() {
    let r1 = Radius::new(Decimal::new(3600, 1)).unwrap();
    let r2 = Radius::new(Decimal::from(360)).unwrap();
    assert_eq!(r1, r2);
    let t1 = TechSpecs::new(
        Some(r1),
        Coupling::Nem362,
        FeatureFlag::Yes,
        FeatureFlag::No,
        FeatureFlag::No,
        FeatureFlag::No,
        FeatureFlag::No,
        FeatureFlag::No,
        FeatureFlag::No,
    );
    let t2 = TechSpecs::new(
        Some(r2),
        Coupling::Nem362,
        FeatureFlag::Yes,
        FeatureFlag::No,
        FeatureFlag::No,
        FeatureFlag::No,
        FeatureFlag::No,
        FeatureFlag::No,
        FeatureFlag::No,
    );
    assert_eq!(t1, t2);
    assert_ne!(t1, TechSpecs::default());
    assert_eq!(Epoch::new("IV"), Epoch::new("IV"));
}
