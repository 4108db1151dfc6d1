use catalog::decimal::Decimal;
use catalog::length::Length;
use catalog::measure_units::MeasureUnit;
use catalog::scales::ratio::Ratio;

#[test]
fn it_should_create_new_lengths() {
    let l = Length::new(Decimal::new(42, 0), MeasureUnit::Millimeters).unwrap();
    assert_eq!(Decimal::new(420, 1), l.quantity());
    assert_eq!(MeasureUnit::Millimeters, l.measure_unit());
}

#[test]
fn it_should_ensure_lengths_are_non_negative() {
    assert_eq!(None, Length::new(Decimal::new(-1, 0), MeasureUnit::Inches));
    assert_eq!(
        Some(Length::default()),
        Length::new(Decimal::new(0, 0), MeasureUnit::Millimeters)
    );
}

#[test]
fn it_should_display_lengths() {
    let l = Length::new(Decimal::new(42, 0), MeasureUnit::Millimeters).unwrap();
    assert_eq!("42 mm", l.to_string());
}

#[test]
fn it_should_sum_two_lengths() {
    let l1 = Length::new(Decimal::new(206, 1), MeasureUnit::Millimeters).unwrap();
    let l2 = Length::new(Decimal::new(214, 1), MeasureUnit::Millimeters).unwrap();

    let l = l1.add(&l2).unwrap();
    assert_eq!(Decimal::new(420, 1), l.quantity());
    assert_eq!(MeasureUnit::Millimeters, l.measure_unit());
}

#[test]
fn it_should_sum_two_lengths_converting_measure_units() {
    let l1 = Length::new(Decimal::new(166, 1), MeasureUnit::Millimeters).unwrap();
    let l2 = Length::new(Decimal::new(1, 0), MeasureUnit::Inches).unwrap();

    let l = l1.add(&l2).unwrap();
    assert_eq!(Decimal::new(420, 1), l.quantity());
    assert_eq!(MeasureUnit::Millimeters, l.measure_unit());
}

#[test]
fn it_should_compare_two_lengths() {
    let l1 = Length::new(Decimal::new(206, 1), MeasureUnit::Millimeters).unwrap();
    let l2 = Length::new(Decimal::new(214, 1), MeasureUnit::Millimeters).unwrap();

    assert_eq!(l1, l1);
    assert_ne!(l1, l2);
}

#[test]
fn lengths_in_different_units_compare_after_conversion() {
    let mm = Length::new(Decimal::new(254, 1), MeasureUnit::Millimeters).unwrap();
    let inch = Length::new(Decimal::new(1, 0), MeasureUnit::Inches).unwrap();
    assert_eq!(mm, inch);
    let forty_two = Length::new(Decimal::new(42, 0), MeasureUnit::Millimeters).unwrap();
    let sum = Length::new(Decimal::new(166, 1), MeasureUnit::Millimeters)
        .unwrap()
        .add(&inch)
        .unwrap();
    assert_eq!(forty_two, sum);
    let km = Length::new(Decimal::new(2, 0), MeasureUnit::Kilometers).unwrap();
    let mm_more = Length::new(Decimal::new(1999999, 0), MeasureUnit::Millimeters).unwrap();
    assert!(mm_more < km);
    assert!(km > mm_more);
}

#[test]
fn sum_keeps_the_left_unit() {
    let inch = Length::new(Decimal::new(1, 0), MeasureUnit::Inches).unwrap();
    let mm = Length::new(Decimal::new(254, 1), MeasureUnit::Millimeters).unwrap();
    let l = inch.add(&mm).unwrap();
    assert_eq!(MeasureUnit::Inches, l.measure_unit());
    assert_eq!(Decimal::new(200000054, 8), l.quantity());
}

#[test]
fn sum_fails_beyond_the_decimal_range() {
    let big = Decimal::from_i128_with_scale(79228162514264337593543950335, 0);
    let l1 = Length::new(big, MeasureUnit::Millimeters).unwrap();
    let l2 = Length::new(big, MeasureUnit::Millimeters).unwrap();
    assert!(l1.add(&l2).is_none());
    let miles = Length::new(big, MeasureUnit::Miles).unwrap();
    let mm = Length::new(Decimal::new(1, 0), MeasureUnit::Millimeters).unwrap();
    assert!(mm.add(&miles).is_none());
}

#[test]
fn conversions_round_trip_within_tolerance() {
    let units = [
        MeasureUnit::Millimeters,
        MeasureUnit::Inches,
        MeasureUnit::Miles,
        MeasureUnit::Kilometers,
    ];
    let value = Decimal::new(12345, 2);
    let low = Decimal::new(1234487655, 7);
    let high = Decimal::new(1234512345, 7);
    for a in units {
        for b in units {
            let there = a.to(b).convert(value).unwrap();
            let back = b.to(a).convert(there).unwrap();
            assert!(low <= back && back <= high, "{:?} -> {:?}", a, b);
        }
    }
}

#[test]
fn conversion_factors_are_exact_products() {
    let km = Decimal::new(100, 0);
    let miles = MeasureUnit::Kilometers.to(MeasureUnit::Miles).convert(km).unwrap();
    assert_eq!(62137100, miles.mantissa());
    assert_eq!(6, miles.scale());
    let inch = MeasureUnit::Inches.to(MeasureUnit::Millimeters).convert(Decimal::new(1, 0));
    assert_eq!(Some(Decimal::new(254, 1)), inch);
    assert_eq!("mm", MeasureUnit::Millimeters.symbol());
    assert_eq!("in", MeasureUnit::Inches.symbol());
    assert_eq!("mi", MeasureUnit::Miles.symbol());
    assert_eq!("km", MeasureUnit::Kilometers.symbol());
}

#[test]
fn decimals_compare_and_render_by_value() {
    assert_eq!(Decimal::new(42, 0), Decimal::new(4200, 2));
    assert!(Decimal::new(-1, 0) < Decimal::new(1, 3));
    assert_eq!("1.435", Decimal::new(1435, 3).to_string());
    assert_eq!("-0.05", Decimal::new(-5, 2).to_string());
    assert_eq!(Some(Decimal::new(35, 1)), Decimal::new(15, 1).checked_add(&Decimal::new(2, 0)));
    assert_eq!(Some(Decimal::new(6, 2)), Decimal::new(2, 1).checked_mul(&Decimal::new(3, 1)));
    assert!(Decimal::new(-3, 0).is_sign_negative());
    assert!(Decimal::zero().is_zero());
}

#[test]
fn it_should_create_new_ratios() {
    let value = Decimal::from(87);
    assert_eq!(Ok(value), Ratio::try_from(value).map(|r| r.denominator()));
}

#[test]
fn it_should_only_allow_non_negative_ratios() {
    assert_eq!(Err(()), Ratio::try_from(Decimal::from(0)).map(|r| r.denominator()));
    assert_eq!(Err(()), Ratio::try_from(Decimal::from(-1)).map(|r| r.denominator()));
}

#[test]
fn it_should_display_ratios() {
    let ratio1 = Ratio::try_from(Decimal::from(87));
    assert_eq!("1:87", ratio1.unwrap().to_string());
}

#[test]
fn it_should_compare_two_ratios() {
    let ratio1 = Ratio::try_from(Decimal::from(87)).unwrap();
    let ratio2 = Ratio::try_from(Decimal::from(160)).unwrap();

    assert!(ratio1 > ratio2, "1:87 > 1:160 must hold true");
    assert!(ratio2 < ratio1, "1:160 < 1:87 must hold true");
}

#[test]
fn equal_ratios_ignore_the_scale_of_the_denominator() {
    let a = Ratio::try_from(Decimal::new(870, 1)).unwrap();
    let b = Ratio::try_from(Decimal::from(87)).unwrap();
    assert_eq!(a, b);
    assert!(!(a < b) && !(a > b));
    assert!(Ratio::try_from(Decimal::new(1, 28)).is_ok());
}

#[test]
fn adding_zero_keeps_the_length() {
    let l = Length::new(Decimal::new(1234, 2), MeasureUnit::Inches).unwrap();
    let zero = Length::default();
    assert_eq!(l, l.add(&zero).unwrap());
    assert_eq!(MeasureUnit::Inches, l.add(&zero).unwrap().measure_unit());
}
