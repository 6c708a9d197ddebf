use geoprecision::units::DistanceUnit;

#[test]
fn test_kilometer_codes() {
    assert_eq!(DistanceUnit::from_code("K"), DistanceUnit::Kilometers);
    assert_eq!(DistanceUnit::from_code("k"), DistanceUnit::Kilometers);
    assert_eq!(DistanceUnit::from_code("KM"), DistanceUnit::Kilometers);
    assert_eq!(DistanceUnit::from_code("km"), DistanceUnit::Kilometers);
    assert_eq!(DistanceUnit::from_code("Km"), DistanceUnit::Kilometers);
    assert_eq!(DistanceUnit::from_code("kM"), DistanceUnit::Kilometers);
}

#[test]
fn test_nautical_mile_codes() {
    assert_eq!(DistanceUnit::from_code("N"), DistanceUnit::NauticalMiles);
    assert_eq!(DistanceUnit::from_code("n"), DistanceUnit::NauticalMiles);
    assert_eq!(DistanceUnit::from_code("MN"), DistanceUnit::NauticalMiles);
    assert_eq!(DistanceUnit::from_code("mn"), DistanceUnit::NauticalMiles);
    assert_eq!(DistanceUnit::from_code("Mn"), DistanceUnit::NauticalMiles);
    assert_eq!(DistanceUnit::from_code("mN"), DistanceUnit::NauticalMiles);
}

#[test]
fn test_unrecognized_codes_fall_back_to_miles() {
    assert_eq!(DistanceUnit::from_code("M"), DistanceUnit::Miles);
    assert_eq!(DistanceUnit::from_code("m"), DistanceUnit::Miles);
    assert_eq!(DistanceUnit::from_code(""), DistanceUnit::Miles);
    assert_eq!(DistanceUnit::from_code("NM"), DistanceUnit::Miles);
    assert_eq!(DistanceUnit::from_code("KMS"), DistanceUnit::Miles);
    assert_eq!(DistanceUnit::from_code("miles"), DistanceUnit::Miles);
    assert_eq!(DistanceUnit::from_code("kilometers"), DistanceUnit::Miles);
    assert_eq!(DistanceUnit::from_code(" K"), DistanceUnit::Miles);
}

#[test]
fn test_conversion_factors() {
    assert_eq!(
        DistanceUnit::Kilometers.factor_from_miles_micro(),
        1_609_344
    );
    assert_eq!(
        DistanceUnit::NauticalMiles.factor_from_miles_micro(),
        868_400
    );
    assert_eq!(DistanceUnit::Miles.factor_from_miles_micro(), 1_000_000);
}
