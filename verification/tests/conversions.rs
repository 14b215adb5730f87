use conversion_lib::fixed::Fixed;
use conversion_lib::length;
use conversion_lib::mass;
use conversion_lib::pressure;
use conversion_lib::temperature;

// One unit is 1_000_000 millionths; the round-trip tolerance of 1e-4 units
// is 100 millionths.
const UNIT: i64 = 1_000_000;
const TOLERANCE: i64 = 100;

#[test]
fn test_length_conversions() {
    // 1 m = 3.28084 ft, exactly representable in millionths.
    let result = length::meters_to_feet(Fixed::from_micros(UNIT));
    assert!((result.micros() - 3_280_840).abs() < TOLERANCE);

    // Round trip: 100 m -> feet -> meters comes back within 1e-4 m.
    let meters = Fixed::from_micros(100 * UNIT);
    let feet = length::meters_to_feet(meters);
    let back_to_meters = length::feet_to_meters(feet);
    assert!((meters.micros() - back_to_meters.micros()).abs() < TOLERANCE);
}

#[test]
fn test_temperature_conversions() {
    // Freezing point: 0 C = 32 F.
    assert_eq!(
        temperature::celsius_to_fahrenheit(Fixed::from_micros(0)).micros(),
        32 * UNIT
    );

    // Boiling point: 100 C = 212 F.
    assert_eq!(
        temperature::celsius_to_fahrenheit(Fixed::from_micros(100 * UNIT)).micros(),
        212 * UNIT
    );

    // 0 C = 273.15 K.
    assert_eq!(
        temperature::celsius_to_kelvin(Fixed::from_micros(0)).micros(),
        273_150_000
    );
}

#[test]
fn test_pressure_conversions() {
    // Round trip: 1 bar -> PSI -> bar comes back within 1e-4 bar.
    let bar = Fixed::from_micros(UNIT);
    let psi = pressure::bar_to_psi(bar);
    let back_to_bar = pressure::psi_to_bar(psi);
    assert!((bar.micros() - back_to_bar.micros()).abs() < TOLERANCE);
}

#[test]
fn test_mass_conversions() {
    // Round trip: 100 kg -> 220.462 lb -> 99.9998 kg. The product of the
    // two rounded factors is 0.99999799504, so at 100 kg the trip drifts by
    // 200 millionths (2e-4 kg) and exceeds the 1e-4 tolerance that holds
    // for values up to about 49.5 kg.
    let kg = Fixed::from_micros(100 * UNIT);
    let pounds = mass::kg_to_pounds(kg);
    assert_eq!(pounds.micros(), 220_462_000);
    let back_to_kg = mass::pounds_to_kg(pounds);
    assert_eq!(back_to_kg.micros(), 99_999_800);
    assert_eq!((kg.micros() - back_to_kg.micros()).abs(), 200);
}

#[test]
fn test_meters_to_feet_exact_product() {
    // 100 m * 3.28084 = 328.084 ft, with no rounding involved.
    let feet = length::meters_to_feet(Fixed::from_micros(100 * UNIT));
    assert_eq!(feet.micros(), 328_084_000);
}

#[test]
fn test_bar_to_pascal_exact_scaling() {
    // 2.5 bar * 100000 = 250000 Pa, a pure power-of-ten scaling.
    let pascal = pressure::bar_to_pascal(Fixed::from_micros(2_500_000));
    assert_eq!(pascal.micros(), 250_000 * UNIT);
}

#[test]
fn test_length_exact_values() {
    assert_eq!(
        length::feet_to_meters(Fixed::from_micros(UNIT)).micros(),
        304_800
    );
    assert_eq!(
        length::km_to_miles(Fixed::from_micros(UNIT)).micros(),
        621_371
    );
    assert_eq!(
        length::miles_to_km(Fixed::from_micros(UNIT)).micros(),
        1_609_340
    );
    // Marathon distance: 42.195 km = 26.2187... mi; 42195000 * 621371 /
    // 1000000 = 26218749.345, rounded to the nearest millionth.
    assert_eq!(
        length::km_to_miles(Fixed::from_micros(42_195_000)).micros(),
        26_218_749
    );
}

#[test]
fn test_temperature_exact_values() {
    assert_eq!(
        temperature::fahrenheit_to_celsius(Fixed::from_micros(32 * UNIT)).micros(),
        0
    );
    assert_eq!(
        temperature::fahrenheit_to_celsius(Fixed::from_micros(212 * UNIT)).micros(),
        100 * UNIT
    );
    assert_eq!(
        temperature::kelvin_to_celsius(Fixed::from_micros(300 * UNIT)).micros(),
        26_850_000
    );
    assert_eq!(
        temperature::celsius_to_fahrenheit(Fixed::from_micros(25 * UNIT)).micros(),
        77 * UNIT
    );
    // -40 C = -40 F.
    assert_eq!(
        temperature::celsius_to_fahrenheit(Fixed::from_micros(-40 * UNIT)).micros(),
        -40 * UNIT
    );
}

#[test]
fn test_pressure_exact_values() {
    assert_eq!(
        pressure::bar_to_psi(Fixed::from_micros(UNIT)).micros(),
        14_503_800
    );
    // 10 PSI = 0.689476 bar exactly.
    assert_eq!(
        pressure::psi_to_bar(Fixed::from_micros(10 * UNIT)).micros(),
        689_476
    );
    // 1 PSI = 0.0689476 bar, which rounds to 0.068948 at millionth
    // resolution (the fraction 0.6 rounds up).
    assert_eq!(pressure::psi_to_bar(Fixed::from_micros(UNIT)).micros(), 68_948);
    assert_eq!(
        pressure::pascal_to_bar(Fixed::from_micros(100_000 * UNIT)).micros(),
        UNIT
    );
    // 1 Pa = 0.00001 bar = 10 millionths.
    assert_eq!(pressure::pascal_to_bar(Fixed::from_micros(UNIT)).micros(), 10);
}

#[test]
fn test_mass_exact_values() {
    assert_eq!(
        mass::kg_to_pounds(Fixed::from_micros(UNIT)).micros(),
        2_204_620
    );
    assert_eq!(
        mass::pounds_to_kg(Fixed::from_micros(UNIT)).micros(),
        453_592
    );
    assert_eq!(
        mass::tonnes_to_tons(Fixed::from_micros(UNIT)).micros(),
        1_102_310
    );
    assert_eq!(
        mass::tons_to_tonnes(Fixed::from_micros(UNIT)).micros(),
        907_185
    );
    // 500 tonnes/day = 551.155 short tons/day.
    assert_eq!(
        mass::tonnes_to_tons(Fixed::from_micros(500 * UNIT)).micros(),
        551_155_000
    );
}

#[test]
fn test_fahrenheit_round_trip_within_one_micro() {
    // 33 F -> 0.555556 C (5/9 rounded) -> 33.000001 F: off by exactly one
    // millionth, the worst the Fahrenheit round trip can do.
    let f = Fixed::from_micros(33 * UNIT);
    let c = temperature::fahrenheit_to_celsius(f);
    assert_eq!(c.micros(), 555_556);
    let back = temperature::celsius_to_fahrenheit(c);
    assert_eq!(back.micros(), 33_000_001);
    assert!((back.micros() - f.micros()).abs() <= 1);
}

#[test]
fn test_celsius_round_trip_exact() {
    // Celsius -> Fahrenheit -> Celsius is exact, even where the Fahrenheit
    // value is rounded: 0.000001 C -> 0.000002 F (9/5 rounded) -> 0.000001 C.
    for micros in [0i64, 1, -1, 25_000_000, 55_000_000, -17_777_778] {
        let c = Fixed::from_micros(micros);
        let f = temperature::celsius_to_fahrenheit(c);
        let back = temperature::fahrenheit_to_celsius(f);
        assert_eq!(back.micros(), c.micros());
    }
}

#[test]
fn test_kelvin_round_trip_exact() {
    for micros in [0i64, 25 * UNIT, -273_150_000, 373_150_000] {
        let c = Fixed::from_micros(micros);
        let k = temperature::celsius_to_kelvin(c);
        let back = temperature::kelvin_to_celsius(k);
        assert_eq!(back.micros(), c.micros());
    }
}

#[test]
fn test_pascal_round_trip_exact() {
    // bar -> Pascal -> bar is exact for every value.
    for micros in [0i64, 1, -1, 2_500_000, 987_654_321] {
        let bar = Fixed::from_micros(micros);
        let pascal = pressure::bar_to_pascal(bar);
        let back = pressure::pascal_to_bar(pascal);
        assert_eq!(back.micros(), bar.micros());
    }
}

#[test]
fn test_round_trips_at_tolerance_bounds() {
    // Each approximate pair stays within 1e-4 up to the range its law
    // covers: 3104 m, 35 km, 45 bar, 49 kg, 109 tonnes.
    let m = Fixed::from_micros(3_104 * UNIT);
    let back = length::feet_to_meters(length::meters_to_feet(m));
    assert!((m.micros() - back.micros()).abs() <= TOLERANCE);

    let k = Fixed::from_micros(35 * UNIT);
    let back = length::miles_to_km(length::km_to_miles(k));
    assert!((k.micros() - back.micros()).abs() <= TOLERANCE);

    let b = Fixed::from_micros(45 * UNIT);
    let back = pressure::psi_to_bar(pressure::bar_to_psi(b));
    assert!((b.micros() - back.micros()).abs() <= TOLERANCE);

    let kg = Fixed::from_micros(49 * UNIT);
    let back = mass::pounds_to_kg(mass::kg_to_pounds(kg));
    assert!((kg.micros() - back.micros()).abs() <= TOLERANCE);

    let t = Fixed::from_micros(109 * UNIT);
    let back = mass::tons_to_tonnes(mass::tonnes_to_tons(t));
    assert!((t.micros() - back.micros()).abs() <= TOLERANCE);
}

#[test]
fn test_negative_values_mirror_positive() {
    // Rounding is symmetric (ties away from zero), so conversions of -x are
    // the negation of conversions of x.
    assert_eq!(
        length::meters_to_feet(Fixed::from_micros(-UNIT)).micros(),
        -3_280_840
    );
    assert_eq!(
        pressure::psi_to_bar(Fixed::from_micros(-UNIT)).micros(),
        -68_948
    );
    // A fraction of exactly one half: 0.05 Pa = 0.5 millionths of a bar,
    // rounded away from zero on both sides.
    assert_eq!(pressure::pascal_to_bar(Fixed::from_micros(50_000)).micros(), 1);
    assert_eq!(
        pressure::pascal_to_bar(Fixed::from_micros(-50_000)).micros(),
        -1
    );
}

#[test]
fn test_fixed_accessors() {
    let x = Fixed::from_micros(42_195_000);
    assert_eq!(x.micros(), 42_195_000);
    assert_eq!(x, Fixed::from_micros(42_195_000));
    assert_ne!(x, Fixed::from_micros(42_195_001));
}
