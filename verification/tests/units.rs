//! Tests of the fixed-point quantity conversions.

use oscps::units::Energy;
use oscps::units::Mass;
use oscps::units::Temperature;
use oscps::units::MICROKELVINS_PER_ZERO_CELSIUS;

#[test]
fn test_mass_conversions() {
    assert_eq!(Mass::from_pounds(1).micrograms, 453_592_370);
    assert_eq!(Mass::from_kilograms(5).micrograms, 5_000_000_000);
    assert_eq!(Mass::from_micrograms(42).micrograms, 42);
    assert_eq!(Mass::from_pounds(-2).micrograms, -907_184_740);
}

#[test]
fn test_energy_conversions() {
    assert_eq!(Energy::from_joules(5).microjoules, 5_000_000);
    assert_eq!(Energy::from_kilojoules(10).microjoules, 10_000_000_000);
    assert_eq!(Energy::from_microjoules(-3).microjoules, -3);
}

#[test]
fn test_temperature_from_celsius() {
    assert_eq!(MICROKELVINS_PER_ZERO_CELSIUS, 273_150_000);
    assert_eq!(
        Temperature::from_micro_degrees_celsius(0).unwrap().microkelvins,
        273_150_000
    );
    assert_eq!(
        Temperature::from_micro_degrees_celsius(-273_150_000)
            .unwrap()
            .microkelvins,
        0
    );
    // A sum that leaves the representable range is rejected.
    assert_eq!(Temperature::from_micro_degrees_celsius(i64::MAX), None);
}
