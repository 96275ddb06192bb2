//! Tests of chemical resolution decisions and property parsing.

use oscps::component::parse_decimal_micro;
use oscps::component::select_first_cid;
use oscps::component::should_retry;
use oscps::component::Chemical;
use oscps::component::ChemicalError;
use oscps::component::ChemicalIdentifier;
use oscps::component::ChemicalProperties;
use oscps::component::PropertyRecord;

#[test]
fn test_parse_decimal_micro_values() {
    assert_eq!(parse_decimal_micro(b"18.015"), Some(18_015_000));
    assert_eq!(parse_decimal_micro(b"0"), Some(0));
    assert_eq!(parse_decimal_micro(b"997"), Some(997_000_000));
    assert_eq!(parse_decimal_micro(b"-114.1"), Some(-114_100_000));
    assert_eq!(parse_decimal_micro(b"0.000001"), Some(1));
    assert_eq!(parse_decimal_micro(b"123456789012"), Some(123_456_789_012_000_000));
}

#[test]
fn test_parse_decimal_micro_rejects_malformed_values() {
    assert_eq!(parse_decimal_micro(b""), None);
    assert_eq!(parse_decimal_micro(b"-"), None);
    assert_eq!(parse_decimal_micro(b"1e3"), None);
    assert_eq!(parse_decimal_micro(b"12."), None);
    assert_eq!(parse_decimal_micro(b".5"), None);
    assert_eq!(parse_decimal_micro(b"3.1415926"), None);
    assert_eq!(parse_decimal_micro(b"1234567890123"), None);
    assert_eq!(parse_decimal_micro(b"12,5"), None);
    assert_eq!(parse_decimal_micro(b"1.2.3"), None);
}

#[test]
fn test_should_retry_budget() {
    assert!(should_retry(0));
    assert!(should_retry(10));
    assert!(!should_retry(11));
}

#[test]
fn test_select_first_cid() {
    assert_eq!(select_first_cid(&Some(vec![962, 42])), Ok(962));
    assert_eq!(
        select_first_cid(&Some(Vec::new())),
        Err(ChemicalError::LookupExhausted)
    );
    assert_eq!(select_first_cid(&None), Err(ChemicalError::LookupExhausted));
}

#[test]
fn test_properties_from_record() {
    let record = PropertyRecord {
        molecular_weight: Some(b"18.015".to_vec()),
        melting_point: Some(b"0".to_vec()),
        boiling_point: Some(b"100".to_vec()),
        density: Some(b"997".to_vec()),
    };
    let properties = ChemicalProperties::new(962, Some(&record)).unwrap();
    // 18.015 g/mol is 0.018015 kg/mol.
    assert_eq!(
        properties.molar_mass.unwrap().nano_kilograms_per_mole,
        18_015_000
    );
    // 0 degrees Celsius is 273.15 K, 100 degrees Celsius is 373.15 K.
    assert_eq!(properties.melting_point.unwrap().microkelvins, 273_150_000);
    assert_eq!(properties.boiling_point.unwrap().microkelvins, 373_150_000);
    // Density is taken as delivered, in kilograms per cubic metre.
    assert_eq!(
        properties.density.unwrap().micro_kilograms_per_cubic_meter,
        997_000_000
    );
}

#[test]
fn test_properties_missing_fields_are_not_available() {
    let record = PropertyRecord {
        molecular_weight: None,
        melting_point: Some(b"n/a".to_vec()),
        boiling_point: None,
        density: None,
    };
    let properties = ChemicalProperties::new(7732, Some(&record)).unwrap();
    assert_eq!(properties.molar_mass, None);
    // An unparsable value is recorded as not available, never as zero.
    assert_eq!(properties.melting_point, None);
    assert_eq!(properties.boiling_point, None);
    assert_eq!(properties.density, None);
}

#[test]
fn test_properties_absent_record_is_an_error() {
    assert_eq!(
        ChemicalProperties::new(962, None),
        Err(ChemicalError::PropertiesNotFound { cid: 962 })
    );
}

#[test]
fn test_chemical_from_parts() {
    let identifier = ChemicalIdentifier::PubchemID(962);
    let compound = oscps::component::compound_for(&identifier);
    let record = PropertyRecord {
        molecular_weight: Some(b"18.015".to_vec()),
        melting_point: None,
        boiling_point: None,
        density: None,
    };
    let properties = ChemicalProperties::new(962, Some(&record)).unwrap();
    let chemical = Chemical::from_parts(compound, properties);
    assert_eq!(
        chemical.get_properties().molar_mass.unwrap().nano_kilograms_per_mole,
        18_015_000
    );
    // The compound handle queries by id; no request is made here.
    let _handle: &pubchem::Compound = chemical.get_pubchem_obj();
}
