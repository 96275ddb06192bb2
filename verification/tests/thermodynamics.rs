//! Tests of streams, thermodynamic state totals, and group-contribution
//! parameters.

use std::sync::Arc;

use oscps::component::Chemical;
use oscps::component::ChemicalProperties;
use oscps::component::PropertyRecord;
use oscps::stream::ComponentData;
use oscps::stream::Stream;
use oscps::stream::StreamThermoState;
use oscps::thermodynamics::EOSGroupContributionParameters;
use oscps::thermodynamics::EOSGroupContributionTypes;
use oscps::thermodynamics::EOSParams;
use oscps::units::AmountOfSubstance;
use oscps::units::Mass;
use oscps::units::Pressure;
use oscps::units::Volume;

fn water_component(micrograms: i64, micromoles: i64) -> ComponentData {
    let record = PropertyRecord {
        molecular_weight: Some(b"18.015".to_vec()),
        melting_point: Some(b"0".to_vec()),
        boiling_point: Some(b"100".to_vec()),
        density: Some(b"997".to_vec()),
    };
    let properties = ChemicalProperties::new(962, Some(&record)).unwrap();
    ComponentData {
        chemical_species: Chemical::from_parts(pubchem::Compound::new(962), properties),
        mass_quantity: Mass::from_micrograms(micrograms),
        molar_quantity: AmountOfSubstance::from_micromoles(micromoles),
        vol_quantity: Volume::from_micro_cubic_meters(micrograms / 997),
        partial_pressure: Pressure::from_micropascals(101_325_000_000),
    }
}

#[test]
fn test_stream_links_blocks() {
    let stream = Stream::new(1, 2);
    assert_eq!(stream.from, 1);
    assert_eq!(stream.to, 2);
    assert_eq!(stream, Stream { from: 1, to: 2 });
}

#[test]
fn test_thermo_state_totals() {
    let state = StreamThermoState {
        pressure: None,
        temperature: None,
        mass_list: vec![
            water_component(3_000_000, 166),
            water_component(7_000_000, 388),
        ],
        total_mass: None,
        total_mol: None,
        total_volume: None,
    };
    assert_eq!(state.computed_total_mass().unwrap().micrograms, 10_000_000);
    assert_eq!(state.computed_total_mol().unwrap().micromoles, 554);
    assert_eq!(
        state.computed_total_volume().unwrap().micro_cubic_meters,
        3_009 + 7_021
    );
}

#[test]
fn test_thermo_state_total_overflow_is_detected() {
    let state = StreamThermoState {
        pressure: None,
        temperature: None,
        mass_list: vec![
            water_component(i64::MAX, 1),
            water_component(1, 1),
        ],
        total_mass: None,
        total_mol: None,
        total_volume: None,
    };
    assert_eq!(state.computed_total_mass(), None);
    assert_eq!(state.computed_total_mol().unwrap().micromoles, 2);
}

#[test]
fn test_group_contribution_parameters_structure() {
    let raw_groups = vec![
        (String::from("CH3"), 2i64),
        (String::from("CH2"), 4i64),
    ];
    let components = Arc::new(vec![water_component(1, 1), water_component(2, 2)]);
    let sources = Arc::new(vec![String::from("groups_table")]);
    let parameters = EOSGroupContributionParameters::new(
        Arc::new(EOSGroupContributionTypes::Unspecified),
        components,
        &raw_groups,
        sources,
    );
    assert_eq!(parameters.groups.as_slice(), &["CH3", "CH2"]);
    assert_eq!(parameters.n_groups.as_slice(), &[2, 4]);
    // One intergroup matrix per component, each still empty.
    assert_eq!(parameters.n_intergroups.len(), 2);
    assert_eq!(parameters.intergroup_shape(0), (0, 0));
    assert_eq!(parameters.intergroup_shape(1), (0, 0));
    assert!(parameters.i_groups.is_empty());
    assert!(parameters.flattened_groups.is_empty());
    assert!(parameters.n_flattened_groups.is_empty());
    assert_eq!(parameters.sourcecsvs.as_slice(), &["groups_table"]);
}

#[test]
fn test_eos_params_shapes() {
    let single: EOSParams<i64> = EOSParams::SingleParameter(4);
    match single {
        EOSParams::SingleParameter(v) => assert_eq!(v, 4),
        _ => panic!("expected a single parameter"),
    }
    let pair: EOSParams<i64> = EOSParams::DoubleParameter(9);
    assert!(matches!(pair, EOSParams::DoubleParameter(9)));
    let associating: EOSParams<i64> = EOSParams::AssociatingParameter(1);
    assert!(matches!(associating, EOSParams::AssociatingParameter(1)));
}
