//! Tests of the unit-operation blocks: connection rules and balances.

use oscps::blocks::Block;
use oscps::blocks::EnergyBalance;
use oscps::blocks::MassBalance;
use oscps::blocks::Mixer;
use oscps::blocks::Sink;
use oscps::blocks::Source;
use oscps::units::Energy;
use oscps::units::Mass;

#[test]
fn test_mass_balance_check_steady_state_for_mixer() {
    let mixer_test_obj = Mixer::new();
    let mass_in = Mass::from_pounds(100);
    let mass_out = Mass::from_pounds(95);
    // A 5 lb difference is about 2.27 kg, within the 5 kg tolerance.
    assert!(mixer_test_obj.mass_balance_check(mass_in, mass_out));
}

#[test]
fn test_mass_balance_check_over_tolerance() {
    let mixer = Mixer::new();
    let mass_in = Mass::from_kilograms(100);
    let mass_out = Mass::from_kilograms(80);
    // A 20 kg difference exceeds the 5 kg tolerance.
    assert!(!mixer.mass_balance_check(mass_in, mass_out));
}

#[test]
fn test_energy_balance_check_steady_state_for_mixer() {
    let mixer_test_obj = Mixer::new();
    let energy_in = Energy::from_kilojoules(10);
    let energy_out = Energy::from_kilojoules(95);
    // The signed difference is -85 kJ, which passes the 5 J tolerance
    // because the comparison is not taken on the absolute value.
    assert!(mixer_test_obj.energy_balance_check(energy_in, energy_out));
}

#[test]
fn test_energy_balance_check_over_tolerance() {
    let mixer = Mixer::new();
    let energy_in = Energy::from_joules(100);
    let energy_out = Energy::from_joules(0);
    assert!(!mixer.energy_balance_check(energy_in, energy_out));
}

#[test]
fn test_mixer_connect_output_then_second_fails() {
    let mut mixer = Mixer::new();
    assert_eq!(mixer.connect_output(7), Ok(()));
    assert_eq!(mixer.output, Some(7));
    let before = mixer.output;
    let second = mixer.connect_output(8);
    assert_eq!(
        second,
        Err("Attempted to connect output on Mixer with existing output.")
    );
    // The failed connect left the block unchanged.
    assert_eq!(mixer.output, before);
}

#[test]
fn test_mixer_disconnect_output_without_output_fails() {
    let mut mixer = Mixer::new();
    assert_eq!(
        mixer.disconnect_output(7),
        Err("Attempted disconnect on Mixer with no output.")
    );
    assert_eq!(mixer.output, None);
}

#[test]
fn test_mixer_disconnect_output_present() {
    let mut mixer = Mixer::new();
    mixer.connect_output(7).unwrap();
    assert_eq!(mixer.disconnect_output(7), Ok(()));
    assert_eq!(mixer.output, None);
}

#[test]
fn test_mixer_inputs_connect_and_disconnect() {
    let mut mixer = Mixer::new();
    assert_eq!(
        mixer.disconnect_input(5),
        Err("Input disconnect requested for block with no inputs.")
    );
    mixer.connect_input(5).unwrap();
    mixer.connect_input(7).unwrap();
    mixer.connect_input(5).unwrap();
    assert_eq!(mixer.inputs.as_ref().unwrap().as_slice(), &[5, 7, 5]);
    assert_eq!(
        mixer.disconnect_input(9),
        Err("Attempted disconnect of input not present on Mixer.")
    );
    assert_eq!(mixer.inputs.as_ref().unwrap().as_slice(), &[5, 7, 5]);
    // Disconnecting removes every occurrence of the stream.
    assert_eq!(mixer.disconnect_input(5), Ok(()));
    assert_eq!(mixer.inputs.as_ref().unwrap().as_slice(), &[7]);
}

#[test]
fn test_source_has_no_inputs() {
    let mut source = Source::new();
    assert_eq!(
        source.connect_input(3),
        Err("Attempted input connection for Source block. Source does not have inputs.")
    );
    assert_eq!(
        source.disconnect_input(3),
        Err("Attempted input disconnect for Source block. Source does not have inputs.")
    );
    assert_eq!(source.output, None);
}

#[test]
fn test_source_output_rules() {
    let mut source = Source::with_output(4);
    assert_eq!(
        source.connect_output(5),
        Err("Attempted to connect output on Mixer with existing output.")
    );
    assert_eq!(source.output, Some(4));
    assert_eq!(source.disconnect_output(4), Ok(()));
    assert_eq!(source.output, None);
    assert_eq!(source.connect_output(5), Ok(()));
    assert_eq!(source.output, Some(5));
}

#[test]
fn test_sink_has_no_outputs() {
    let mut sink = Sink::new();
    assert_eq!(
        sink.connect_output(3),
        Err("Attempted output connection for Sink block. Sink does not have outputs.")
    );
    assert_eq!(
        sink.disconnect_output(3),
        Err("Attempted output disconnect for Sink block. Sink does not have outputs.")
    );
    assert_eq!(sink.inputs, None);
}

#[test]
fn test_sink_input_rules() {
    let mut sink = Sink::new();
    assert_eq!(
        sink.disconnect_input(2),
        Err("Input disconnect requested for Sink with no inputs.")
    );
    sink.connect_input(2).unwrap();
    sink.connect_input(6).unwrap();
    assert_eq!(sink.inputs.as_ref().unwrap().as_slice(), &[2, 6]);
    assert_eq!(
        sink.disconnect_input(9),
        Err("Attempted disconnect of input not present on Mixer.")
    );
    assert_eq!(sink.disconnect_input(2), Ok(()));
    assert_eq!(sink.inputs.as_ref().unwrap().as_slice(), &[6]);
}

#[test]
fn test_block_dispatch_follows_the_kind() {
    let mut block = Block::Mixer(Mixer::new());
    assert_eq!(block.connect_output(7), Ok(()));
    assert_eq!(
        block.connect_output(8),
        Err("Attempted to connect output on Mixer with existing output.")
    );
    assert_eq!(block.connect_input(3), Ok(()));
    assert_eq!(block.disconnect_input(3), Ok(()));
    let mut block = Block::Source(Source::new());
    assert_eq!(
        block.connect_input(3),
        Err("Attempted input connection for Source block. Source does not have inputs.")
    );
    assert_eq!(block.connect_output(9), Ok(()));
    let mut block = Block::Sink(Sink::new());
    assert_eq!(
        block.disconnect_output(1),
        Err("Attempted output disconnect for Sink block. Sink does not have outputs.")
    );
    assert_eq!(block.connect_input(9), Ok(()));
}
