//! Tests of the interactive harness's command handling.

use oscps::cli::interpret_command;
use oscps::cli::CliAction;
use oscps::cli::CliCommand;
use oscps::cli::CliHarness;

#[test]
fn test_interpret_command() {
    assert_eq!(interpret_command(b"q"), CliCommand::Quit);
    assert_eq!(interpret_command(b"n"), CliCommand::NewMixer);
    assert_eq!(interpret_command(b"x"), CliCommand::Unknown);
    assert_eq!(interpret_command(b""), CliCommand::Unknown);
    assert_eq!(interpret_command(b"nn"), CliCommand::Unknown);
    assert_eq!(interpret_command(b"quit"), CliCommand::Unknown);
}

#[test]
fn test_harness_counts_mixers() {
    let mut harness = CliHarness::new();
    assert_eq!(harness.count, 1);
    assert_eq!(
        harness.step(CliCommand::NewMixer),
        CliAction::CreatedMixer(2)
    );
    assert_eq!(
        harness.step(CliCommand::NewMixer),
        CliAction::CreatedMixer(3)
    );
    assert_eq!(harness.step(CliCommand::Unknown), CliAction::ReportUnknown);
    assert_eq!(harness.count, 3);
    assert_eq!(harness.step(CliCommand::Quit), CliAction::Exit);
    assert_eq!(harness.count, 3);
}
