//! Command interpretation for the interactive test harness.
//!
//! The harness reads one line at a time and keeps a counter of created
//! mixers; everything it decides — what a line means and what each command
//! does to the counter — is here. Reading the lines and printing the
//! responses stays with the harness binary.

use vstd::prelude::*;

verus! {

/// A command of the interactive harness.
#[derive(Clone, Copy, Debug, PartialEq, Eq, Structural)]
pub enum CliCommand {
    /// `q`: leave the loop.
    Quit,
    /// `n`: create a new mixer.
    NewMixer,
    /// Anything else: echoed back as unknown.
    Unknown,
}

/// What a trimmed input line means: `q` quits, `n` creates a mixer, and
/// anything else is unknown.
pub open spec fn spec_interpret(line: Seq<u8>) -> CliCommand {
    if line == seq![113u8] {
        CliCommand::Quit
    } else if line == seq![110u8] {
        CliCommand::NewMixer
    } else {
        CliCommand::Unknown
    }
}

/// Interpret one trimmed input line, given as bytes.
pub fn interpret_command(line: &[u8]) -> (r: CliCommand)
    ensures
        r == spec_interpret(line@),
{
    if line.len() == 1 {
        let c: u8 = line[0];
        proof {
            assert(line@ =~= seq![line@[0]]);
        }
        if c == 113 {
            CliCommand::Quit
        } else if c == 110 {
            CliCommand::NewMixer
        } else {
            CliCommand::Unknown
        }
    } else {
        proof {
            assert(line@.len() != 1);
            assert(line@ != seq![113u8] && line@ != seq![110u8]) by {
                assert(seq![113u8].len() == 1 && seq![110u8].len() == 1);
            }
        }
        CliCommand::Unknown
    }
}

/// What the harness does in response to one command.
#[derive(Clone, Copy, Debug, PartialEq, Eq, Structural)]
pub enum CliAction {
    /// Print the farewell and leave the loop.
    Exit,
    /// A new mixer was created, with this number as its identifier.
    CreatedMixer(u64),
    /// Echo the unrecognised input back.
    ReportUnknown,
}

/// The state of the interactive harness: how many mixers have been
/// numbered so far (the harness starts with one).
pub struct CliHarness {
    /// The number given to the most recently created mixer.
    pub count: u64,
}

impl CliHarness {
    /// A fresh harness: the initial mixer carries the number 1.
    pub fn new() -> (r: CliHarness)
        ensures
            r.count == 1,
    {
        CliHarness { count: 1 }
    }

    /// Step the harness by one command: `n` numbers a new mixer with the
    /// next counter value; `q` exits; anything else is reported unknown.
    /// The counter moves only on `n`.
    pub fn step(&mut self, command: CliCommand) -> (action: CliAction)
        requires
            old(self).count < u64::MAX,
        ensures
            match command {
                CliCommand::Quit => action == CliAction::Exit && final(self).count == old(
                    self,
                ).count,
                CliCommand::NewMixer => action == CliAction::CreatedMixer(
                    (old(self).count + 1) as u64,
                ) && final(self).count == old(self).count + 1,
                CliCommand::Unknown => action == CliAction::ReportUnknown && final(self).count
                    == old(self).count,
            },
    {
        match command {
            CliCommand::Quit => CliAction::Exit,
            CliCommand::NewMixer => {
                self.count = self.count + 1;
                CliAction::CreatedMixer(self.count)
            },
            CliCommand::Unknown => CliAction::ReportUnknown,
        }
    }
}

} // verus!
