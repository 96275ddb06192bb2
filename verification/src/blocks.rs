//! Unit-operation blocks.
//!
//! Each block kind can have streams connected to its inputs and outputs,
//! subject to the kind's own rules: a `Mixer` takes any number of inputs and
//! at most one output, a `Source` has no inputs and at most one output, and a
//! `Sink` takes any number of inputs and no outputs. A failed connection or
//! disconnection reports a textual reason and leaves the block unchanged.

use vstd::prelude::*;

use crate::units::Energy;
use crate::units::Mass;

verus! {

/// Identifier of a stream within a simulation's stream registry.
pub type StreamId = u64;

/// Reported when an input disconnect is requested on a mixer that has no
/// input list at all.
pub const ERR_MIXER_NO_INPUTS: &'static str = "Input disconnect requested for block with no inputs.";

/// Reported when the input stream to disconnect is not connected to the
/// mixer.
pub const ERR_MIXER_INPUT_NOT_PRESENT: &'static str = "Attempted disconnect of input not present on Mixer.";

/// Reported when a second output is connected to a block that supports only
/// one.
pub const ERR_OUTPUT_EXISTS: &'static str = "Attempted to connect output on Mixer with existing output.";

/// Reported when an output disconnect is requested but no output is
/// connected.
pub const ERR_NO_OUTPUT: &'static str = "Attempted disconnect on Mixer with no output.";

/// Reported when an input connection is requested on a source.
pub const ERR_SOURCE_INPUT_CONNECT: &'static str = "Attempted input connection for Source block. Source does not have inputs.";

/// Reported when an input disconnect is requested on a source.
pub const ERR_SOURCE_INPUT_DISCONNECT: &'static str = "Attempted input disconnect for Source block. Source does not have inputs.";

/// Reported when an input disconnect is requested on a sink that has no
/// input list at all.
pub const ERR_SINK_NO_INPUTS: &'static str = "Input disconnect requested for Sink with no inputs.";

/// Reported when an output connection is requested on a sink.
pub const ERR_SINK_OUTPUT_CONNECT: &'static str = "Attempted output connection for Sink block. Sink does not have outputs.";

/// Reported when an output disconnect is requested on a sink.
pub const ERR_SINK_OUTPUT_DISCONNECT: &'static str = "Attempted output disconnect for Sink block. Sink does not have outputs.";

/// The stream sequence `s` with every occurrence of `x` removed, in order.
pub open spec fn seq_remove_all(s: Seq<StreamId>, x: StreamId) -> Seq<StreamId>
    decreases s.len(),
{
    if s.len() == 0 {
        Seq::empty()
    } else if s.last() == x {
        seq_remove_all(s.drop_last(), x)
    } else {
        seq_remove_all(s.drop_last(), x).push(s.last())
    }
}

/// A block for simple stream mixing: any number of inlet streams, at most
/// one outlet stream.
#[derive(Clone, Debug)]
pub struct Mixer {
    /// Set of inlet streams for the mixer; `None` until the first connect.
    pub inputs: Option<Vec<StreamId>>,
    /// Outlet stream for the mixer block.
    pub output: Option<StreamId>,
}

impl Mixer {
    /// Create a new mixer block with nothing connected.
    pub fn new() -> (r: Mixer)
        ensures
            r.inputs is None,
            r.output is None,
    {
        Mixer { inputs: None, output: None }
    }

    /// Connect an inlet stream; a mixer accepts any number of inputs.
    pub fn connect_input(&mut self, stream: StreamId) -> (r: Result<(), &'static str>)
        ensures
            r is Ok,
            final(self).output == old(self).output,
            final(self).inputs matches Some(v) && v@ == match old(self).inputs {
                None => seq![stream],
                Some(prev) => prev@.push(stream),
            },
    {
        let prev = self.inputs.take();
        match prev {
            None => {
                let mut input_vec: Vec<StreamId> = Vec::new();
                input_vec.push(stream);
                self.inputs = Some(input_vec);
            },
            Some(mut input_vec) => {
                input_vec.push(stream);
                self.inputs = Some(input_vec);
            },
        }
        Ok(())
    }

    /// Disconnect an inlet stream; fails if the mixer has no inputs or the
    /// stream is not among them.
    pub fn disconnect_input(&mut self, stream: StreamId) -> (r: Result<(), &'static str>)
        ensures
            final(self).output == old(self).output,
            match old(self).inputs {
                None => r == Err::<(), &'static str>(ERR_MIXER_NO_INPUTS) && *final(self) == *old(
                    self,
                ),
                Some(prev) => {
                    if prev@.contains(stream) {
                        r is Ok && (final(self).inputs matches Some(v) && v@ == seq_remove_all(
                            prev@,
                            stream,
                        ))
                    } else {
                        r == Err::<(), &'static str>(ERR_MIXER_INPUT_NOT_PRESENT) && *final(self)
                            == *old(self)
                    }
                },
            },
    {
        let prev = self.inputs.take();
        match prev {
            None => {
                self.inputs = None;
                Err(ERR_MIXER_NO_INPUTS)
            },
            Some(input_vec) => {
                let filtered = remove_all_streams(&input_vec, stream);
                if filtered.len() == input_vec.len() {
                    proof {
                        lemma_remove_all_same_len(input_vec@, stream);
                    }
                    self.inputs = Some(input_vec);
                    Err(ERR_MIXER_INPUT_NOT_PRESENT)
                } else {
                    proof {
                        lemma_remove_all_same_len(input_vec@, stream);
                    }
                    self.inputs = Some(filtered);
                    Ok(())
                }
            },
        }
    }

    /// Connect the outlet stream; fails if an output is already connected.
    pub fn connect_output(&mut self, stream: StreamId) -> (r: Result<(), &'static str>)
        ensures
            final(self).inputs == old(self).inputs,
            match old(self).output {
                None => r is Ok && final(self).output == Some(stream),
                Some(_) => r == Err::<(), &'static str>(ERR_OUTPUT_EXISTS) && *final(self) == *old(
                    self,
                ),
            },
    {
        match self.output {
            None => {
                self.output = Some(stream);
                Ok(())
            },
            Some(_) => Err(ERR_OUTPUT_EXISTS),
        }
    }

    /// Disconnect the outlet stream; fails if no output is connected.
    pub fn disconnect_output(&mut self, _stream: StreamId) -> (r: Result<(), &'static str>)
        ensures
            final(self).inputs == old(self).inputs,
            match old(self).output {
                None => r == Err::<(), &'static str>(ERR_NO_OUTPUT) && *final(self) == *old(self),
                Some(_) => r is Ok && final(self).output is None,
            },
    {
        match self.output {
            None => Err(ERR_NO_OUTPUT),
            Some(_) => {
                self.output = None;
                Ok(())
            },
        }
    }
}

/// Remove every occurrence of `stream` from `v`, keeping the order of the
/// remaining entries.
fn remove_all_streams(v: &Vec<StreamId>, stream: StreamId) -> (r: Vec<StreamId>)
    ensures
        r@ == seq_remove_all(v@, stream),
{
    let mut result: Vec<StreamId> = Vec::new();
    let mut i: usize = 0;
    while i < v.len()
        invariant
            i <= v.len(),
            result@ == seq_remove_all(v@.take(i as int), stream),
        decreases v.len() - i,
    {
        proof {
            assert(v@.take(i + 1 as int).drop_last() == v@.take(i as int));
            assert(v@.take(i + 1 as int).last() == v@[i as int]);
        }
        if v[i] != stream {
            result.push(v[i]);
        }
        i += 1;
    }
    proof {
        assert(v@.take(v@.len() as int) == v@);
    }
    result
}

/// Removing occurrences of a value never lengthens a sequence.
proof fn lemma_remove_all_len_le(s: Seq<StreamId>, x: StreamId)
    ensures
        seq_remove_all(s, x).len() <= s.len(),
    decreases s.len(),
{
    if s.len() > 0 {
        lemma_remove_all_len_le(s.drop_last(), x);
    }
}

/// Removing a value from a sequence keeps the length exactly when the value
/// does not occur, and shortens it otherwise.
proof fn lemma_remove_all_same_len(s: Seq<StreamId>, x: StreamId)
    ensures
        seq_remove_all(s, x).len() == s.len() <==> !s.contains(x),
        !s.contains(x) ==> seq_remove_all(s, x) == s,
    decreases s.len(),
{
    if s.len() > 0 {
        lemma_remove_all_same_len(s.drop_last(), x);
        assert(s.contains(x) <==> s.last() == x || s.drop_last().contains(x)) by {
            if s.contains(x) {
                let i = choose|i: int| 0 <= i < s.len() && s[i] == x;
                if i < s.len() - 1 {
                    assert(s.drop_last()[i] == x);
                }
            }
            if s.drop_last().contains(x) {
                let i = choose|i: int| 0 <= i < s.drop_last().len() && s.drop_last()[i] == x;
                assert(s[i] == x);
            }
        }
        lemma_remove_all_len_le(s.drop_last(), x);
        if !s.contains(x) {
            assert(seq_remove_all(s, x) =~= s);
        }
    } else {
        assert(seq_remove_all(s, x) =~= s);
    }
}

/// A block that introduces material into the simulation: no inputs, at most
/// one output.
#[derive(Clone, Debug)]
pub struct Source {
    /// Outlet stream for the source block.
    pub output: Option<StreamId>,
}

impl Source {
    /// Create a new source block with no output connected.
    pub fn new() -> (r: Source)
        ensures
            r.output is None,
    {
        Source { output: None }
    }

    /// Create a new source block with the given output already connected.
    pub fn with_output(output: StreamId) -> (r: Source)
        ensures
            r.output == Some(output),
    {
        Source { output: Some(output) }
    }

    /// A source has no inputs, so connecting one always fails.
    pub fn connect_input(&mut self, _stream: StreamId) -> (r: Result<(), &'static str>)
        ensures
            r == Err::<(), &'static str>(ERR_SOURCE_INPUT_CONNECT),
            *final(self) == *old(self),
    {
        Err(ERR_SOURCE_INPUT_CONNECT)
    }

    /// A source has no inputs, so disconnecting one always fails.
    pub fn disconnect_input(&mut self, _stream: StreamId) -> (r: Result<(), &'static str>)
        ensures
            r == Err::<(), &'static str>(ERR_SOURCE_INPUT_DISCONNECT),
            *final(self) == *old(self),
    {
        Err(ERR_SOURCE_INPUT_DISCONNECT)
    }

    /// Connect the outlet stream; fails if an output is already connected.
    pub fn connect_output(&mut self, stream: StreamId) -> (r: Result<(), &'static str>)
        ensures
            match old(self).output {
                None => r is Ok && final(self).output == Some(stream),
                Some(_) => r == Err::<(), &'static str>(ERR_OUTPUT_EXISTS) && *final(self) == *old(
                    self,
                ),
            },
    {
        match self.output {
            None => {
                self.output = Some(stream);
                Ok(())
            },
            Some(_) => Err(ERR_OUTPUT_EXISTS),
        }
    }

    /// Disconnect the outlet stream; fails if no output is connected.
    pub fn disconnect_output(&mut self, _stream: StreamId) -> (r: Result<(), &'static str>)
        ensures
            match old(self).output {
                None => r == Err::<(), &'static str>(ERR_NO_OUTPUT) && *final(self) == *old(self),
                Some(_) => r is Ok && final(self).output is None,
            },
    {
        match self.output {
            None => Err(ERR_NO_OUTPUT),
            Some(_) => {
                self.output = None;
                Ok(())
            },
        }
    }
}

/// A block that removes material from the simulation: any number of inputs,
/// no outputs.
#[derive(Clone, Debug)]
pub struct Sink {
    /// Inlet streams for the sink block; `None` until the first connect.
    pub inputs: Option<Vec<StreamId>>,
}

impl Sink {
    /// Create a new sink block with nothing connected.
    pub fn new() -> (r: Sink)
        ensures
            r.inputs is None,
    {
        Sink { inputs: None }
    }

    /// Connect an inlet stream; a sink accepts any number of inputs.
    pub fn connect_input(&mut self, stream: StreamId) -> (r: Result<(), &'static str>)
        ensures
            r is Ok,
            final(self).inputs matches Some(v) && v@ == match old(self).inputs {
                None => seq![stream],
                Some(prev) => prev@.push(stream),
            },
    {
        let prev = self.inputs.take();
        match prev {
            None => {
                let mut input_vec: Vec<StreamId> = Vec::new();
                input_vec.push(stream);
                self.inputs = Some(input_vec);
            },
            Some(mut input_vec) => {
                input_vec.push(stream);
                self.inputs = Some(input_vec);
            },
        }
        Ok(())
    }

    /// Disconnect an inlet stream; fails if the sink has no inputs or the
    /// stream is not among them.
    pub fn disconnect_input(&mut self, stream: StreamId) -> (r: Result<(), &'static str>)
        ensures
            match old(self).inputs {
                None => r == Err::<(), &'static str>(ERR_SINK_NO_INPUTS) && *final(self) == *old(
                    self,
                ),
                Some(prev) => {
                    if prev@.contains(stream) {
                        r is Ok && (final(self).inputs matches Some(v) && v@ == seq_remove_all(
                            prev@,
                            stream,
                        ))
                    } else {
                        r == Err::<(), &'static str>(ERR_MIXER_INPUT_NOT_PRESENT) && *final(self)
                            == *old(self)
                    }
                },
            },
    {
        let prev = self.inputs.take();
        match prev {
            None => {
                self.inputs = None;
                Err(ERR_SINK_NO_INPUTS)
            },
            Some(input_vec) => {
                let filtered = remove_all_streams(&input_vec, stream);
                if filtered.len() == input_vec.len() {
                    proof {
                        lemma_remove_all_same_len(input_vec@, stream);
                    }
                    self.inputs = Some(input_vec);
                    Err(ERR_MIXER_INPUT_NOT_PRESENT)
                } else {
                    proof {
                        lemma_remove_all_same_len(input_vec@, stream);
                    }
                    self.inputs = Some(filtered);
                    Ok(())
                }
            },
        }
    }

    /// A sink has no outputs, so connecting one always fails.
    pub fn connect_output(&mut self, _stream: StreamId) -> (r: Result<(), &'static str>)
        ensures
            r == Err::<(), &'static str>(ERR_SINK_OUTPUT_CONNECT),
            *final(self) == *old(self),
    {
        Err(ERR_SINK_OUTPUT_CONNECT)
    }

    /// A sink has no outputs, so disconnecting one always fails.
    pub fn disconnect_output(&mut self, _stream: StreamId) -> (r: Result<(), &'static str>)
        ensures
            r == Err::<(), &'static str>(ERR_SINK_OUTPUT_DISCONNECT),
            *final(self) == *old(self),
    {
        Err(ERR_SINK_OUTPUT_DISCONNECT)
    }
}

/// A block that separates the components of one input stream into several
/// output streams; only its data layout is settled so far.
#[allow(dead_code)]
#[derive(Clone, Debug)]
struct Separator {
    id: u64,
    input: Option<StreamId>,
    outputs: Option<Vec<StreamId>>,
}

#[allow(dead_code)]
impl Separator {
    fn new(id: u64) -> (r: Separator)
        ensures
            r.id == id,
            r.input is None,
            r.outputs is None,
    {
        Separator { id, input: None, outputs: None }
    }
}


/// What connecting an inlet stream does to a block: mixers and sinks
/// accept any number of inputs, a source has none.
pub open spec fn block_connect_input_post(
    pre: Block,
    post: Block,
    stream: StreamId,
    r: Result<(), &'static str>,
) -> bool {
    match (pre, post) {
        (Block::Mixer(m), Block::Mixer(m2)) => r is Ok && m2.output == m.output && (
        m2.inputs matches Some(v) && v@ == match m.inputs {
            None => seq![stream],
            Some(prev) => prev@.push(stream),
        }),
        (Block::Source(_), Block::Source(_)) => r == Err::<(), &'static str>(
            ERR_SOURCE_INPUT_CONNECT,
        ) && post == pre,
        (Block::Sink(s), Block::Sink(s2)) => r is Ok && (s2.inputs matches Some(v) && v@ == match s
            .inputs {
            None => seq![stream],
            Some(prev) => prev@.push(stream),
        }),
        _ => false,
    }
}

/// What disconnecting an inlet stream does to a block: every occurrence of
/// the stream leaves, and a block without that input reports why.
pub open spec fn block_disconnect_input_post(
    pre: Block,
    post: Block,
    stream: StreamId,
    r: Result<(), &'static str>,
) -> bool {
    match (pre, post) {
        (Block::Mixer(m), Block::Mixer(m2)) => m2.output == m.output && match m.inputs {
            None => r == Err::<(), &'static str>(ERR_MIXER_NO_INPUTS) && post == pre,
            Some(prev) => {
                if prev@.contains(stream) {
                    r is Ok && (m2.inputs matches Some(v) && v@ == seq_remove_all(prev@, stream))
                } else {
                    r == Err::<(), &'static str>(ERR_MIXER_INPUT_NOT_PRESENT) && post == pre
                }
            },
        },
        (Block::Source(_), Block::Source(_)) => r == Err::<(), &'static str>(
            ERR_SOURCE_INPUT_DISCONNECT,
        ) && post == pre,
        (Block::Sink(s), Block::Sink(s2)) => match s.inputs {
            None => r == Err::<(), &'static str>(ERR_SINK_NO_INPUTS) && post == pre,
            Some(prev) => {
                if prev@.contains(stream) {
                    r is Ok && (s2.inputs matches Some(v) && v@ == seq_remove_all(prev@, stream))
                } else {
                    r == Err::<(), &'static str>(ERR_MIXER_INPUT_NOT_PRESENT) && post == pre
                }
            },
        },
        _ => false,
    }
}

/// What connecting the outlet stream does to a block: mixers and sources
/// take at most one output, a sink has none.
pub open spec fn block_connect_output_post(
    pre: Block,
    post: Block,
    stream: StreamId,
    r: Result<(), &'static str>,
) -> bool {
    match (pre, post) {
        (Block::Mixer(m), Block::Mixer(m2)) => m2.inputs == m.inputs && match m.output {
            None => r is Ok && m2.output == Some(stream),
            Some(_) => r == Err::<(), &'static str>(ERR_OUTPUT_EXISTS) && post == pre,
        },
        (Block::Source(s), Block::Source(s2)) => match s.output {
            None => r is Ok && s2.output == Some(stream),
            Some(_) => r == Err::<(), &'static str>(ERR_OUTPUT_EXISTS) && post == pre,
        },
        (Block::Sink(_), Block::Sink(_)) => r == Err::<(), &'static str>(ERR_SINK_OUTPUT_CONNECT)
            && post == pre,
        _ => false,
    }
}

/// What disconnecting the outlet stream does to a block.
pub open spec fn block_disconnect_output_post(
    pre: Block,
    post: Block,
    r: Result<(), &'static str>,
) -> bool {
    match (pre, post) {
        (Block::Mixer(m), Block::Mixer(m2)) => m2.inputs == m.inputs && match m.output {
            None => r == Err::<(), &'static str>(ERR_NO_OUTPUT) && post == pre,
            Some(_) => r is Ok && m2.output is None,
        },
        (Block::Source(s), Block::Source(s2)) => match s.output {
            None => r == Err::<(), &'static str>(ERR_NO_OUTPUT) && post == pre,
            Some(_) => r is Ok && s2.output is None,
        },
        (Block::Sink(_), Block::Sink(_)) => r == Err::<(), &'static str>(
            ERR_SINK_OUTPUT_DISCONNECT,
        ) && post == pre,
        _ => false,
    }
}

/// A concrete unit-operation block, with the connection capability every
/// block offers: connect or disconnect an input or an output, subject to
/// its kind's rules.
#[derive(Clone, Debug)]
pub enum Block {
    /// A mixing block.
    Mixer(Mixer),
    /// A stream source.
    Source(Source),
    /// A stream sink.
    Sink(Sink),
}

impl Block {
    /// Connect an input to the block.
    pub fn connect_input(&mut self, stream: StreamId) -> (r: Result<(), &'static str>)
        ensures
            block_connect_input_post(*old(self), *final(self), stream, r),
    {
        match self {
            Block::Mixer(m) => m.connect_input(stream),
            Block::Source(s) => s.connect_input(stream),
            Block::Sink(s) => s.connect_input(stream),
        }
    }

    /// Disconnect an input from the block.
    pub fn disconnect_input(&mut self, stream: StreamId) -> (r: Result<(), &'static str>)
        ensures
            block_disconnect_input_post(*old(self), *final(self), stream, r),
    {
        match self {
            Block::Mixer(m) => m.disconnect_input(stream),
            Block::Source(s) => s.disconnect_input(stream),
            Block::Sink(s) => s.disconnect_input(stream),
        }
    }

    /// Connect an output to the block.
    pub fn connect_output(&mut self, stream: StreamId) -> (r: Result<(), &'static str>)
        ensures
            block_connect_output_post(*old(self), *final(self), stream, r),
    {
        match self {
            Block::Mixer(m) => m.connect_output(stream),
            Block::Source(s) => s.connect_output(stream),
            Block::Sink(s) => s.connect_output(stream),
        }
    }

    /// Disconnect an output from the block.
    pub fn disconnect_output(&mut self, stream: StreamId) -> (r: Result<(), &'static str>)
        ensures
            block_disconnect_output_post(*old(self), *final(self), r),
    {
        match self {
            Block::Mixer(m) => m.disconnect_output(stream),
            Block::Source(s) => s.disconnect_output(stream),
            Block::Sink(s) => s.disconnect_output(stream),
        }
    }
}

/// Absolute tolerance on the inlet/outlet energy difference, in microjoules
/// (5 J).
pub const TOLERENCE_ENERGY_MICROJOULES: i64 = 5_000_000;

/// Absolute tolerance on the inlet/outlet mass difference, in micrograms
/// (5 kg).
pub const TOLERENCE_MASS_MICROGRAMS: i64 = 5_000_000_000;

/// A check that a block conserves mass: the signed inlet-minus-outlet mass
/// difference must not exceed the fixed tolerance.
pub trait MassBalance {
    /// Compare inlet and outlet mass; true when the signed difference is
    /// within tolerance.
    fn mass_balance_check(&self, mass_in: Mass, mass_out: Mass) -> (r: bool)
        ensures
            r == (mass_in@ - mass_out@ <= TOLERENCE_MASS_MICROGRAMS),
    {
        let mass_difference: i128 = mass_in.micrograms as i128 - mass_out.micrograms as i128;
        mass_difference <= TOLERENCE_MASS_MICROGRAMS as i128
    }
}

/// A check that a block conserves energy: the signed inlet-minus-outlet
/// energy difference must not exceed the fixed tolerance. The comparison is
/// deliberately not taken on the absolute value, so a large negative
/// difference passes.
pub trait EnergyBalance {
    /// Compare inlet and outlet energy; true when the signed difference is
    /// within tolerance.
    fn energy_balance_check(&self, energy_in: Energy, energy_out: Energy) -> (r: bool)
        ensures
            r == (energy_in@ - energy_out@ <= TOLERENCE_ENERGY_MICROJOULES),
    {
        let energy_difference: i128 = energy_in.microjoules as i128
            - energy_out.microjoules as i128;
        energy_difference <= TOLERENCE_ENERGY_MICROJOULES as i128
    }
}

impl MassBalance for Mixer {

}

impl EnergyBalance for Mixer {

}

} // verus!
