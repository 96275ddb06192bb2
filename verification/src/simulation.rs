//! Simulation orchestrator.
//!
//! The `Simulation` owns the authoritative registries of blocks and streams,
//! keyed by `u64` identifiers. Identifiers are assigned by linear probing
//! from 1 upward, so each registry always hands out the lowest identifier
//! not yet in use, and the block and stream identifier namespaces are
//! independent of one another.

use vstd::prelude::*;

use std::collections::BTreeMap;

use crate::blocks::Block;
use crate::blocks::Mixer;
use crate::stream::Stream;

verus! {

broadcast use vstd::std_specs::btree::group_btree_axioms;

/// Identifier of a block within a simulation's block registry.
pub type BlockId = u64;

/// Tells the orchestrator what kind of block to construct.
#[derive(Clone, Copy, Debug, PartialEq, Eq, Structural)]
pub enum BlockType {
    /// Mix multiple streams into a single output stream.
    Mixer,
    /// Source for streams.
    Source,
    /// Sink for streams.
    Sink,
}

/// Simulation-wide configuration.
#[derive(Clone, Debug)]
pub struct Settings {}

impl Default for Settings {
    /// An empty settings record.
    fn default() -> (r: Settings)
        ensures
            r == (Settings {  }),
    {
        Settings {  }
    }
}

/// The dynamic state of a simulation run.
#[derive(Clone, Debug)]
pub struct SimulationState {}

impl SimulationState {
    /// Create a new `SimulationState`.
    pub fn new() -> (r: SimulationState)
        ensures
            r == (SimulationState {  }),
    {
        SimulationState {  }
    }
}

impl Default for SimulationState {
    /// Same empty state as `SimulationState::new`.
    fn default() -> (r: SimulationState)
        ensures
            r == (SimulationState {  }),
    {
        SimulationState {  }
    }
}

/// Errors the orchestrator can report on its registries.
#[derive(Clone, Debug)]
pub enum SimulationError {
    /// A block with the requested identifier is not in the simulation.
    BlockNotFound,
    /// A connector with the requested identifier is not in the simulation.
    ConnectorNotFound,
    /// A block with a matching identifier is already in the simulation.
    BlockExists,
    /// A connector with a matching identifier is already in the simulation.
    ConnectorExists,
    /// Any other error.
    Other(String),
}

/// The registries of blocks and streams for one simulation run.
pub struct Simulation {
    /// All blocks of the simulation, by block identifier.
    blocks: BTreeMap<BlockId, Block>,
    /// All streams of the simulation, by stream identifier.
    streams: BTreeMap<u64, Stream>,
    /// Simulation-wide settings.
    settings: Settings,
    /// The state of the simulation run.
    state: SimulationState,
}

impl Simulation {
    /// The block registry as a mathematical map.
    pub closed spec fn blocks_map(&self) -> Map<BlockId, Block> {
        self.blocks@
    }

    /// The stream registry as a mathematical map.
    pub closed spec fn streams_map(&self) -> Map<u64, Stream> {
        self.streams@
    }

    /// Create a new simulation with empty registries.
    pub fn new(settings: Settings) -> (r: Self)
        ensures
            r.blocks_map() == Map::<BlockId, Block>::empty(),
            r.streams_map() == Map::<u64, Stream>::empty(),
    {
        Self {
            blocks: BTreeMap::new(),
            streams: BTreeMap::new(),
            settings,
            state: SimulationState::new(),
        }
    }

    /// Add a block of the requested kind and return its identifier: the
    /// lowest `u64` from 1 upward that no block holds yet. Only mixers can
    /// be constructed so far.
    pub fn add_block(&mut self, block: BlockType) -> (id: BlockId)
        requires
            block is Mixer,
            old(self).blocks_map().len() < u64::MAX as nat,
        ensures
            1 <= id,
            !old(self).blocks_map().contains_key(id),
            forall|j: BlockId| 1 <= j < id ==> old(self).blocks_map().contains_key(j),
            final(self).blocks_map() == old(self).blocks_map().insert(
                id,
                Block::Mixer(Mixer { inputs: None, output: None }),
            ),
            final(self).streams_map() == old(self).streams_map(),
    {
        // Start with a block id of 1.
        let mut id: u64 = 1;
        while self.blocks.contains_key(&id)
            invariant
                1 <= id,
                forall|j: BlockId| 1 <= j < id ==> self.blocks@.contains_key(j),
                self.blocks@.len() < u64::MAX as nat,
                *self == *old(self),
            decreases u64::MAX - id,
        {
            proof {
                lemma_probe_bound(self.blocks@, id);
            }
            id += 1;
        }

        match block {
            BlockType::Mixer => {
                self.blocks.insert(id, Block::Mixer(Mixer::new()));
            },
            BlockType::Source => {
                unreached::<()>();
            },
            BlockType::Sink => {
                unreached::<()>();
            },
        }

        id
    }

    /// Add a stream linking the two given blocks and return its identifier:
    /// the lowest `u64` from 1 upward that no stream holds yet.
    pub fn add_stream(&mut self, from: BlockId, to: BlockId) -> (id: u64)
        requires
            old(self).streams_map().len() < u64::MAX as nat,
        ensures
            1 <= id,
            !old(self).streams_map().contains_key(id),
            forall|j: u64| 1 <= j < id ==> old(self).streams_map().contains_key(j),
            final(self).streams_map() == old(self).streams_map().insert(
                id,
                (Stream { from, to }),
            ),
            final(self).blocks_map() == old(self).blocks_map(),
    {
        // Start with a stream ID of 1.
        let mut id: u64 = 1;
        while self.streams.contains_key(&id)
            invariant
                1 <= id,
                forall|j: u64| 1 <= j < id ==> self.streams@.contains_key(j),
                self.streams@.len() < u64::MAX as nat,
                *self == *old(self),
            decreases u64::MAX - id,
        {
            proof {
                lemma_probe_bound(self.streams@, id);
            }
            id += 1;
        }
        self.streams.insert(id, Stream::new(from, to));
        id
    }
}

impl Default for Simulation {
    /// An empty simulation with default settings.
    fn default() -> (r: Simulation)
        ensures
            r.blocks_map() == Map::<BlockId, Block>::empty(),
            r.streams_map() == Map::<u64, Stream>::empty(),
    {
        Simulation::new(Settings::default())
    }
}

/// If a finite map contains every identifier from 1 through `id`, it has at
/// least `id` entries; this bounds the linear identifier probe.
proof fn lemma_probe_bound<V>(m: Map<u64, V>, id: u64)
    requires
        m.dom().finite(),
        forall|j: u64| 1 <= j <= id ==> m.contains_key(j),
    ensures
        id as nat <= m.len(),
    decreases id,
{
    if id > 0 {
        lemma_probe_bound(m.remove(id), (id - 1) as u64);
    }
}

} // verus!
