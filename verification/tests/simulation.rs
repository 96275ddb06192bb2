//! Tests of the simulation orchestrator's identifier allocation.

use oscps::simulation::BlockType;
use oscps::simulation::Settings;
use oscps::simulation::Simulation;
use oscps::simulation::SimulationState;

#[test]
fn test_block_ids_count_up_from_one() {
    let mut simulation = Simulation::new(Settings::default());
    let first = simulation.add_block(BlockType::Mixer);
    let second = simulation.add_block(BlockType::Mixer);
    let third = simulation.add_block(BlockType::Mixer);
    assert_eq!(first, 1);
    assert_eq!(second, 2);
    assert_eq!(third, 3);
}

#[test]
fn test_stream_ids_independent_of_block_ids() {
    let mut simulation = Simulation::new(Settings::default());
    let from = simulation.add_block(BlockType::Mixer);
    let to = simulation.add_block(BlockType::Mixer);
    assert_eq!((from, to), (1, 2));
    // The stream registry numbers from 1 on its own, regardless of how
    // many blocks exist.
    assert_eq!(simulation.add_stream(from, to), 1);
    assert_eq!(simulation.add_stream(to, from), 2);
    // And block allocation is unaffected by the streams.
    assert_eq!(simulation.add_block(BlockType::Mixer), 3);
}

#[test]
fn test_simulation_state_new() {
    let _state = SimulationState::new();
    let _default_state = SimulationState::default();
}
