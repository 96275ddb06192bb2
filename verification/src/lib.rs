//! Core library of a chemical process simulator: unit-operation blocks,
//! streams, a simulation orchestrator, chemical identity and property
//! records, thermodynamic parameter bookkeeping, and the flowsheet-editor
//! placement logic used by the desktop front end.

pub mod blocks;
pub mod cli;
pub mod component;
pub mod flowsheet;
pub mod simulation;
pub mod stream;
pub mod thermodynamics;
pub mod units;
pub mod window;
