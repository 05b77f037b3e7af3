//! Engine of a terminal reflex game: a player browses a list of phases,
//! selects one, and must reproduce its pattern of directional inputs.
//!
//! The crate holds the game's state and rules: the phase data model, the
//! cyclic menu navigator, the sequence matcher with its reset-on-mismatch
//! rule, the screen partitioning arithmetic, and the session state machine
//! that ties them together. Rendering and raw input live outside it.

pub mod layout;
pub mod matcher;
pub mod navigator;
pub mod phase;
pub mod session;
