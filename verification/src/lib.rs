//! Translation core for a game-controller input bridge: decoding fixed-size
//! device reports into typed snapshots, detecting field-level changes between
//! consecutive snapshots, reshaping analog samples through configurable
//! response curves, and turning the changes of one frame into an ordered,
//! committed batch of sink actions.

pub mod curve;
pub mod curve_table;
pub mod diff;
pub mod emit;
pub mod hid;
pub mod pipeline;
