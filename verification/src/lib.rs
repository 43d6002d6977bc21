//! An animation-blending state machine.
//!
//! A `Machine` owns a pool of pose nodes (leaves that sample a clip, and
//! blend nodes that combine children by weighted sums), a pool of named
//! states that each cache the pose of one pose-graph root, a pool of timed
//! transitions that crossfade between states when a named boolean rule
//! parameter turns true, a parameter store that drives both blend weights
//! and transition rules, and a bounded queue of lifecycle events.
//!
//! All scalar quantities (pose channels, blend weights, times) are
//! fixed-point values: an `i64` or `u64` raw count of 1/65536ths of a unit.
//! Every per-tick computation is total: missing parameters, parameters of
//! the wrong kind and stale or absent handles degrade to documented neutral
//! defaults instead of failing.

pub mod clip;
pub mod fixed;
pub mod laws;
pub mod machine;
pub mod node;
pub mod params;
pub mod pool;
pub mod pose;
pub mod state;
pub mod transition;
pub mod ui;
