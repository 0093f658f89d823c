//! A minimal self-profiling daemon, modelled and verified.
//!
//! The daemon runs two independent periodic loops: a workload generator that
//! allocates and permanently retains a fixed-size block each tick, and a
//! capture-and-upload loop that snapshots the heap profiler and ships each
//! snapshot, wrapped in a labelled write request, to a remote profile store.
//! This crate holds the verified core of that daemon: the wire-level data
//! model, request construction, the workload arena, the upload state machine,
//! and the supervisor's verdict on a loop that exits.

pub mod decimal;
pub mod model;
pub mod supervisor;
pub mod timer;
pub mod uploader;
pub mod workload;
