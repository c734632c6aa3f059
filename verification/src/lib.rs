//! Decoding and decision logic of a LayerZero executor: the wire formats of the
//! packets it listens for, the command line it is launched with, and the
//! state kept between the events of an executor's workflow.
pub mod be;
pub mod primitives;
pub mod types;
pub mod executor;
pub mod config;
pub mod executor_def;
