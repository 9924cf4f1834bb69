//! The decisions of a relayer between Cosmos chains.
pub mod cosmos;
pub mod error;
pub mod ibc;
pub mod packets;
pub mod primitives;
pub mod queue;
pub mod relay;
pub mod testsuite;
