pub mod chain;
pub mod client;
pub mod events;
pub mod provider;
pub mod tx;
