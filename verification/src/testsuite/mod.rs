pub mod create;
pub mod setup;
pub mod tests;
