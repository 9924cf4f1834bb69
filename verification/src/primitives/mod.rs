pub mod funcs;
pub mod search;
pub mod timeouts;
pub mod traits;
pub mod undelivered;
