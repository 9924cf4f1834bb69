pub mod delay;
pub mod messages;
pub mod timeout;
pub mod types;
pub mod utils;
