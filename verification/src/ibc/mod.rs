pub mod any;
pub mod channel;
pub mod decode;
pub mod height;
pub mod identifier;
pub mod message;
pub mod packet;
pub mod path;
pub mod tendermint;
pub mod text;
