pub mod codec;
pub mod config;
pub mod paths;
pub mod photos;
pub mod store;
