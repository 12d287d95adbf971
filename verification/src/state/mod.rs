pub mod config;
pub mod finality;
pub mod store;
