pub mod capabilities;
pub mod command;
pub mod connection;
pub mod error;
pub mod json;
pub mod types;
pub mod unwrap;
