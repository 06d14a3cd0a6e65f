pub mod error;
pub mod actor;
