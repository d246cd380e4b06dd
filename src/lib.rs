pub mod config;
pub mod text;
pub mod status;
