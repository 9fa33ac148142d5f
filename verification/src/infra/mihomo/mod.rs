pub mod api;
pub mod config_gen;
