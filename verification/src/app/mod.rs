pub mod launch;
pub mod quarantine;
pub mod rotator;
pub mod sub_parser;
