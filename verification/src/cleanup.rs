//! The tombstone history store and the cleanup / rollback plan generator.

pub mod history;
pub mod script_gen;
