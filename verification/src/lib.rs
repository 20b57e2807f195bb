//! Deterministic developer-ecosystem inventory: the data model, the
//! classification rules, the dependency resolver and the cleanup plan logic.

pub mod text;
pub mod size;
pub mod order;
pub mod doc;
pub mod paths;
pub mod clock;
pub mod models;
pub mod engine;
pub mod cleanup;
pub mod tui;
pub mod collectors;
pub mod report;
