//! Classification rules and the dependency resolver.

pub mod taxonomy;
pub mod dep_graph;
pub mod fs_auditor;
