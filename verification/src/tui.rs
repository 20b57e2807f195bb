//! The dashboard's state: filters, sorting, navigation and marks.

pub mod app;
pub mod keys;
pub mod screen;
pub mod step;
