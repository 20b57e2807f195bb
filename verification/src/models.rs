//! The canonical data model: categories, inventory items, statuses and tombstones.

pub mod category;
pub mod item;
pub mod tombstone;
pub mod metadata;
