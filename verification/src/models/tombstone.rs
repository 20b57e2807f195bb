use vstd::prelude::*;
use crate::models::category::Category;
use crate::models::item::{
    AssociatedMetadata, InventoryItem, PackageSource, Timestamp, clone_opt_string, clone_strings,
    same_meta,
};

verus! {

/// Represents an archived forensic snapshot of an uninstalled package
#[derive(Debug)]
pub struct PackageTombstone {
    pub id: String,
    pub name: String,
    pub source: PackageSource,
    pub version: Option<String>,
    pub removed_at: Timestamp,
    pub install_path: String,
    pub size_bytes: u64,
    pub last_accessed_at: Option<Timestamp>,
    pub category: Category,
    pub required_by: Vec<String>,
    pub associated_metadata: AssociatedMetadata,
    pub uninstall_cmd: Option<String>,
    pub reinstall_cmd: Option<String>,
    pub log_purge_cmds: Vec<String>,
}

/// A structured manifest containing all tombstones from a specific cleanup run
#[derive(Debug)]
pub struct TombstoneManifest {
    pub manifest_id: String,
    pub created_at: Timestamp,
    pub total_packages: usize,
    pub total_reclaimed_bytes: u64,
    pub packages: Vec<PackageTombstone>,
}

/// Two tombstones agree on every field (lists compared by their contents).
pub open spec fn same_tombstone(a: PackageTombstone, b: PackageTombstone) -> bool {
    &&& a.id == b.id
    &&& a.name == b.name
    &&& a.source == b.source
    &&& a.version == b.version
    &&& a.removed_at == b.removed_at
    &&& a.install_path == b.install_path
    &&& a.size_bytes == b.size_bytes
    &&& a.last_accessed_at == b.last_accessed_at
    &&& a.category == b.category
    &&& a.required_by@ == b.required_by@
    &&& same_meta(a.associated_metadata, b.associated_metadata)
    &&& a.uninstall_cmd == b.uninstall_cmd
    &&& a.reinstall_cmd == b.reinstall_cmd
    &&& a.log_purge_cmds@ == b.log_purge_cmds@
}

impl Clone for PackageTombstone {
    fn clone(&self) -> (r: Self)
        ensures
            same_tombstone(r, *self),
    {
        PackageTombstone {
            id: self.id.clone(),
            name: self.name.clone(),
            source: self.source,
            version: clone_opt_string(&self.version),
            removed_at: self.removed_at,
            install_path: self.install_path.clone(),
            size_bytes: self.size_bytes,
            last_accessed_at: self.last_accessed_at,
            category: self.category,
            required_by: clone_strings(&self.required_by),
            associated_metadata: self.associated_metadata.clone(),
            uninstall_cmd: clone_opt_string(&self.uninstall_cmd),
            reinstall_cmd: clone_opt_string(&self.reinstall_cmd),
            log_purge_cmds: clone_strings(&self.log_purge_cmds),
        }
    }
}

/// The tombstone of an item: its identity and commands, with the metadata found
/// for it, its purge commands and the time of removal.
pub open spec fn tombstone_of(
    i: InventoryItem,
    meta: AssociatedMetadata,
    purge: Seq<String>,
    removed_at: Timestamp,
    t: PackageTombstone,
) -> bool {
    &&& t.id == i.id
    &&& t.name == i.name
    &&& t.source == i.source
    &&& t.version == i.version
    &&& t.removed_at == removed_at
    &&& t.install_path == i.install_path
    &&& t.size_bytes == i.size_bytes
    &&& t.last_accessed_at == i.last_accessed_at
    &&& t.category == i.category
    &&& t.required_by@ == i.required_by@
    &&& same_meta(t.associated_metadata, meta)
    &&& t.uninstall_cmd == i.uninstall_cmd
    &&& t.reinstall_cmd == i.reinstall_cmd
    &&& t.log_purge_cmds@ == purge
}

impl InventoryItem {
    /// Converts this item into an archival forensic tombstone snapshot, given the
    /// metadata found for it, its log purge commands and the time of removal.
    pub fn to_tombstone(
        &self,
        associated_metadata: AssociatedMetadata,
        log_purge_cmds: Vec<String>,
        removed_at: Timestamp,
    ) -> (t: PackageTombstone)
        ensures
            tombstone_of(*self, associated_metadata, log_purge_cmds@, removed_at, t),
    {
        PackageTombstone {
            id: self.id.clone(),
            name: self.name.clone(),
            source: self.source,
            version: clone_opt_string(&self.version),
            removed_at,
            install_path: self.install_path.clone(),
            size_bytes: self.size_bytes,
            last_accessed_at: self.last_accessed_at,
            category: self.category,
            required_by: clone_strings(&self.required_by),
            associated_metadata,
            uninstall_cmd: clone_opt_string(&self.uninstall_cmd),
            reinstall_cmd: clone_opt_string(&self.reinstall_cmd),
            log_purge_cmds,
        }
    }
}

} // verus!
