use vstd::prelude::*;
use crate::clock::{rfc3339, rfc3339_text, compact_stamp, compact_stamp_text};
use crate::doc::{concat, concat_frags, push_frag, strs, lemma_concat_append, lemma_concat_contains, lemma_substring_trans};
use crate::models::category::{Category, category_display};
use crate::models::item::{InventoryItem, Timestamp, AssociatedMetadata, clone_strings};
use crate::paths::{join_path, path_join};
use crate::models::tombstone::{PackageTombstone, TombstoneManifest, same_tombstone, tombstone_of};
use crate::size::{format_bytes, format_bytes_spec};
use crate::text::{cat, cat3, 
    append_str, chars_of, decimal, has_prefix, has_substring, occurs_at, owned, seq_starts_with,
    slice_to_vec, string_of, u64_decimal,
};

verus! {

pub struct ScriptGenerator;

/// `a`, `b`, `c`, `d` and `e` one after the other.
fn cat5(a: &str, b: &str, c: &str, d: &str, e: &str) -> (r: String)
    ensures
        r@ == a@ + b@ + c@ + d@ + e@,
{
    let mut s = owned(a);
    append_str(&mut s, b);
    append_str(&mut s, c);
    append_str(&mut s, d);
    append_str(&mut s, e);
    s
}

/// The text after the `cleanup_` prefix of a manifest id, or nothing.
pub open spec fn stamp_of_id(id: Seq<char>) -> Seq<char> {
    if has_prefix(id, "cleanup_"@) {
        id.subrange(8, id.len() as int)
    } else {
        Seq::empty()
    }
}

pub open spec fn rule_line() -> Seq<char> {
    "# =============================================================================\n"@
}

pub open spec fn dash_line() -> Seq<char> {
    "# -----------------------------------------------------------------------------\n"@
}

/// The Phase 1 lines for one package: those with an uninstall command only.
pub open spec fn uninstall_block(t: PackageTombstone) -> Seq<Seq<char>> {
    match t.uninstall_cmd {
        Some(cmd) => seq![
            "# Package: "@ + t.name@ + " ("@ + t.id@ + ")\n"@,
            "# Category: "@ + category_display(t.category) + "\n"@,
            "# Path: "@ + t.install_path@ + "\n"@,
            "echo \"👉 [Phase 1] Removing "@ + t.name@ + "...\"\n"@,
            cmd@ + "\n\n"@,
        ],
        None => Seq::empty(),
    }
}

/// Each purge command on a line of its own.
pub open spec fn command_lines(cmds: Seq<String>) -> Seq<Seq<char>>
    decreases cmds.len(),
{
    if cmds.len() == 0 {
        Seq::empty()
    } else {
        command_lines(cmds.drop_last()).push(cmds.last()@ + "\n"@)
    }
}

/// The Phase 2 lines for one package: those with purge commands only.
pub open spec fn purge_block(t: PackageTombstone) -> Seq<Seq<char>> {
    if t.log_purge_cmds@.len() > 0 {
        seq!["# Logs & Caches for: "@ + t.name@ + "\n"@] + command_lines(t.log_purge_cmds@) + seq![
            "\n"@,
        ]
    } else {
        Seq::empty()
    }
}

pub open spec fn uninstall_blocks(ts: Seq<PackageTombstone>) -> Seq<Seq<char>>
    decreases ts.len(),
{
    if ts.len() == 0 {
        Seq::empty()
    } else {
        uninstall_blocks(ts.drop_last()) + uninstall_block(ts.last())
    }
}

pub open spec fn purge_blocks(ts: Seq<PackageTombstone>) -> Seq<Seq<char>>
    decreases ts.len(),
{
    if ts.len() == 0 {
        Seq::empty()
    } else {
        purge_blocks(ts.drop_last()) + purge_block(ts.last())
    }
}

/// Some package has purge commands.
pub open spec fn any_purge(ts: Seq<PackageTombstone>) -> bool {
    exists|i: int| 0 <= i < ts.len() && ts[i].log_purge_cmds@.len() > 0
}

/// The cleanup script, fragment by fragment.
pub open spec fn cleanup_fragments(m: TombstoneManifest) -> Seq<Seq<char>> {
    seq![
        "#!/usr/bin/env bash\n"@,
        rule_line(),
        "# etop: macOS Developer Ecosystem Cleanup Plan\n"@,
        "# Manifest ID:           "@ + m.manifest_id@ + "\n"@,
        "# Generated At:          "@ + rfc3339_text(m.created_at.secs, m.created_at.nanos) + "\n"@,
        "# Candidate Packages:    "@ + decimal(m.total_packages as nat) + "\n"@,
        "# Estimated Disk Reclaim:"@ + format_bytes_spec(m.total_reclaimed_bytes as nat) + "\n"@,
        "#\n# SAFETY PROTOCOL:\n#   - All user configurations (~/.config, .toml, .plist, .rc) & ENV vars are PRESERVED.\n#   - Phase 1 executes package manager uninstalls.\n#   - Phase 2 cleans ONLY residual log files & transient caches without touching configs.\n#   - A full forensic snapshot is archived in ~/.local/share/etop/tombstones/\n"@,
        "# =============================================================================\n\n"@,
        "set -euo pipefail\n\n"@,
        "echo \"🚀 Starting deterministic macOS package cleanup with etop...\"\n"@,
        "echo \"📦 Packages to remove: "@ + decimal(m.total_packages as nat) + "\"\n\n"@,
        "# -----------------------------------------------------------------------------\n# PHASE 1: Native Package Uninstalls\n# -----------------------------------------------------------------------------\n\n"@,
    ] + uninstall_blocks(m.packages@) + seq![
        "# -----------------------------------------------------------------------------\n# PHASE 2: Targeted Log Files & Transient Cache Purge\n# (Configurations and environment settings are kept completely intact!)\n# -----------------------------------------------------------------------------\n\n"@,
    ] + purge_blocks(m.packages@) + (if any_purge(m.packages@) {
        Seq::<Seq<char>>::empty()
    } else {
        seq!["# No residual log files or caches found to purge.\n\n"@]
    }) + seq![
        "echo \"✨ Cleanup completed successfully!\"\n"@,
        "echo \"🔄 Rollback script available: ./rollback_reinstall_"@ + stamp_of_id(m.manifest_id@)
            + ".sh\"\n"@,
    ]
}

/// The cleanup script text of a manifest.
pub open spec fn cleanup_script_text(m: TombstoneManifest) -> Seq<char> {
    concat(cleanup_fragments(m))
}


/// Each preserved configuration path as a comment line.
pub open spec fn config_lines(ps: Seq<String>) -> Seq<Seq<char>>
    decreases ps.len(),
{
    if ps.len() == 0 {
        Seq::empty()
    } else {
        config_lines(ps.drop_last()).push("#   - "@ + ps.last()@ + "\n"@)
    }
}

/// Each environment variable as a commented `export` line.
pub open spec fn env_lines(vs: Seq<(String, String)>) -> Seq<Seq<char>>
    decreases vs.len(),
{
    if vs.len() == 0 {
        Seq::empty()
    } else {
        env_lines(vs.drop_last()).push(
            "#   export "@ + vs.last().0@ + "='"@ + vs.last().1@ + "'\n"@,
        )
    }
}

/// The rollback lines for one package.
pub open spec fn restore_block(t: PackageTombstone) -> Seq<Seq<char>> {
    seq![
        dash_line(),
        "# Package: "@ + t.name@ + " ("@ + t.id@ + ")\n"@,
        "# Category: "@ + category_display(t.category) + "\n"@,
        "# Original Path: "@ + t.install_path@ + "\n"@,
    ] + (if t.associated_metadata.configs@.len() > 0 {
        seq!["# Preserved Config Files:\n"@] + config_lines(t.associated_metadata.configs@)
    } else {
        Seq::empty()
    }) + (if t.associated_metadata.env_vars@.len() > 0 {
        seq!["# Associated Environment Variables:\n"@] + env_lines(t.associated_metadata.env_vars@)
    } else {
        Seq::empty()
    }) + match t.reinstall_cmd {
        Some(r) => seq!["echo \"👉 Reinstalling "@ + t.name@ + "...\"\n"@, r@ + "\n\n"@],
        None => seq![
            "# Manual restore required for "@ + t.name@
                + " (no automatic package manager reinstall command)\n\n"@,
        ],
    }
}

pub open spec fn restore_blocks(ts: Seq<PackageTombstone>) -> Seq<Seq<char>>
    decreases ts.len(),
{
    if ts.len() == 0 {
        Seq::empty()
    } else {
        restore_blocks(ts.drop_last()) + restore_block(ts.last())
    }
}

/// The rollback script, fragment by fragment.
pub open spec fn rollback_fragments(m: TombstoneManifest) -> Seq<Seq<char>> {
    seq![
        "#!/usr/bin/env bash\n"@,
        rule_line(),
        "# etop: macOS Package Rollback & Inverse Reinstall Plan\n"@,
        "# Manifest ID:           "@ + m.manifest_id@ + "\n"@,
        "# Generated At:          "@ + rfc3339_text(m.created_at.secs, m.created_at.nanos) + "\n"@,
        "#\n# INVERSE OPERATION:\n#   - Reinstalls all packages removed by this etop cleanup session.\n#   - Preserved configurations and historical environment variables are documented below.\n"@,
        "# =============================================================================\n\n"@,
        "set -euo pipefail\n\n"@,
        "echo \"🔄 Restoring and reinstalling packages...\"\n\n"@,
    ] + restore_blocks(m.packages@) + seq!["echo \"✨ Rollback and reinstall completed!\"\n"@]
}

/// The rollback script text of a manifest.
pub open spec fn rollback_script_text(m: TombstoneManifest) -> Seq<char> {
    concat(rollback_fragments(m))
}

fn push_uninstall_block(out: &mut Vec<String>, t: &PackageTombstone)
    ensures
        strs(final(out)@) == strs(old(out)@) + uninstall_block(*t),
{
    match &t.uninstall_cmd {
        Some(cmd) => {
            let ghost b = strs(out@);
            push_frag(out, cat5("# Package: ", t.name.as_str(), " (", t.id.as_str(), ")\n"));
            let cd = t.category.to_display_string();
            push_frag(out, cat3("# Category: ", cd.as_str(), "\n"));
            push_frag(out, cat3("# Path: ", t.install_path.as_str(), "\n"));
            push_frag(out, cat3("echo \"👉 [Phase 1] Removing ", t.name.as_str(), "...\"\n"));
            push_frag(out, cat(cmd.as_str(), "\n\n"));
            assert(strs(out@) =~= b + uninstall_block(*t));
        },
        None => {
            assert(strs(out@) =~= strs(old(out)@) + uninstall_block(*t));
        },
    }
}

fn push_purge_block(out: &mut Vec<String>, t: &PackageTombstone)
    ensures
        strs(final(out)@) == strs(old(out)@) + purge_block(*t),
{
    if t.log_purge_cmds.len() > 0 {
        let ghost b = strs(out@);
        push_frag(out, cat3("# Logs & Caches for: ", t.name.as_str(), "\n"));
        let mut k: usize = 0;
        while k < t.log_purge_cmds.len()
            invariant
                k <= t.log_purge_cmds@.len(),
                strs(out@) == b + seq!["# Logs & Caches for: "@ + t.name@ + "\n"@] + command_lines(
                    t.log_purge_cmds@.take(k as int),
                ),
            decreases t.log_purge_cmds@.len() - k,
        {
            push_frag(out, cat(t.log_purge_cmds[k].as_str(), "\n"));
            proof {
                let c = t.log_purge_cmds@;
                assert(c.take(k + 1).drop_last() =~= c.take(k as int));
                assert(strs(out@) =~= b + seq!["# Logs & Caches for: "@ + t.name@ + "\n"@]
                    + command_lines(c.take(k + 1)));
            }
            k = k + 1;
        }
        push_frag(out, owned("\n"));
        proof {
            assert(t.log_purge_cmds@.take(k as int) =~= t.log_purge_cmds@);
            assert(strs(out@) =~= b + purge_block(*t));
        }
    } else {
        assert(strs(out@) =~= strs(old(out)@) + purge_block(*t));
    }
}

fn push_restore_block(out: &mut Vec<String>, t: &PackageTombstone)
    ensures
        strs(final(out)@) == strs(old(out)@) + restore_block(*t),
{
    let ghost b = strs(out@);
    push_frag(out, owned("# -----------------------------------------------------------------------------\n"));
    push_frag(out, cat5("# Package: ", t.name.as_str(), " (", t.id.as_str(), ")\n"));
    let cd = t.category.to_display_string();
    push_frag(out, cat3("# Category: ", cd.as_str(), "\n"));
    push_frag(out, cat3("# Original Path: ", t.install_path.as_str(), "\n"));
    let ghost head = strs(out@);
    let ghost head_spec = seq![
        dash_line(),
        "# Package: "@ + t.name@ + " ("@ + t.id@ + ")\n"@,
        "# Category: "@ + category_display(t.category) + "\n"@,
        "# Original Path: "@ + t.install_path@ + "\n"@,
    ];
    assert(head =~= b + head_spec);
    let configs = &t.associated_metadata.configs;
    if configs.len() > 0 {
        push_frag(out, owned("# Preserved Config Files:\n"));
        let mut k: usize = 0;
        while k < configs.len()
            invariant
                k <= configs@.len(),
                strs(out@) == head + seq!["# Preserved Config Files:\n"@] + config_lines(configs@.take(k as int)),
            decreases configs@.len() - k,
        {
            push_frag(out, cat3("#   - ", configs[k].as_str(), "\n"));
            proof {
                assert(configs@.take(k + 1).drop_last() =~= configs@.take(k as int));
                assert(strs(out@) =~= head + seq!["# Preserved Config Files:\n"@] + config_lines(
                    configs@.take(k + 1),
                ));
            }
            k = k + 1;
        }
        assert(configs@.take(k as int) =~= configs@);
    }
    let ghost cfg_part: Seq<Seq<char>> = if configs@.len() > 0 {
        seq!["# Preserved Config Files:\n"@] + config_lines(configs@)
    } else {
        Seq::empty()
    };
    assert(strs(out@) =~= head + cfg_part);
    let ghost mid = strs(out@);
    let envs = &t.associated_metadata.env_vars;
    if envs.len() > 0 {
        push_frag(out, owned("# Associated Environment Variables:\n"));
        let mut k: usize = 0;
        while k < envs.len()
            invariant
                k <= envs@.len(),
                strs(out@) == mid + seq!["# Associated Environment Variables:\n"@] + env_lines(envs@.take(k as int)),
            decreases envs@.len() - k,
        {
            let mut line = cat3("#   export ", envs[k].0.as_str(), "='");
            append_str(&mut line, envs[k].1.as_str());
            append_str(&mut line, "'\n");
            push_frag(out, line);
            proof {
                assert(envs@.take(k + 1).drop_last() =~= envs@.take(k as int));
                assert(strs(out@) =~= mid + seq!["# Associated Environment Variables:\n"@] + env_lines(
                    envs@.take(k + 1),
                ));
            }
            k = k + 1;
        }
        assert(envs@.take(k as int) =~= envs@);
    }
    let ghost env_part: Seq<Seq<char>> = if envs@.len() > 0 {
        seq!["# Associated Environment Variables:\n"@] + env_lines(envs@)
    } else {
        Seq::empty()
    };
    assert(strs(out@) =~= mid + env_part);
    let ghost tail_start = strs(out@);
    match &t.reinstall_cmd {
        Some(r) => {
            push_frag(out, cat3("echo \"👉 Reinstalling ", t.name.as_str(), "...\"\n"));
            push_frag(out, cat(r.as_str(), "\n\n"));
        },
        None => {
            push_frag(out, cat3("# Manual restore required for ", t.name.as_str(),
                " (no automatic package manager reinstall command)\n\n"));
        },
    }
    assert(strs(out@) =~= b + restore_block(*t));
}

impl ScriptGenerator {
    /// Renders the executable cleanup script of a manifest.
    pub fn render_cleanup_script(manifest: &TombstoneManifest) -> (r: String)
        ensures
            r@ == cleanup_script_text(*manifest),
    {
        let mut out: Vec<String> = Vec::new();
        let rfc = rfc3339(manifest.created_at);
        let count = u64_decimal(manifest.total_packages as u64);
        let size = format_bytes(manifest.total_reclaimed_bytes);
        push_frag(&mut out, owned("#!/usr/bin/env bash\n"));
        push_frag(&mut out, owned("# =============================================================================\n"));
        push_frag(&mut out, owned("# etop: macOS Developer Ecosystem Cleanup Plan\n"));
        push_frag(&mut out, cat3("# Manifest ID:           ", manifest.manifest_id.as_str(), "\n"));
        push_frag(&mut out, cat3("# Generated At:          ", rfc.as_str(), "\n"));
        push_frag(&mut out, cat3("# Candidate Packages:    ", count.as_str(), "\n"));
        push_frag(&mut out, cat3("# Estimated Disk Reclaim:", size.as_str(), "\n"));
        push_frag(&mut out, owned("#\n# SAFETY PROTOCOL:\n#   - All user configurations (~/.config, .toml, .plist, .rc) & ENV vars are PRESERVED.\n#   - Phase 1 executes package manager uninstalls.\n#   - Phase 2 cleans ONLY residual log files & transient caches without touching configs.\n#   - A full forensic snapshot is archived in ~/.local/share/etop/tombstones/\n"));
        push_frag(&mut out, owned("# =============================================================================\n\n"));
        push_frag(&mut out, owned("set -euo pipefail\n\n"));
        push_frag(&mut out, owned("echo \"🚀 Starting deterministic macOS package cleanup with etop...\"\n"));
        push_frag(&mut out, cat3("echo \"📦 Packages to remove: ", count.as_str(), "\"\n\n"));
        push_frag(&mut out, owned("# -----------------------------------------------------------------------------\n# PHASE 1: Native Package Uninstalls\n# -----------------------------------------------------------------------------\n\n"));
        let ghost head = strs(out@);
        let ps = &manifest.packages;
        let mut i: usize = 0;
        while i < ps.len()
            invariant
                i <= ps@.len(),
                strs(out@) == head + uninstall_blocks(ps@.take(i as int)),
            decreases ps@.len() - i,
        {
            push_uninstall_block(&mut out, &ps[i]);
            proof {
                assert(ps@.take(i + 1).drop_last() =~= ps@.take(i as int));
                assert(strs(out@) =~= head + uninstall_blocks(ps@.take(i + 1)));
            }
            i = i + 1;
        }
        assert(ps@.take(i as int) =~= ps@);
        push_frag(&mut out, owned("# -----------------------------------------------------------------------------\n# PHASE 2: Targeted Log Files & Transient Cache Purge\n# (Configurations and environment settings are kept completely intact!)\n# -----------------------------------------------------------------------------\n\n"));
        let ghost mid = strs(out@);
        let mut has_logs_to_purge = false;
        let mut j: usize = 0;
        while j < ps.len()
            invariant
                j <= ps@.len(),
                strs(out@) == mid + purge_blocks(ps@.take(j as int)),
                has_logs_to_purge == any_purge(ps@.take(j as int)),
            decreases ps@.len() - j,
        {
            if ps[j].log_purge_cmds.len() > 0 {
                has_logs_to_purge = true;
            }
            push_purge_block(&mut out, &ps[j]);
            proof {
                let t1 = ps@.take(j + 1);
                assert(t1.drop_last() =~= ps@.take(j as int));
                assert(strs(out@) =~= mid + purge_blocks(t1));
                if any_purge(t1) && !any_purge(ps@.take(j as int)) {
                    let w = choose|w: int| 0 <= w < t1.len() && t1[w].log_purge_cmds@.len() > 0;
                    if w < j {
                        assert(ps@.take(j as int)[w] == t1[w]);
                    }
                }
                if any_purge(ps@.take(j as int)) {
                    let w = choose|w: int| 0 <= w < j && ps@.take(j as int)[w].log_purge_cmds@.len() > 0;
                    assert(t1[w] == ps@.take(j as int)[w]);
                }
                if ps@[j as int].log_purge_cmds@.len() > 0 {
                    assert(t1[j as int] == ps@[j as int]);
                }
            }
            j = j + 1;
        }
        assert(ps@.take(j as int) =~= ps@);
        if !has_logs_to_purge {
            push_frag(&mut out, owned("# No residual log files or caches found to purge.\n\n"));
        }
        push_frag(&mut out, owned("echo \"✨ Cleanup completed successfully!\"\n"));
        let idc = chars_of(manifest.manifest_id.as_str());
        let prefix = chars_of("cleanup_");
        proof {
            reveal_strlit("cleanup_");
        }
        let stamp = if seq_starts_with(&idc, &prefix) {
            let rest = slice_to_vec(&idc, 8, idc.len());
            string_of(&rest)
        } else {
            String::new()
        };
        push_frag(&mut out, cat3("echo \"🔄 Rollback script available: ./rollback_reinstall_", stamp.as_str(), ".sh\"\n"));
        proof {
            assert(strs(out@) =~= cleanup_fragments(*manifest));
        }
        concat_frags(&out)
    }

    /// Renders the inverse reinstall script of a manifest.
    pub fn render_rollback_script(manifest: &TombstoneManifest) -> (r: String)
        ensures
            r@ == rollback_script_text(*manifest),
    {
        let mut out: Vec<String> = Vec::new();
        let rfc = rfc3339(manifest.created_at);
        push_frag(&mut out, owned("#!/usr/bin/env bash\n"));
        push_frag(&mut out, owned("# =============================================================================\n"));
        push_frag(&mut out, owned("# etop: macOS Package Rollback & Inverse Reinstall Plan\n"));
        push_frag(&mut out, cat3("# Manifest ID:           ", manifest.manifest_id.as_str(), "\n"));
        push_frag(&mut out, cat3("# Generated At:          ", rfc.as_str(), "\n"));
        push_frag(&mut out, owned("#\n# INVERSE OPERATION:\n#   - Reinstalls all packages removed by this etop cleanup session.\n#   - Preserved configurations and historical environment variables are documented below.\n"));
        push_frag(&mut out, owned("# =============================================================================\n\n"));
        push_frag(&mut out, owned("set -euo pipefail\n\n"));
        push_frag(&mut out, owned("echo \"🔄 Restoring and reinstalling packages...\"\n\n"));
        let ghost head = strs(out@);
        let ps = &manifest.packages;
        let mut i: usize = 0;
        while i < ps.len()
            invariant
                i <= ps@.len(),
                strs(out@) == head + restore_blocks(ps@.take(i as int)),
            decreases ps@.len() - i,
        {
            push_restore_block(&mut out, &ps[i]);
            proof {
                assert(ps@.take(i + 1).drop_last() =~= ps@.take(i as int));
                assert(strs(out@) =~= head + restore_blocks(ps@.take(i + 1)));
            }
            i = i + 1;
        }
        assert(ps@.take(i as int) =~= ps@);
        push_frag(&mut out, owned("echo \"✨ Rollback and reinstall completed!\"\n"));
        proof {
            assert(strs(out@) =~= rollback_fragments(*manifest));
        }
        concat_frags(&out)
    }
}


/// The total disk size of the items.
pub open spec fn total_size(items: Seq<InventoryItem>) -> int
    decreases items.len(),
{
    if items.len() == 0 {
        0
    } else {
        total_size(items.drop_last()) + items.last().size_bytes
    }
}

pub proof fn lemma_total_size_mono(items: Seq<InventoryItem>, i: int)
    requires
        0 <= i <= items.len(),
    ensures
        total_size(items.take(i)) <= total_size(items),
    decreases items.len() - i,
{
    if i < items.len() {
        lemma_total_size_mono(items, i + 1);
        assert(items.take(i + 1).drop_last() =~= items.take(i));
    } else {
        assert(items.take(i) =~= items);
    }
}

/// The total disk size of the items, or `None` when it does not fit in a `u64`.
pub fn checked_total_size(items: &Vec<InventoryItem>) -> (r: Option<u64>)
    ensures
        r matches Some(t) ==> t == total_size(items@),
        r is None ==> total_size(items@) > u64::MAX,
{
    let mut t: u64 = 0;
    let mut i: usize = 0;
    while i < items.len()
        invariant
            i <= items@.len(),
            t == total_size(items@.take(i as int)),
        decreases items@.len() - i,
    {
        proof {
            assert(items@.take(i + 1).drop_last() =~= items@.take(i as int));
        }
        if items[i].size_bytes > u64::MAX - t {
            proof {
                lemma_total_size_mono(items@, i + 1);
            }
            return None;
        }
        t = t + items[i].size_bytes;
        i = i + 1;
    }
    assert(items@.take(i as int) =~= items@);
    Some(t)
}

/// The files and contents of a cleanup plan, ready to be written.
pub struct CleanupPlan {
    pub manifest: TombstoneManifest,
    pub cleanup_path: String,
    pub rollback_path: String,
    pub manifest_path: String,
    pub cleanup_script: String,
    pub rollback_script: String,
}

impl ScriptGenerator {
    /// Lays out a cleanup plan: the manifest of the items' tombstones (one per
    /// pruned item, in order, each with the metadata found for it, its purge
    /// commands and its time of removal), its totals, the three file paths named
    /// after the time stamp, and the two scripts.
    pub fn plan(
        items: &Vec<InventoryItem>,
        metas: &Vec<AssociatedMetadata>,
        purges: &Vec<Vec<String>>,
        removed_at: &Vec<Timestamp>,
        stamp_time: Timestamp,
        created_at: Timestamp,
        output_dir: &str,
    ) -> (r: CleanupPlan)
        requires
            total_size(items@) <= u64::MAX,
            metas@.len() == items@.len(),
            purges@.len() == items@.len(),
            removed_at@.len() == items@.len(),
        ensures
            r.manifest.manifest_id@ == "cleanup_"@ + compact_stamp_text(stamp_time.secs, stamp_time.nanos),
            r.manifest.created_at == created_at,
            r.manifest.total_packages == items@.len(),
            r.manifest.total_reclaimed_bytes == total_size(items@),
            r.manifest.packages@.len() == items@.len(),
            forall|k: int| 0 <= k < items@.len() ==> tombstone_of(
                items@[k],
                metas@[k],
                purges@[k]@,
                removed_at@[k],
                #[trigger] r.manifest.packages@[k],
            ),
            r.cleanup_path@ == join_path(
                output_dir@,
                "cleanup_"@ + compact_stamp_text(stamp_time.secs, stamp_time.nanos) + ".sh"@,
            ),
            r.rollback_path@ == join_path(
                output_dir@,
                "rollback_reinstall_"@ + compact_stamp_text(stamp_time.secs, stamp_time.nanos) + ".sh"@,
            ),
            r.manifest_path@ == join_path(
                output_dir@,
                "cleanup_manifest_"@ + compact_stamp_text(stamp_time.secs, stamp_time.nanos) + ".json"@,
            ),
            r.cleanup_script@ == cleanup_script_text(r.manifest),
            r.rollback_script@ == rollback_script_text(r.manifest),
    {
        let stamp = compact_stamp(stamp_time);
        let manifest_id = cat("cleanup_", stamp.as_str());
        let cleanup_name = cat3("cleanup_", stamp.as_str(), ".sh");
        let rollback_name = cat3("rollback_reinstall_", stamp.as_str(), ".sh");
        let manifest_name = cat3("cleanup_manifest_", stamp.as_str(), ".json");
        let mut tombstones: Vec<PackageTombstone> = Vec::new();
        let mut i: usize = 0;
        while i < items.len()
            invariant
                i <= items@.len(),
                metas@.len() == items@.len(),
                purges@.len() == items@.len(),
                removed_at@.len() == items@.len(),
                tombstones@.len() == i,
                forall|k: int| 0 <= k < i ==> tombstone_of(
                    items@[k],
                    metas@[k],
                    purges@[k]@,
                    removed_at@[k],
                    #[trigger] tombstones@[k],
                ),
            decreases items@.len() - i,
        {
            let t = items[i].to_tombstone(metas[i].clone(), clone_strings(&purges[i]), removed_at[i]);
            tombstones.push(t);
            i = i + 1;
        }
        let total = match checked_total_size(items) {
            Some(t) => t,
            None => 0,
        };
        let manifest = TombstoneManifest {
            manifest_id,
            created_at,
            total_packages: items.len(),
            total_reclaimed_bytes: total,
            packages: tombstones,
        };
        let cleanup_script = Self::render_cleanup_script(&manifest);
        let rollback_script = Self::render_rollback_script(&manifest);
        CleanupPlan {
            manifest,
            cleanup_path: path_join(output_dir, cleanup_name.as_str()),
            rollback_path: path_join(output_dir, rollback_name.as_str()),
            manifest_path: path_join(output_dir, manifest_name.as_str()),
            cleanup_script,
            rollback_script,
        }
    }
}


proof fn lemma_in_concat(fs: Seq<Seq<char>>, x: Seq<char>)
    requires
        fs.contains(x),
    ensures
        has_substring(concat(fs), x),
{
    let k = choose|k: int| 0 <= k < fs.len() && fs[k] == x;
    lemma_concat_contains(fs, k);
}

proof fn lemma_prefix_substring(a: Seq<char>, b: Seq<char>)
    ensures
        has_substring(a + b, a),
{
    assert((a + b).subrange(0, a.len() as int) =~= a);
    assert(occurs_at(a + b, a, 0));
}

proof fn lemma_contains_left(a: Seq<Seq<char>>, b: Seq<Seq<char>>, x: Seq<char>)
    requires
        a.contains(x),
    ensures
        (a + b).contains(x),
{
    let k = choose|k: int| 0 <= k < a.len() && a[k] == x;
    assert((a + b)[k] == x);
}

proof fn lemma_contains_right(a: Seq<Seq<char>>, b: Seq<Seq<char>>, x: Seq<char>)
    requires
        b.contains(x),
    ensures
        (a + b).contains(x),
{
    let k = choose|k: int| 0 <= k < b.len() && b[k] == x;
    assert((a + b)[a.len() + k] == x);
}

proof fn lemma_uninstall_blocks_contains(ps: Seq<PackageTombstone>, k: int, c: String)
    requires
        0 <= k < ps.len(),
        ps[k].uninstall_cmd == Some(c),
    ensures
        uninstall_blocks(ps).contains(c@ + "\n\n"@),
    decreases ps.len(),
{
    if k == ps.len() - 1 {
        assert(uninstall_block(ps.last())[4] == c@ + "\n\n"@);
        lemma_contains_right(uninstall_blocks(ps.drop_last()), uninstall_block(ps.last()), c@ + "\n\n"@);
    } else {
        assert(ps.drop_last()[k] == ps[k]);
        lemma_uninstall_blocks_contains(ps.drop_last(), k, c);
        lemma_contains_left(uninstall_blocks(ps.drop_last()), uninstall_block(ps.last()), c@ + "\n\n"@);
    }
}

proof fn lemma_command_lines_contains(cmds: Seq<String>, j: int)
    requires
        0 <= j < cmds.len(),
    ensures
        command_lines(cmds).contains(cmds[j]@ + "\n"@),
    decreases cmds.len(),
{
    if j == cmds.len() - 1 {
        let l = command_lines(cmds);
        assert(l[l.len() - 1] == cmds[j]@ + "\n"@);
    } else {
        assert(cmds.drop_last()[j] == cmds[j]);
        lemma_command_lines_contains(cmds.drop_last(), j);
        let w = choose|w: int| 0 <= w < command_lines(cmds.drop_last()).len() && command_lines(cmds.drop_last())[w] == cmds[j]@ + "\n"@;
        assert(command_lines(cmds)[w] == cmds[j]@ + "\n"@);
    }
}

proof fn lemma_purge_blocks_contains(ps: Seq<PackageTombstone>, k: int, j: int)
    requires
        0 <= k < ps.len(),
        0 <= j < ps[k].log_purge_cmds@.len(),
    ensures
        purge_blocks(ps).contains(ps[k].log_purge_cmds@[j]@ + "\n"@),
    decreases ps.len(),
{
    let x = ps[k].log_purge_cmds@[j]@ + "\n"@;
    if k == ps.len() - 1 {
        let t = ps.last();
        lemma_command_lines_contains(t.log_purge_cmds@, j);
        let head = seq!["# Logs & Caches for: "@ + t.name@ + "\n"@];
        lemma_contains_right(head, command_lines(t.log_purge_cmds@), x);
        lemma_contains_left(head + command_lines(t.log_purge_cmds@), seq!["\n"@], x);
        lemma_contains_right(purge_blocks(ps.drop_last()), purge_block(t), x);
    } else {
        assert(ps.drop_last()[k] == ps[k]);
        lemma_purge_blocks_contains(ps.drop_last(), k, j);
        lemma_contains_left(purge_blocks(ps.drop_last()), purge_block(ps.last()), x);
    }
}

proof fn lemma_restore_blocks_contains(ps: Seq<PackageTombstone>, k: int, r: String)
    requires
        0 <= k < ps.len(),
        ps[k].reinstall_cmd == Some(r),
    ensures
        restore_blocks(ps).contains(r@ + "\n\n"@),
    decreases ps.len(),
{
    let x = r@ + "\n\n"@;
    if k == ps.len() - 1 {
        let t = ps.last();
        let b = restore_block(t);
        assert(b[b.len() - 1] == x);
        lemma_contains_right(restore_blocks(ps.drop_last()), b, x);
    } else {
        assert(ps.drop_last()[k] == ps[k]);
        lemma_restore_blocks_contains(ps.drop_last(), k, r);
        lemma_contains_left(restore_blocks(ps.drop_last()), restore_block(ps.last()), x);
    }
}

/// Phase 1 of the cleanup script runs the uninstall command of every package of
/// the manifest that has one.
pub proof fn cleanup_script_runs_every_uninstall(m: TombstoneManifest, k: int, c: String)
    requires
        0 <= k < m.packages@.len(),
        m.packages@[k].uninstall_cmd == Some(c),
    ensures
        has_substring(cleanup_script_text(m), c@),
{
    let x = c@ + "\n\n"@;
    let f = cleanup_fragments(m);
    lemma_uninstall_blocks_contains(m.packages@, k, c);
    let w = choose|w: int| 0 <= w < uninstall_blocks(m.packages@).len() && uninstall_blocks(m.packages@)[w] == x;
    assert(f[13 + w] == x);
    lemma_in_concat(f, x);
    lemma_prefix_substring(c@, "\n\n"@);
    lemma_substring_trans(cleanup_script_text(m), x, c@);
}

/// Phase 2 of the cleanup script runs every log and cache purge command of every
/// package of the manifest.
pub proof fn cleanup_script_runs_every_purge(m: TombstoneManifest, k: int, j: int)
    requires
        0 <= k < m.packages@.len(),
        0 <= j < m.packages@[k].log_purge_cmds@.len(),
    ensures
        has_substring(cleanup_script_text(m), m.packages@[k].log_purge_cmds@[j]@),
{
    let cmd = m.packages@[k].log_purge_cmds@[j]@;
    let x = cmd + "\n"@;
    let f = cleanup_fragments(m);
    lemma_purge_blocks_contains(m.packages@, k, j);
    let u = uninstall_blocks(m.packages@);
    let w = choose|w: int| 0 <= w < purge_blocks(m.packages@).len() && purge_blocks(m.packages@)[w] == x;
    assert(f[13 + u.len() + 1 + w] == x);
    lemma_in_concat(f, x);
    lemma_prefix_substring(cmd, "\n"@);
    lemma_substring_trans(cleanup_script_text(m), x, cmd);
}

/// The rollback script runs the reinstall command of every package of the
/// manifest that has one.
pub proof fn rollback_script_reinstalls_every_package(m: TombstoneManifest, k: int, r: String)
    requires
        0 <= k < m.packages@.len(),
        m.packages@[k].reinstall_cmd == Some(r),
    ensures
        has_substring(rollback_script_text(m), r@),
{
    let x = r@ + "\n\n"@;
    let f = rollback_fragments(m);
    lemma_restore_blocks_contains(m.packages@, k, r);
    let w = choose|w: int| 0 <= w < restore_blocks(m.packages@).len() && restore_blocks(m.packages@)[w] == x;
    assert(f[9 + w] == x);
    lemma_in_concat(f, x);
    lemma_prefix_substring(r@, "\n\n"@);
    lemma_substring_trans(rollback_script_text(m), x, r@);
}

/// The cleanup script up to the Phase 2 banner: the header and the uninstalls.
pub open spec fn phase_one_text(m: TombstoneManifest) -> Seq<char> {
    concat(cleanup_fragments(m).take(13 + uninstall_blocks(m.packages@).len() as int))
}

/// The cleanup script from the Phase 2 banner on: the purges and the closing lines.
pub open spec fn phase_two_text(m: TombstoneManifest) -> Seq<char> {
    concat(cleanup_fragments(m).skip(13 + uninstall_blocks(m.packages@).len() as int))
}

/// The two phases of the cleanup script come in order: the script is its Phase 1
/// part followed by its Phase 2 part; every uninstall command stands in the first
/// and every purge command in the second, so no purge runs before the uninstalls.
pub proof fn uninstalls_precede_purges(m: TombstoneManifest)
    ensures
        cleanup_script_text(m) == phase_one_text(m) + phase_two_text(m),
        has_substring(phase_two_text(m), "# PHASE 2: Targeted Log Files & Transient Cache Purge\n"@),
        forall|k: int|
            0 <= k < m.packages@.len() && (#[trigger] m.packages@[k]).uninstall_cmd is Some ==> has_substring(
                phase_one_text(m),
                m.packages@[k].uninstall_cmd->0@,
            ),
        forall|k: int, j: int|
            0 <= k < m.packages@.len() && 0 <= j < m.packages@[k].log_purge_cmds@.len() ==> has_substring(
                phase_two_text(m),
                #[trigger] m.packages@[k].log_purge_cmds@[j]@,
            ),
{
    let f = cleanup_fragments(m);
    let u = uninstall_blocks(m.packages@);
    let n = 13 + u.len();
    assert(f.take(n as int) + f.skip(n as int) =~= f);
    lemma_concat_append(f.take(n as int), f.skip(n as int));
    let banner = "# -----------------------------------------------------------------------------\n# PHASE 2: Targeted Log Files & Transient Cache Purge\n# (Configurations and environment settings are kept completely intact!)\n# -----------------------------------------------------------------------------\n\n"@;
    let pb = "# PHASE 2: Targeted Log Files & Transient Cache Purge\n"@;
    assert(f.skip(n as int)[0] == banner);
    lemma_concat_contains(f.skip(n as int), 0);
    let pre = "# -----------------------------------------------------------------------------\n"@;
    let rest = "# (Configurations and environment settings are kept completely intact!)\n# -----------------------------------------------------------------------------\n\n"@;
    reveal_strlit("# -----------------------------------------------------------------------------\n# PHASE 2: Targeted Log Files & Transient Cache Purge\n# (Configurations and environment settings are kept completely intact!)\n# -----------------------------------------------------------------------------\n\n");
    reveal_strlit("# -----------------------------------------------------------------------------\n");
    reveal_strlit("# PHASE 2: Targeted Log Files & Transient Cache Purge\n");
    reveal_strlit("# (Configurations and environment settings are kept completely intact!)\n# -----------------------------------------------------------------------------\n\n");
    assert(banner =~= pre + pb + rest);
    assert((pre + pb + rest).subrange(pre.len() as int, (pre.len() + pb.len()) as int) =~= pb);
    assert(occurs_at(banner, pb, pre.len() as int));
    lemma_substring_trans(phase_two_text(m), banner, pb);
    assert forall|k: int|
        0 <= k < m.packages@.len() && (#[trigger] m.packages@[k]).uninstall_cmd is Some implies has_substring(
            phase_one_text(m),
            m.packages@[k].uninstall_cmd->0@,
        ) by {
        let c = m.packages@[k].uninstall_cmd->0;
        lemma_uninstall_blocks_contains(m.packages@, k, c);
        let x = c@ + "\n\n"@;
        let w = choose|w: int| 0 <= w < u.len() && u[w] == x;
        assert(f.take(n as int)[13 + w] == x);
        lemma_concat_contains(f.take(n as int), 13 + w);
        lemma_prefix_substring(c@, "\n\n"@);
        lemma_substring_trans(phase_one_text(m), x, c@);
    }
    assert forall|k: int, j: int|
        0 <= k < m.packages@.len() && 0 <= j < m.packages@[k].log_purge_cmds@.len() implies has_substring(
            phase_two_text(m),
            #[trigger] m.packages@[k].log_purge_cmds@[j]@,
        ) by {
        lemma_purge_blocks_contains(m.packages@, k, j);
        let cmd = m.packages@[k].log_purge_cmds@[j]@;
        let x = cmd + "\n"@;
        let pbs = purge_blocks(m.packages@);
        let w = choose|w: int| 0 <= w < pbs.len() && pbs[w] == x;
        assert(f.skip(n as int)[1 + w] == x);
        lemma_concat_contains(f.skip(n as int), 1 + w);
        lemma_prefix_substring(cmd, "\n"@);
        lemma_substring_trans(phase_two_text(m), x, cmd);
    }
}

} // verus!
