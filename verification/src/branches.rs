//! The branch builder: emits the SQL text of each physical branch of the
//! state reader (transaction, untracked, cache and the inheritance variants)
//! and assembles the final union, with the optional recursive inheritance
//! CTE around it.
//!
//! Every builder's result is pinned exactly by a spec function, so the
//! emitted SQL is a mathematical function of the inputs.

use vstd::prelude::*;
use crate::text::{
    spec_escape_quotes, escape_quotes, spec_escape_dquotes, escape_dquotes, spec_sanitize,
    sanitize_chars, spec_is_simple_ident, is_simple_ident, spec_trim_end, trim_end_str,
};

verus! {

/// The view of an optional string argument.
pub open spec fn spec_opt_view(k: Option<&String>) -> Option<Seq<char>> {
    match k {
        Some(s) => Some(s@),
        None => None,
    }
}

/// The schema-key equality filter injected into a branch's WHERE clause:
/// the given head, the escaped key, and a closing quote; empty without a key.
pub open spec fn spec_key_filter(head: Seq<char>, key: Option<Seq<char>>) -> Seq<char> {
    match key {
        Some(k) => head + spec_escape_quotes(k) + "'"@,
        None => Seq::empty(),
    }
}

fn key_filter(head: &str, key: Option<&String>) -> (r: String)
    ensures
        r@ == spec_key_filter(head@, spec_opt_view(key)),
{
    match key {
        Some(k) => {
            let mut r = String::from_str(head);
            r.append(escape_quotes(k.as_str()).as_str());
            r.append("'");
            r
        },
        None => String::new(),
    }
}

/// The shard table that holds one logical schema's materialised rows.
pub open spec fn spec_cache_table_name(key: Seq<char>) -> Seq<char> {
    "internal_state_cache_"@ + spec_sanitize(key)
}

/// Maps a schema key to its shard table name.
pub fn cache_table_name(key: &str) -> (r: String)
    ensures
        r@ == spec_cache_table_name(key@),
{
    let mut r = String::from_str("internal_state_cache_");
    r.append(sanitize_chars(key).as_str());
    r
}

/// A name as it may stand in emitted SQL: bare if simple, else double
/// quoted with embedded double quotes doubled.
pub open spec fn spec_format_ident(name: Seq<char>) -> Seq<char> {
    if spec_is_simple_ident(name) {
        name
    } else {
        "\""@ + spec_escape_dquotes(name) + "\""@
    }
}

pub fn format_identifier(name: &str) -> (r: String)
    ensures
        r@ == spec_format_ident(name@),
{
    if is_simple_ident(name) {
        String::from_str(name)
    } else {
        let mut r = String::from_str("\"");
        r.append(escape_dquotes(name).as_str());
        r.append("\"");
        r
    }
}


/// The transaction branch (tag `T`).
pub open spec fn spec_txn_branch(key: Option<Seq<char>>) -> Seq<char> {
    "SELECT\n\t'T' || '~' || lix_encode_pk_part(txn.file_id) || '~' || lix_encode_pk_part(txn.entity_id) || '~' || lix_encode_pk_part(txn.version_id) AS _pk,\n\ttxn.entity_id,\n\ttxn.schema_key,\n\ttxn.file_id,\n\ttxn.plugin_key,\n\tjson(txn.snapshot_content) AS snapshot_content,\n\ttxn.schema_version,\n\ttxn.version_id,\n\ttxn.created_at,\n\ttxn.created_at AS updated_at,\n\tNULL AS inherited_from_version_id,\n\ttxn.id AS change_id,\n\ttxn.untracked,\n\t'pending' AS commit_id,\n\tjson(txn.metadata) AS metadata,\n\tws_txn.writer_key\nFROM internal_transaction_state txn\nLEFT JOIN internal_state_writer ws_txn ON\n\tws_txn.file_id = txn.file_id AND\n\tws_txn.entity_id = txn.entity_id AND\n\tws_txn.schema_key = txn.schema_key AND\n\tws_txn.version_id = txn.version_id\n"@ + spec_key_filter("WHERE txn.schema_key = '"@, key)
}

pub fn build_transaction_branch(key: Option<&String>) -> (r: String)
    ensures
        r@ == spec_txn_branch(spec_opt_view(key)),
{
    let mut r = String::from_str("SELECT\n\t'T' || '~' || lix_encode_pk_part(txn.file_id) || '~' || lix_encode_pk_part(txn.entity_id) || '~' || lix_encode_pk_part(txn.version_id) AS _pk,\n\ttxn.entity_id,\n\ttxn.schema_key,\n\ttxn.file_id,\n\ttxn.plugin_key,\n\tjson(txn.snapshot_content) AS snapshot_content,\n\ttxn.schema_version,\n\ttxn.version_id,\n\ttxn.created_at,\n\ttxn.created_at AS updated_at,\n\tNULL AS inherited_from_version_id,\n\ttxn.id AS change_id,\n\ttxn.untracked,\n\t'pending' AS commit_id,\n\tjson(txn.metadata) AS metadata,\n\tws_txn.writer_key\nFROM internal_transaction_state txn\nLEFT JOIN internal_state_writer ws_txn ON\n\tws_txn.file_id = txn.file_id AND\n\tws_txn.entity_id = txn.entity_id AND\n\tws_txn.schema_key = txn.schema_key AND\n\tws_txn.version_id = txn.version_id\n");
    r.append(key_filter("WHERE txn.schema_key = '", key).as_str());
    r
}


/// The untracked branch (tag `U`).
pub open spec fn spec_untracked_branch(key: Option<Seq<char>>) -> Seq<char> {
    "SELECT\n\t'U' || '~' || lix_encode_pk_part(u.file_id) || '~' || lix_encode_pk_part(u.entity_id) || '~' || lix_encode_pk_part(u.version_id) AS _pk,\n\tu.entity_id,\n\tu.schema_key,\n\tu.file_id,\n\tu.plugin_key,\n\tjson(u.snapshot_content) AS snapshot_content,\n\tu.schema_version,\n\tu.version_id,\n\tu.created_at,\n\tu.updated_at,\n\tNULL AS inherited_from_version_id,\n\t'untracked' AS change_id,\n\t1 AS untracked,\n\t'untracked' AS commit_id,\n\tNULL AS metadata,\n\tws_untracked.writer_key\nFROM internal_state_all_untracked u\nLEFT JOIN internal_state_writer ws_untracked ON\n\tws_untracked.file_id = u.file_id AND\n\tws_untracked.entity_id = u.entity_id AND\n\tws_untracked.schema_key = u.schema_key AND\n\tws_untracked.version_id = u.version_id\nWHERE u.inheritance_delete_marker = 0\n\tAND u.snapshot_content IS NOT NULL\n\t"@ + spec_key_filter("AND u.schema_key = '"@, key) + "\nAND NOT EXISTS (\n\tSELECT 1 FROM internal_transaction_state t\n\tWHERE t.version_id = u.version_id\n\t\tAND t.file_id = u.file_id\n\t\tAND t.schema_key = u.schema_key\n\t\tAND t.entity_id = u.entity_id\n)\nAND NOT EXISTS (\n\tSELECT 1 FROM internal_state_all_untracked child_unt\n\tWHERE child_unt.version_id = u.version_id\n\t\tAND child_unt.file_id = u.file_id\n\t\tAND child_unt.schema_key = u.schema_key\n\t\tAND child_unt.entity_id = u.entity_id\n\t\tAND child_unt.rowid != u.rowid\n)"@
}

pub fn build_untracked_branch(key: Option<&String>) -> (r: String)
    ensures
        r@ == spec_untracked_branch(spec_opt_view(key)),
{
    let mut r = String::from_str("SELECT\n\t'U' || '~' || lix_encode_pk_part(u.file_id) || '~' || lix_encode_pk_part(u.entity_id) || '~' || lix_encode_pk_part(u.version_id) AS _pk,\n\tu.entity_id,\n\tu.schema_key,\n\tu.file_id,\n\tu.plugin_key,\n\tjson(u.snapshot_content) AS snapshot_content,\n\tu.schema_version,\n\tu.version_id,\n\tu.created_at,\n\tu.updated_at,\n\tNULL AS inherited_from_version_id,\n\t'untracked' AS change_id,\n\t1 AS untracked,\n\t'untracked' AS commit_id,\n\tNULL AS metadata,\n\tws_untracked.writer_key\nFROM internal_state_all_untracked u\nLEFT JOIN internal_state_writer ws_untracked ON\n\tws_untracked.file_id = u.file_id AND\n\tws_untracked.entity_id = u.entity_id AND\n\tws_untracked.schema_key = u.schema_key AND\n\tws_untracked.version_id = u.version_id\nWHERE u.inheritance_delete_marker = 0\n\tAND u.snapshot_content IS NOT NULL\n\t");
    r.append(key_filter("AND u.schema_key = '", key).as_str());
    r.append("\nAND NOT EXISTS (\n\tSELECT 1 FROM internal_transaction_state t\n\tWHERE t.version_id = u.version_id\n\t\tAND t.file_id = u.file_id\n\t\tAND t.schema_key = u.schema_key\n\t\tAND t.entity_id = u.entity_id\n)\nAND NOT EXISTS (\n\tSELECT 1 FROM internal_state_all_untracked child_unt\n\tWHERE child_unt.version_id = u.version_id\n\t\tAND child_unt.file_id = u.file_id\n\t\tAND child_unt.schema_key = u.schema_key\n\t\tAND child_unt.entity_id = u.entity_id\n\t\tAND child_unt.rowid != u.rowid\n)");
    r
}


/// The direct cache branch (tag `C`); `table` is the formatted identifier
/// the branch reads from.
pub open spec fn spec_cache_branch(key: Option<Seq<char>>, table: Seq<char>) -> Seq<char> {
    "SELECT\n\t'C' || '~' || lix_encode_pk_part(c.file_id) || '~' || lix_encode_pk_part(c.entity_id) || '~' || lix_encode_pk_part(c.version_id) AS _pk,\n\tc.entity_id,\n\tc.schema_key,\n\tc.file_id,\n\tc.plugin_key,\n\tjson(c.snapshot_content) AS snapshot_content,\n\tc.schema_version,\n\tc.version_id,\n\tc.created_at,\n\tc.updated_at,\n\tc.inherited_from_version_id,\n\tc.change_id,\n\t0 AS untracked,\n\tc.commit_id,\n\tch.metadata AS metadata,\n\tws_cache.writer_key\nFROM "@ + table + " AS c\nLEFT JOIN change ch ON ch.id = c.change_id\nLEFT JOIN internal_state_writer ws_cache ON\n\tws_cache.file_id = c.file_id AND\n\tws_cache.entity_id = c.entity_id AND\n\tws_cache.schema_key = c.schema_key AND\n\tws_cache.version_id = c.version_id\nWHERE (\n\t(c.inheritance_delete_marker = 0 AND c.snapshot_content IS NOT NULL) OR\n\t(c.inheritance_delete_marker = 1 AND c.snapshot_content IS NULL)\n)\n\t"@ + spec_key_filter("AND c.schema_key = '"@, key) + "\nAND NOT EXISTS (\n\tSELECT 1 FROM internal_transaction_state t\n\tWHERE t.version_id = c.version_id\n\t\tAND t.file_id = c.file_id\n\t\tAND t.schema_key = c.schema_key\n\t\tAND t.entity_id = c.entity_id\n)\nAND NOT EXISTS (\n\tSELECT 1 FROM internal_state_all_untracked u\n\tWHERE u.version_id = c.version_id\n\t\tAND u.file_id = c.file_id\n\t\tAND u.schema_key = c.schema_key\n\t\tAND u.entity_id = c.entity_id\n)"@
}

pub fn build_cache_branch(key: Option<&String>, table: &String) -> (r: String)
    ensures
        r@ == spec_cache_branch(spec_opt_view(key), table@),
{
    let mut r = String::from_str("SELECT\n\t'C' || '~' || lix_encode_pk_part(c.file_id) || '~' || lix_encode_pk_part(c.entity_id) || '~' || lix_encode_pk_part(c.version_id) AS _pk,\n\tc.entity_id,\n\tc.schema_key,\n\tc.file_id,\n\tc.plugin_key,\n\tjson(c.snapshot_content) AS snapshot_content,\n\tc.schema_version,\n\tc.version_id,\n\tc.created_at,\n\tc.updated_at,\n\tc.inherited_from_version_id,\n\tc.change_id,\n\t0 AS untracked,\n\tc.commit_id,\n\tch.metadata AS metadata,\n\tws_cache.writer_key\nFROM ");
    r.append(table.as_str());
    r.append(" AS c\nLEFT JOIN change ch ON ch.id = c.change_id\nLEFT JOIN internal_state_writer ws_cache ON\n\tws_cache.file_id = c.file_id AND\n\tws_cache.entity_id = c.entity_id AND\n\tws_cache.schema_key = c.schema_key AND\n\tws_cache.version_id = c.version_id\nWHERE (\n\t(c.inheritance_delete_marker = 0 AND c.snapshot_content IS NOT NULL) OR\n\t(c.inheritance_delete_marker = 1 AND c.snapshot_content IS NULL)\n)\n\t");
    r.append(key_filter("AND c.schema_key = '", key).as_str());
    r.append("\nAND NOT EXISTS (\n\tSELECT 1 FROM internal_transaction_state t\n\tWHERE t.version_id = c.version_id\n\t\tAND t.file_id = c.file_id\n\t\tAND t.schema_key = c.schema_key\n\t\tAND t.entity_id = c.entity_id\n)\nAND NOT EXISTS (\n\tSELECT 1 FROM internal_state_all_untracked u\n\tWHERE u.version_id = c.version_id\n\t\tAND u.file_id = c.file_id\n\t\tAND u.schema_key = c.schema_key\n\t\tAND u.entity_id = c.entity_id\n)");
    r
}


/// The cache branch routed through the inheritance closure (tag `CI`).
pub open spec fn spec_cache_inh_branch(key: Option<Seq<char>>, table: Seq<char>) -> Seq<char> {
    "SELECT\n\t'CI' || '~' || lix_encode_pk_part(isc.file_id) || '~' || lix_encode_pk_part(isc.entity_id) || '~' || lix_encode_pk_part(vi.version_id) AS _pk,\n\tisc.entity_id,\n\tisc.schema_key,\n\tisc.file_id,\n\tisc.plugin_key,\n\tjson(isc.snapshot_content) AS snapshot_content,\n\tisc.schema_version,\n\tvi.version_id,\n\tisc.created_at,\n\tisc.updated_at,\n\tisc.version_id AS inherited_from_version_id,\n\tisc.change_id,\n\t0 AS untracked,\n\tisc.commit_id,\n\tch.metadata AS metadata,\n\tCOALESCE(ws_child.writer_key, ws_parent.writer_key) AS writer_key\nFROM version_inheritance vi\nJOIN "@ + table + " AS isc ON isc.version_id = vi.ancestor_version_id\nLEFT JOIN change ch ON ch.id = isc.change_id\nLEFT JOIN internal_state_writer ws_child ON\n\tws_child.file_id = isc.file_id AND\n\tws_child.entity_id = isc.entity_id AND\n\tws_child.schema_key = isc.schema_key AND\n\tws_child.version_id = vi.version_id\nLEFT JOIN internal_state_writer ws_parent ON\n\tws_parent.file_id = isc.file_id AND\n\tws_parent.entity_id = isc.entity_id AND\n\tws_parent.schema_key = isc.schema_key AND\n\tws_parent.version_id = isc.version_id\nWHERE isc.inheritance_delete_marker = 0\n\tAND isc.snapshot_content IS NOT NULL\n\t"@ + spec_key_filter("AND isc.schema_key = '"@, key) + "\nAND NOT EXISTS (\n\tSELECT 1 FROM internal_transaction_state t\n\tWHERE t.version_id = vi.version_id\n\t\tAND t.file_id = isc.file_id\n\t\tAND t.schema_key = isc.schema_key\n\t\tAND t.entity_id = isc.entity_id\n)\nAND NOT EXISTS (\n\tSELECT 1 FROM "@ + table + " child_isc\n\tWHERE child_isc.version_id = vi.version_id\n\t\tAND child_isc.file_id = isc.file_id\n\t\tAND child_isc.schema_key = isc.schema_key\n\t\tAND child_isc.entity_id = isc.entity_id\n)\nAND NOT EXISTS (\n\tSELECT 1 FROM internal_state_all_untracked child_unt\n\tWHERE child_unt.version_id = vi.version_id\n\t\tAND child_unt.file_id = isc.file_id\n\t\tAND child_unt.schema_key = isc.schema_key\n\t\tAND child_unt.entity_id = isc.entity_id\n)"@
}

pub fn build_cache_inheritance_branch(key: Option<&String>, table: &String) -> (r: String)
    ensures
        r@ == spec_cache_inh_branch(spec_opt_view(key), table@),
{
    let mut r = String::from_str("SELECT\n\t'CI' || '~' || lix_encode_pk_part(isc.file_id) || '~' || lix_encode_pk_part(isc.entity_id) || '~' || lix_encode_pk_part(vi.version_id) AS _pk,\n\tisc.entity_id,\n\tisc.schema_key,\n\tisc.file_id,\n\tisc.plugin_key,\n\tjson(isc.snapshot_content) AS snapshot_content,\n\tisc.schema_version,\n\tvi.version_id,\n\tisc.created_at,\n\tisc.updated_at,\n\tisc.version_id AS inherited_from_version_id,\n\tisc.change_id,\n\t0 AS untracked,\n\tisc.commit_id,\n\tch.metadata AS metadata,\n\tCOALESCE(ws_child.writer_key, ws_parent.writer_key) AS writer_key\nFROM version_inheritance vi\nJOIN ");
    r.append(table.as_str());
    r.append(" AS isc ON isc.version_id = vi.ancestor_version_id\nLEFT JOIN change ch ON ch.id = isc.change_id\nLEFT JOIN internal_state_writer ws_child ON\n\tws_child.file_id = isc.file_id AND\n\tws_child.entity_id = isc.entity_id AND\n\tws_child.schema_key = isc.schema_key AND\n\tws_child.version_id = vi.version_id\nLEFT JOIN internal_state_writer ws_parent ON\n\tws_parent.file_id = isc.file_id AND\n\tws_parent.entity_id = isc.entity_id AND\n\tws_parent.schema_key = isc.schema_key AND\n\tws_parent.version_id = isc.version_id\nWHERE isc.inheritance_delete_marker = 0\n\tAND isc.snapshot_content IS NOT NULL\n\t");
    r.append(key_filter("AND isc.schema_key = '", key).as_str());
    r.append("\nAND NOT EXISTS (\n\tSELECT 1 FROM internal_transaction_state t\n\tWHERE t.version_id = vi.version_id\n\t\tAND t.file_id = isc.file_id\n\t\tAND t.schema_key = isc.schema_key\n\t\tAND t.entity_id = isc.entity_id\n)\nAND NOT EXISTS (\n\tSELECT 1 FROM ");
    r.append(table.as_str());
    r.append(" child_isc\n\tWHERE child_isc.version_id = vi.version_id\n\t\tAND child_isc.file_id = isc.file_id\n\t\tAND child_isc.schema_key = isc.schema_key\n\t\tAND child_isc.entity_id = isc.entity_id\n)\nAND NOT EXISTS (\n\tSELECT 1 FROM internal_state_all_untracked child_unt\n\tWHERE child_unt.version_id = vi.version_id\n\t\tAND child_unt.file_id = isc.file_id\n\t\tAND child_unt.schema_key = isc.schema_key\n\t\tAND child_unt.entity_id = isc.entity_id\n)");
    r
}


/// The clause pruning inherited rows that a shard already materialises for
/// the descendant version; `mid` carries the branch's source alias fields.
pub open spec fn spec_cache_prune(
    include_cache: bool,
    table: Option<Seq<char>>,
    mid: Seq<char>,
) -> Seq<char> {
    if include_cache && table is Some {
        "AND NOT EXISTS (\n\tSELECT 1 FROM "@ + table->0 + mid
    } else {
        Seq::empty()
    }
}

fn cache_prune(include_cache: bool, table: Option<&String>, mid: &str) -> (r: String)
    ensures
        r@ == spec_cache_prune(include_cache, spec_opt_view(table), mid@),
{
    if include_cache {
        match table {
            Some(t) => {
                let mut r = String::from_str("AND NOT EXISTS (\n\tSELECT 1 FROM ");
                r.append(t.as_str());
                r.append(mid);
                r
            },
            None => String::new(),
        }
    } else {
        String::new()
    }
}


/// The untracked branch routed through the inheritance closure (tag `UI`).
pub open spec fn spec_inh_untracked_branch(
    key: Option<Seq<char>>,
    include_cache: bool,
    table: Option<Seq<char>>,
) -> Seq<char> {
    "SELECT\n\t'UI' || '~' || lix_encode_pk_part(unt.file_id) || '~' || lix_encode_pk_part(unt.entity_id) || '~' || lix_encode_pk_part(vi.version_id) AS _pk,\n\tunt.entity_id,\n\tunt.schema_key,\n\tunt.file_id,\n\tunt.plugin_key,\n\tjson(unt.snapshot_content) AS snapshot_content,\n\tunt.schema_version,\n\tvi.version_id,\n\tunt.created_at,\n\tunt.updated_at,\n\tunt.version_id AS inherited_from_version_id,\n\t'untracked' AS change_id,\n\t1 AS untracked,\n\t'untracked' AS commit_id,\n\tNULL AS metadata,\n\tCOALESCE(ws_child.writer_key, ws_parent.writer_key) AS writer_key\nFROM version_inheritance vi\nJOIN internal_state_all_untracked unt ON unt.version_id = vi.ancestor_version_id\nLEFT JOIN internal_state_writer ws_child ON\n\tws_child.file_id = unt.file_id AND\n\tws_child.entity_id = unt.entity_id AND\n\tws_child.schema_key = unt.schema_key AND\n\tws_child.version_id = vi.version_id\nLEFT JOIN internal_state_writer ws_parent ON\n\tws_parent.file_id = unt.file_id AND\n\tws_parent.entity_id = unt.entity_id AND\n\tws_parent.schema_key = unt.schema_key AND\n\tws_parent.version_id = unt.version_id\nWHERE unt.inheritance_delete_marker = 0\n\tAND unt.snapshot_content IS NOT NULL\n\t"@ + spec_key_filter("AND unt.schema_key = '"@, key) + "\nAND NOT EXISTS (\n\tSELECT 1 FROM internal_transaction_state t\n\tWHERE t.version_id = vi.version_id\n\t\tAND t.file_id = unt.file_id\n\t\tAND t.schema_key = unt.schema_key\n\t\tAND t.entity_id = unt.entity_id\n)\n"@
        + spec_cache_prune(include_cache, table, " child_isc\n\tWHERE child_isc.version_id = vi.version_id\n\t\tAND child_isc.file_id = unt.file_id\n\t\tAND child_isc.schema_key = unt.schema_key\n\t\tAND child_isc.entity_id = unt.entity_id\n)"@) + "\nAND NOT EXISTS (\n\tSELECT 1 FROM internal_state_all_untracked child_unt\n\tWHERE child_unt.version_id = vi.version_id\n\t\tAND child_unt.file_id = unt.file_id\n\t\tAND child_unt.schema_key = unt.schema_key\n\t\tAND child_unt.entity_id = unt.entity_id\n\t\tAND child_unt.rowid != unt.rowid\n)"@
}

pub fn build_inherited_untracked_branch(
    key: Option<&String>,
    include_cache: bool,
    table: Option<&String>,
) -> (r: String)
    ensures
        r@ == spec_inh_untracked_branch(spec_opt_view(key), include_cache, spec_opt_view(table)),
{
    let mut r = String::from_str("SELECT\n\t'UI' || '~' || lix_encode_pk_part(unt.file_id) || '~' || lix_encode_pk_part(unt.entity_id) || '~' || lix_encode_pk_part(vi.version_id) AS _pk,\n\tunt.entity_id,\n\tunt.schema_key,\n\tunt.file_id,\n\tunt.plugin_key,\n\tjson(unt.snapshot_content) AS snapshot_content,\n\tunt.schema_version,\n\tvi.version_id,\n\tunt.created_at,\n\tunt.updated_at,\n\tunt.version_id AS inherited_from_version_id,\n\t'untracked' AS change_id,\n\t1 AS untracked,\n\t'untracked' AS commit_id,\n\tNULL AS metadata,\n\tCOALESCE(ws_child.writer_key, ws_parent.writer_key) AS writer_key\nFROM version_inheritance vi\nJOIN internal_state_all_untracked unt ON unt.version_id = vi.ancestor_version_id\nLEFT JOIN internal_state_writer ws_child ON\n\tws_child.file_id = unt.file_id AND\n\tws_child.entity_id = unt.entity_id AND\n\tws_child.schema_key = unt.schema_key AND\n\tws_child.version_id = vi.version_id\nLEFT JOIN internal_state_writer ws_parent ON\n\tws_parent.file_id = unt.file_id AND\n\tws_parent.entity_id = unt.entity_id AND\n\tws_parent.schema_key = unt.schema_key AND\n\tws_parent.version_id = unt.version_id\nWHERE unt.inheritance_delete_marker = 0\n\tAND unt.snapshot_content IS NOT NULL\n\t");
    r.append(key_filter("AND unt.schema_key = '", key).as_str());
    r.append("\nAND NOT EXISTS (\n\tSELECT 1 FROM internal_transaction_state t\n\tWHERE t.version_id = vi.version_id\n\t\tAND t.file_id = unt.file_id\n\t\tAND t.schema_key = unt.schema_key\n\t\tAND t.entity_id = unt.entity_id\n)\n");
    r.append(cache_prune(include_cache, table, " child_isc\n\tWHERE child_isc.version_id = vi.version_id\n\t\tAND child_isc.file_id = unt.file_id\n\t\tAND child_isc.schema_key = unt.schema_key\n\t\tAND child_isc.entity_id = unt.entity_id\n)").as_str());
    r.append("\nAND NOT EXISTS (\n\tSELECT 1 FROM internal_state_all_untracked child_unt\n\tWHERE child_unt.version_id = vi.version_id\n\t\tAND child_unt.file_id = unt.file_id\n\t\tAND child_unt.schema_key = unt.schema_key\n\t\tAND child_unt.entity_id = unt.entity_id\n\t\tAND child_unt.rowid != unt.rowid\n)");
    r
}


/// The transaction branch routed through one-hop parents (tag `TI`).
pub open spec fn spec_inh_txn_branch(
    key: Option<Seq<char>>,
    include_cache: bool,
    table: Option<Seq<char>>,
) -> Seq<char> {
    "SELECT\n\t'TI' || '~' || lix_encode_pk_part(txn.file_id) || '~' || lix_encode_pk_part(txn.entity_id) || '~' || lix_encode_pk_part(vi.version_id) AS _pk,\n\ttxn.entity_id,\n\ttxn.schema_key,\n\ttxn.file_id,\n\ttxn.plugin_key,\n\tjson(txn.snapshot_content) AS snapshot_content,\n\ttxn.schema_version,\n\tvi.version_id,\n\ttxn.created_at,\n\ttxn.created_at AS updated_at,\n\tvi.parent_version_id AS inherited_from_version_id,\n\ttxn.id AS change_id,\n\ttxn.untracked,\n\t'pending' AS commit_id,\n\tjson(txn.metadata) AS metadata,\n\tCOALESCE(ws_child.writer_key, ws_parent.writer_key) AS writer_key\nFROM version_parent vi\nJOIN internal_transaction_state txn ON txn.version_id = vi.parent_version_id\nLEFT JOIN internal_state_writer ws_child ON\n\tws_child.file_id = txn.file_id AND\n\tws_child.entity_id = txn.entity_id AND\n\tws_child.schema_key = txn.schema_key AND\n\tws_child.version_id = vi.version_id\nLEFT JOIN internal_state_writer ws_parent ON\n\tws_parent.file_id = txn.file_id AND\n\tws_parent.entity_id = txn.entity_id AND\n\tws_parent.schema_key = txn.schema_key AND\n\tws_parent.version_id = vi.parent_version_id\nWHERE vi.parent_version_id IS NOT NULL\n\tAND txn.snapshot_content IS NOT NULL\n\t"@ + spec_key_filter("AND txn.schema_key = '"@, key) + "\nAND NOT EXISTS (\n\tSELECT 1 FROM internal_transaction_state child_txn\n\tWHERE child_txn.version_id = vi.version_id\n\t\tAND child_txn.file_id = txn.file_id\n\t\tAND child_txn.schema_key = txn.schema_key\n\t\tAND child_txn.entity_id = txn.entity_id\n)\n"@
        + spec_cache_prune(include_cache, table, " child_isc\n\tWHERE child_isc.version_id = vi.version_id\n\t\tAND child_isc.file_id = txn.file_id\n\t\tAND child_isc.schema_key = txn.schema_key\n\t\tAND child_isc.entity_id = txn.entity_id\n)"@) + "\nAND NOT EXISTS (\n\tSELECT 1 FROM internal_state_all_untracked child_unt\n\tWHERE child_unt.version_id = vi.version_id\n\t\tAND child_unt.file_id = txn.file_id\n\t\tAND child_unt.schema_key = txn.schema_key\n\t\tAND child_unt.entity_id = txn.entity_id\n)"@
}

pub fn build_inherited_txn_branch(
    key: Option<&String>,
    include_cache: bool,
    table: Option<&String>,
) -> (r: String)
    ensures
        r@ == spec_inh_txn_branch(spec_opt_view(key), include_cache, spec_opt_view(table)),
{
    let mut r = String::from_str("SELECT\n\t'TI' || '~' || lix_encode_pk_part(txn.file_id) || '~' || lix_encode_pk_part(txn.entity_id) || '~' || lix_encode_pk_part(vi.version_id) AS _pk,\n\ttxn.entity_id,\n\ttxn.schema_key,\n\ttxn.file_id,\n\ttxn.plugin_key,\n\tjson(txn.snapshot_content) AS snapshot_content,\n\ttxn.schema_version,\n\tvi.version_id,\n\ttxn.created_at,\n\ttxn.created_at AS updated_at,\n\tvi.parent_version_id AS inherited_from_version_id,\n\ttxn.id AS change_id,\n\ttxn.untracked,\n\t'pending' AS commit_id,\n\tjson(txn.metadata) AS metadata,\n\tCOALESCE(ws_child.writer_key, ws_parent.writer_key) AS writer_key\nFROM version_parent vi\nJOIN internal_transaction_state txn ON txn.version_id = vi.parent_version_id\nLEFT JOIN internal_state_writer ws_child ON\n\tws_child.file_id = txn.file_id AND\n\tws_child.entity_id = txn.entity_id AND\n\tws_child.schema_key = txn.schema_key AND\n\tws_child.version_id = vi.version_id\nLEFT JOIN internal_state_writer ws_parent ON\n\tws_parent.file_id = txn.file_id AND\n\tws_parent.entity_id = txn.entity_id AND\n\tws_parent.schema_key = txn.schema_key AND\n\tws_parent.version_id = vi.parent_version_id\nWHERE vi.parent_version_id IS NOT NULL\n\tAND txn.snapshot_content IS NOT NULL\n\t");
    r.append(key_filter("AND txn.schema_key = '", key).as_str());
    r.append("\nAND NOT EXISTS (\n\tSELECT 1 FROM internal_transaction_state child_txn\n\tWHERE child_txn.version_id = vi.version_id\n\t\tAND child_txn.file_id = txn.file_id\n\t\tAND child_txn.schema_key = txn.schema_key\n\t\tAND child_txn.entity_id = txn.entity_id\n)\n");
    r.append(cache_prune(include_cache, table, " child_isc\n\tWHERE child_isc.version_id = vi.version_id\n\t\tAND child_isc.file_id = txn.file_id\n\t\tAND child_isc.schema_key = txn.schema_key\n\t\tAND child_isc.entity_id = txn.entity_id\n)").as_str());
    r.append("\nAND NOT EXISTS (\n\tSELECT 1 FROM internal_state_all_untracked child_unt\n\tWHERE child_unt.version_id = vi.version_id\n\t\tAND child_unt.file_id = txn.file_id\n\t\tAND child_unt.schema_key = txn.schema_key\n\t\tAND child_unt.entity_id = txn.entity_id\n)");
    r
}


/// One arm of the cache-union CTE: a bare select from one shard.
pub open spec fn spec_cache_union(name: Seq<char>) -> Seq<char> {
    "SELECT * FROM "@ + spec_format_ident(name)
}

pub fn build_cache_union(name: &String) -> (r: String)
    ensures
        r@ == spec_cache_union(name@),
{
    let mut r = String::from_str("SELECT * FROM ");
    r.append(format_identifier(name.as_str()).as_str());
    r
}

/// The body of the cache-union CTE: the shards' selects joined by UNION ALL.
pub open spec fn spec_union_body(tables: Seq<Seq<char>>) -> Seq<char>
    decreases tables.len(),
{
    if tables.len() == 0 {
        Seq::empty()
    } else if tables.len() == 1 {
        spec_cache_union(tables[0])
    } else {
        spec_union_body(tables.drop_last()) + "\nUNION ALL\n"@ + spec_cache_union(tables.last())
    }
}

pub fn build_union_body(tables: &Vec<String>) -> (r: String)
    ensures
        r@ == spec_union_body(tables.deep_view()),
{
    let ghost dv = tables.deep_view();
    let mut r = String::new();
    let mut i: usize = 0;
    proof {
        assert(dv.subrange(0, 0).len() == 0);
    }
    while i < tables.len()
        invariant
            dv == tables.deep_view(),
            dv.len() == tables@.len(),
            forall|j: int| 0 <= j < tables@.len() ==> dv[j] == tables@[j]@,
            i <= tables@.len(),
            r@ == spec_union_body(dv.subrange(0, i as int)),
        decreases tables@.len() - i,
    {
        if i > 0 {
            r.append("\nUNION ALL\n");
        }
        r.append(build_cache_union(&tables[i]).as_str());
        i += 1;
        proof {
            let pre = dv.subrange(0, i - 1);
            let cur = dv.subrange(0, i as int);
            assert(cur.drop_last() =~= pre);
            assert(cur.last() == dv[i - 1]);
        }
    }
    proof {
        assert(dv.subrange(0, dv.len() as int) =~= dv);
    }
    r
}

/// The union of the branch segments: each trimmed at its end, joined by a
/// blank-line UNION ALL separator.
pub open spec fn spec_join_union(segs: Seq<Seq<char>>) -> Seq<char>
    decreases segs.len(),
{
    if segs.len() == 0 {
        Seq::empty()
    } else if segs.len() == 1 {
        spec_trim_end(segs[0])
    } else {
        spec_join_union(segs.drop_last()) + "\n\nUNION ALL\n\n"@ + spec_trim_end(segs.last())
    }
}

pub fn join_with_union(segs: &Vec<String>) -> (r: String)
    ensures
        r@ == spec_join_union(segs.deep_view()),
{
    let ghost dv = segs.deep_view();
    let mut r = String::new();
    let mut i: usize = 0;
    proof {
        assert(dv.subrange(0, 0).len() == 0);
    }
    while i < segs.len()
        invariant
            dv == segs.deep_view(),
            dv.len() == segs@.len(),
            forall|j: int| 0 <= j < segs@.len() ==> dv[j] == segs@[j]@,
            i <= segs@.len(),
            r@ == spec_join_union(dv.subrange(0, i as int)),
        decreases segs@.len() - i,
    {
        if i > 0 {
            r.append("\n\nUNION ALL\n\n");
        }
        r.append(trim_end_str(segs[i].as_str()).as_str());
        i += 1;
        proof {
            let pre = dv.subrange(0, i - 1);
            let cur = dv.subrange(0, i as int);
            assert(cur.drop_last() =~= pre);
            assert(cur.last() == dv[i - 1]);
        }
    }
    proof {
        assert(dv.subrange(0, dv.len() as int) =~= dv);
    }
    r
}


/// The CTE list and wrapping select of the recursive inheritance form.
pub open spec fn spec_inheritance_cte(
    include_cache: bool,
    cache_table: Option<Seq<char>>,
    cache_union_cte: Option<Seq<char>>,
    descriptor: Seq<char>,
    union_sql: Seq<char>,
) -> Seq<char> {
    let lead: Seq<char> = if include_cache && cache_union_cte is Some {
        cache_union_cte->0 + ",\n\n"@
    } else if include_cache && cache_table is Some {
        "cache_union AS ("@ + spec_cache_union(cache_table->0) + ")"@ + ",\n\n"@
    } else {
        Seq::empty()
    };
    "WITH RECURSIVE "@ + lead + "version_descriptor_base AS (\n\tSELECT\n\t\tjson_extract(isc_v.snapshot_content, '$.id') AS version_id,\n\t\tjson_extract(isc_v.snapshot_content, '$.inherits_from_version_id') AS inherits_from_version_id\n\tFROM "@ + descriptor + " AS isc_v\n\tWHERE isc_v.inheritance_delete_marker = 0\n)"@ + ",\n\n"@
        + "version_inheritance(version_id, ancestor_version_id) AS (\n\tSELECT\n\t\tvdb.version_id,\n\t\tvdb.inherits_from_version_id\n\tFROM version_descriptor_base vdb\n\tWHERE vdb.inherits_from_version_id IS NOT NULL\n\n\tUNION\n\n\tSELECT\n\t\tvir.version_id,\n\t\tvdb.inherits_from_version_id\n\tFROM version_inheritance vir\n\tJOIN version_descriptor_base vdb ON vdb.version_id = vir.ancestor_version_id\n\tWHERE vdb.inherits_from_version_id IS NOT NULL\n)"@ + ",\n\n"@ + "version_parent AS (\n\tSELECT\n\t\tvdb.version_id,\n\t\tvdb.inherits_from_version_id AS parent_version_id\n\tFROM version_descriptor_base vdb\n\tWHERE vdb.inherits_from_version_id IS NOT NULL\n)"@
        + "\nSELECT DISTINCT * FROM ("@ + union_sql + ")"@
}

pub fn build_inheritance_cte(
    include_cache: bool,
    cache_table: Option<&String>,
    cache_union_cte: Option<&String>,
    descriptor: &String,
    union_sql: &String,
) -> (r: String)
    ensures
        r@ == spec_inheritance_cte(
            include_cache,
            spec_opt_view(cache_table),
            spec_opt_view(cache_union_cte),
            descriptor@,
            union_sql@,
        ),
{
    let mut r = String::from_str("WITH RECURSIVE ");
    if include_cache {
        match cache_union_cte {
            Some(cte) => {
                r.append(cte.as_str());
                r.append(",\n\n");
            },
            None => {
                match cache_table {
                    Some(t) => {
                        r.append("cache_union AS (");
                        r.append(build_cache_union(t).as_str());
                        r.append(")");
                        r.append(",\n\n");
                    },
                    None => {},
                }
            },
        }
    }
    r.append("version_descriptor_base AS (\n\tSELECT\n\t\tjson_extract(isc_v.snapshot_content, '$.id') AS version_id,\n\t\tjson_extract(isc_v.snapshot_content, '$.inherits_from_version_id') AS inherits_from_version_id\n\tFROM ");
    r.append(descriptor.as_str());
    r.append(" AS isc_v\n\tWHERE isc_v.inheritance_delete_marker = 0\n)");
    r.append(",\n\n");
    r.append("version_inheritance(version_id, ancestor_version_id) AS (\n\tSELECT\n\t\tvdb.version_id,\n\t\tvdb.inherits_from_version_id\n\tFROM version_descriptor_base vdb\n\tWHERE vdb.inherits_from_version_id IS NOT NULL\n\n\tUNION\n\n\tSELECT\n\t\tvir.version_id,\n\t\tvdb.inherits_from_version_id\n\tFROM version_inheritance vir\n\tJOIN version_descriptor_base vdb ON vdb.version_id = vir.ancestor_version_id\n\tWHERE vdb.inherits_from_version_id IS NOT NULL\n)");
    r.append(",\n\n");
    r.append("version_parent AS (\n\tSELECT\n\t\tvdb.version_id,\n\t\tvdb.inherits_from_version_id AS parent_version_id\n\tFROM version_descriptor_base vdb\n\tWHERE vdb.inherits_from_version_id IS NOT NULL\n)");
    r.append("\nSELECT DISTINCT * FROM (");
    r.append(union_sql.as_str());
    r.append(")");
    r
}


/// The ordered branch segments of a routed state-reader union: transaction,
/// untracked, cache, cache-inheritance, inherited-untracked, inherited-
/// transaction, each present under its admission rule.
pub open spec fn spec_reader_segments(
    key: Option<Seq<char>>,
    tables: Seq<Seq<char>>,
    inh: bool,
) -> Seq<Seq<char>> {
    let include_cache = tables.len() > 0;
    let cache_ident: Seq<char> = if key is Some {
        spec_format_ident(tables[0])
    } else {
        "cache_union"@
    };
    let base = seq![spec_txn_branch(key), spec_untracked_branch(key)];
    let with_cache = if include_cache {
        if inh {
            base.push(spec_cache_branch(key, cache_ident)).push(
                spec_cache_inh_branch(key, cache_ident),
            )
        } else {
            base.push(spec_cache_branch(key, cache_ident))
        }
    } else {
        base
    };
    let alias: Option<Seq<char>> = if include_cache {
        Some(cache_ident)
    } else {
        None
    };
    if inh {
        with_cache.push(spec_inh_untracked_branch(key, include_cache, alias)).push(
            spec_inh_txn_branch(key, include_cache, alias),
        )
    } else {
        with_cache
    }
}

/// The full derived-table SQL that replaces one state-reader reference.
pub open spec fn spec_reader_subquery(
    key: Option<Seq<char>>,
    tables: Seq<Seq<char>>,
    inh: bool,
) -> Seq<char> {
    let include_cache = tables.len() > 0;
    let union = spec_join_union(spec_reader_segments(key, tables, inh));
    let descriptor = spec_format_ident(spec_cache_table_name("lix_version_descriptor"@));
    if inh {
        let ct: Option<Seq<char>> = if include_cache && key is Some {
            Some(tables[0])
        } else {
            None
        };
        let cte: Option<Seq<char>> = if include_cache && key is None {
            Some("cache_union AS ("@ + spec_union_body(tables) + ")"@)
        } else {
            None
        };
        spec_inheritance_cte(include_cache, ct, cte, descriptor, union)
    } else if include_cache {
        if key is None {
            "WITH "@ + "cache_union AS ("@ + spec_union_body(tables) + ")"@
                + " SELECT DISTINCT * FROM ("@ + union + ")"@
        } else {
            "WITH cache_union AS ("@ + spec_cache_union(tables[0])
                + ") SELECT DISTINCT * FROM ("@ + union + ")"@
        }
    } else {
        "SELECT DISTINCT * FROM ("@ + union + ")"@
    }
}

/// Builds the derived-table SQL for one state-reader reference: the branch
/// union in its fixed order, wrapped in the cache-union CTE or the recursive
/// inheritance CTE as the inputs demand.
pub fn build_internal_state_reader_subquery(key: Option<&String>, tables: &Vec<String>, inh: bool) -> (r: String)
    ensures
        r@ == spec_reader_subquery(spec_opt_view(key), tables.deep_view(), inh),
{
    let ghost tv = tables.deep_view();
    let ghost kv = spec_opt_view(key);
    proof {
        assert(tv.len() == tables@.len());
        assert(forall|j: int| 0 <= j < tables@.len() ==> tv[j] == tables@[j]@);
    }
    let include_cache = tables.len() > 0;
    let mut segments: Vec<String> = Vec::new();
    segments.push(build_transaction_branch(key));
    segments.push(build_untracked_branch(key));
    let cache_ident: String = if include_cache {
        match key {
            Some(_) => format_identifier(tables[0].as_str()),
            None => String::from_str("cache_union"),
        }
    } else {
        String::new()
    };
    if include_cache {
        segments.push(build_cache_branch(key, &cache_ident));
        if inh {
            segments.push(build_cache_inheritance_branch(key, &cache_ident));
        }
    }
    if inh {
        let alias_opt: Option<&String> = if include_cache {
            Some(&cache_ident)
        } else {
            None
        };
        segments.push(build_inherited_untracked_branch(key, include_cache, alias_opt));
        segments.push(build_inherited_txn_branch(key, include_cache, alias_opt));
    }
    proof {
        assert(segments.deep_view() =~= spec_reader_segments(kv, tv, inh));
    }
    let union = join_with_union(&segments);
    let descriptor = format_identifier(cache_table_name("lix_version_descriptor").as_str());
    if inh {
        let ct: Option<&String> = if include_cache && key.is_some() {
            Some(&tables[0])
        } else {
            None
        };
        let cte_opt: Option<String> = if include_cache && key.is_none() {
            let mut c = String::from_str("cache_union AS (");
            c.append(build_union_body(tables).as_str());
            c.append(")");
            Some(c)
        } else {
            None
        };
        let cte_ref: Option<&String> = match &cte_opt {
            Some(c) => Some(c),
            None => None,
        };
        build_inheritance_cte(include_cache, ct, cte_ref, &descriptor, &union)
    } else if include_cache {
        match key {
            None => {
                let mut r = String::from_str("WITH ");
                r.append("cache_union AS (");
                r.append(build_union_body(tables).as_str());
                r.append(")");
                r.append(" SELECT DISTINCT * FROM (");
                r.append(union.as_str());
                r.append(")");
                r
            },
            Some(_) => {
                let mut r = String::from_str("WITH cache_union AS (");
                r.append(build_cache_union(&tables[0]).as_str());
                r.append(") SELECT DISTINCT * FROM (");
                r.append(union.as_str());
                r.append(")");
                r
            },
        }
    } else {
        let mut r = String::from_str("SELECT DISTINCT * FROM (");
        r.append(union.as_str());
        r.append(")");
        r
    }
}

} // verus!
