//! The materializer's per-entry policy: given what is known of an entry —
//! whether its output file already exists, whether its content is already in
//! memory, and how its key classifies — decide what, if anything, is done
//! for it. The surrounding driver performs the filesystem probe, the fetch
//! and the write, and consults this policy between those steps.

use vstd::prelude::*;

use crate::link::has_http_prefix;
use crate::link::index_key;
use crate::link::is_root_slash;
use crate::link::starts_with_http;
use crate::page::PageEntry;

verus! {

/// What the materializer does with one registry entry, checked in this
/// order: existing output wins over everything, stored content over any
/// fetch, and the external-link policy over an internal fetch.
#[derive(Clone, Copy, Debug, PartialEq, Eq, Structural)]
pub enum Decision {
    /// A file already exists at the entry's output path: skip the entry
    /// entirely, fetching nothing and overwriting nothing.
    SkipExisting,
    /// No file yet, but the entry's content is already in memory (the root,
    /// captured during discovery): write the stored content, no fetch.
    WriteStored,
    /// An external link while external links are ignored: leave the entry
    /// empty and write nothing.
    SkipExternal,
    /// An external link while external fetching is disallowed: the fatal
    /// `UnsupportedExternalFetch` condition — the whole crawl aborts.
    AbortExternal,
    /// An internal page with no file and no content yet: resolve its fetch
    /// URL, fetch it, then store and write the fetched markup.
    FetchRequired,
}

/// The per-entry decision as a function of the entry's key, whether its
/// content is populated, whether its output file exists, and the
/// external-link policy.
pub open spec fn spec_decide(
    key: Seq<char>,
    has_content: bool,
    file_exists: bool,
    ignore_external: bool,
) -> Decision {
    if file_exists {
        Decision::SkipExisting
    } else if has_content {
        Decision::WriteStored
    } else if starts_with_http(key) {
        if ignore_external {
            Decision::SkipExternal
        } else {
            Decision::AbortExternal
        }
    } else {
        Decision::FetchRequired
    }
}

/// Decide what the materializer does with `entry`, `file_exists` reporting
/// whether a file already stands at the entry's output path.
pub fn decide(entry: &PageEntry, file_exists: bool, ignore_external: bool) -> (d: Decision)
    ensures
        d == spec_decide(entry.link@, entry.content is Some, file_exists, ignore_external),
{
    if file_exists {
        Decision::SkipExisting
    } else if entry.content.is_some() {
        Decision::WriteStored
    } else if has_http_prefix(entry.link.as_str()) {
        if ignore_external {
            Decision::SkipExternal
        } else {
            Decision::AbortExternal
        }
    } else {
        Decision::FetchRequired
    }
}

/// The materializer's first step on each entry: a literal `/` that slipped
/// into the registry from some other source is reconciled with the reserved
/// root key before any path is computed; every other link, and every other
/// field, is left untouched.
pub fn reconcile_root_alias(entry: &mut PageEntry)
    ensures
        old(entry).link@ == "/"@ ==> final(entry).link@ == index_key(),
        old(entry).link@ != "/"@ ==> final(entry).link@ == old(entry).link@,
        final(entry).title == old(entry).title,
        final(entry).content == old(entry).content,
        final(entry).children == old(entry).children,
{
    if is_root_slash(entry.link.as_str()) {
        entry.link = String::from_str("index");
    }
}

/// Idempotence of materialization: once every entry's file exists — as after
/// a completed run against the same output directory — the decision for
/// every entry, whatever its content or the external-link policy, is to skip
/// it, so a second run fetches and writes nothing.
pub proof fn lemma_materialization_idempotent(
    key: Seq<char>,
    has_content: bool,
    ignore_external: bool,
)
    ensures
        spec_decide(key, has_content, true, ignore_external) == Decision::SkipExisting,
{
}

/// The external-link policy: an external entry that was registered but not
/// yet materialized (no stored content, no existing file) is skipped — never
/// fetched, never written — when external links are ignored, and aborts the
/// crawl when they are not.
pub proof fn lemma_external_policy(key: Seq<char>)
    requires
        starts_with_http(key),
    ensures
        spec_decide(key, false, false, true) == Decision::SkipExternal,
        spec_decide(key, false, false, false) == Decision::AbortExternal,
{
}

} // verus!
