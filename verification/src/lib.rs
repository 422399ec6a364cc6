//! A verified core for a documentation-site crawler.
//!
//! The crawler loads a root page, discovers document links from a sidebar
//! navigation panel, and materializes each reachable document into a local
//! file tree. This crate holds the decision logic of that process — link
//! normalization, the deduplicating page registry, and the per-entry
//! materialization policy — with machine-checked contracts. The surrounding
//! browser and filesystem I/O lives outside the library and drives these
//! functions.

mod discover;
mod link;
mod materialize;
mod page;
mod registry;

pub use discover::anchor_key;
pub use discover::discover;
pub use discover::entry_from_first_anchor;
pub use discover::first_anchor_for;
pub use discover::registry_keys;
pub use discover::discovered_registry;
pub use discover::spec_discover_keys;

pub use link::LinkClass;
pub use link::NormalizedLink;
pub use link::fetch_url;
pub use link::index_key;
pub use link::lemma_external_classification;
pub use link::lemma_fetch_url_single_separator;
pub use link::lemma_root_alias_normalization;
pub use link::normalize;
pub use link::normalized_key;
pub use link::output_rel_path;
pub use link::root_sans_trailing_slash;
pub use link::spec_classify;
pub use link::spec_fetch_url;
pub use link::spec_output_rel_path;
pub use link::starts_with_http;

pub use materialize::Decision;
pub use materialize::decide;
pub use materialize::lemma_external_policy;
pub use materialize::lemma_materialization_idempotent;
pub use materialize::reconcile_root_alias;
pub use materialize::spec_decide;

pub use page::AnchorInfo;
pub use page::CrawlError;
pub use page::PageEntry;
pub use page::anchor_title;
pub use page::region_or_missing;

pub use registry::Registry;
pub use registry::fresh_entry;
pub use registry::has_key;
pub use registry::lemma_dedup_first_wins;
pub use registry::spec_register;
