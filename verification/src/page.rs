//! The data model of a crawl: discovered pages, raw sidebar anchors, and the
//! fatal conditions that abort a crawl.

use vstd::prelude::*;

verus! {

/// One discovered or materialized document.
///
/// `link` is the canonical relative key (never the raw `href`); the root page
/// is stored under the reserved key `index`. `content` stays `None` until the
/// page is materialized; the root is the one entry populated eagerly, during
/// discovery. `children` is reserved for hierarchical nesting and is always
/// empty in the current flat, one-level registry.
pub struct PageEntry {
    pub title: String,
    pub link: String,
    pub content: Option<String>,
    pub children: Vec<PageEntry>,
}

impl PageEntry {
    /// Populate this entry's content, in place, once it has been fetched;
    /// every other field is untouched.
    pub fn store_content(&mut self, content: String)
        ensures
            final(self).content matches Some(c) && c@ == content@,
            final(self).title == old(self).title,
            final(self).link == old(self).link,
            final(self).children == old(self).children,
    {
        self.content = Some(content);
    }
}

/// A raw anchor as enumerated from the sidebar region: its `href` attribute
/// (absent on anchors that are skipped outright) and its display text.
pub struct AnchorInfo {
    pub href: Option<String>,
    pub text: Option<String>,
}

/// The display title an anchor yields: its text, or empty when it has none.
pub open spec fn anchor_title(a: AnchorInfo) -> Seq<char> {
    match a.text {
        Some(t) => t@,
        None => Seq::<char>::empty(),
    }
}

/// The fatal, unrecoverable conditions of the crawl's decision logic. Either
/// aborts the whole run: there is no per-page recovery.
#[derive(Clone, Copy, Debug, PartialEq, Eq, Structural)]
pub enum CrawlError {
    /// An expected page region (main content, or the sidebar panel) is
    /// absent from a loaded page.
    NotFoundRegion,
    /// An external link would have to be fetched while external fetching is
    /// disallowed.
    UnsupportedExternalFetch,
}

/// Demand a page region: a present region passes through, an absent one is
/// the fatal `NotFoundRegion` condition.
pub fn region_or_missing<T>(region: Option<T>) -> (r: Result<T, CrawlError>)
    ensures
        match region {
            Some(v) => r == Ok::<T, CrawlError>(v),
            None => r == Err::<T, CrawlError>(CrawlError::NotFoundRegion),
        },
{
    match region {
        Some(v) => Ok(v),
        None => Err(CrawlError::NotFoundRegion),
    }
}

} // verus!
