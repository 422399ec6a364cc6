//! The page registry: an ordered, append-only collection of discovered
//! pages, keyed by canonical relative path, in which the first registration
//! of a key wins and later candidates for the same key change nothing.

use vstd::prelude::*;

use crate::link::index_key;
use crate::link::normalize;
use crate::link::normalized_key;
use crate::page::PageEntry;

verus! {

/// Whether some entry of `s` is stored under `key`.
pub open spec fn has_key(s: Seq<PageEntry>, key: Seq<char>) -> bool {
    exists|i: int| 0 <= i < s.len() && s[i].link@ == key
}

/// Whether `e` is a freshly registered, not yet materialized entry for
/// `key` and `title`.
pub open spec fn fresh_entry(e: PageEntry, key: Seq<char>, title: Seq<char>) -> bool {
    &&& e.link@ == key
    &&& e.title@ == title
    &&& e.content is None
    &&& e.children@ == Seq::<PageEntry>::empty()
}

/// Registration at the level of sequences: a candidate whose key is already
/// present is dropped; any other is appended.
pub open spec fn spec_register(s: Seq<PageEntry>, e: PageEntry) -> Seq<PageEntry> {
    if has_key(s, e.link@) {
        s
    } else {
        s.push(e)
    }
}

/// The in-memory registry of one crawl: the root entry first, then every
/// sidebar link in registration order, each key at most once.
pub struct Registry {
    entries: Vec<PageEntry>,
}

impl View for Registry {
    type V = Seq<PageEntry>;

    closed spec fn view(&self) -> Seq<PageEntry> {
        self.entries@
    }
}

/// True exactly when some entry of `entries` is stored under `key`.
fn contains_key(entries: &Vec<PageEntry>, key: &String) -> (r: bool)
    ensures
        r == has_key(entries@, key@),
{
    let n = entries.len();
    let mut i: usize = 0;
    while i < n
        invariant
            n == entries@.len(),
            0 <= i <= n,
            forall|j: int| 0 <= j < i ==> entries@[j].link@ != key@,
        decreases n - i,
    {
        if entries[i].link == *key {
            proof {
                assert(entries@[i as int].link@ == key@);
            }
            return true;
        }
        i = i + 1;
    }
    false
}

impl Registry {
    /// Well-formedness: the root entry stands first, under the reserved key,
    /// already populated with content, and no two entries share a key.
    pub open spec fn wf(self) -> bool {
        &&& self@.len() >= 1
        &&& self@[0].link@ == index_key()
        &&& self@[0].content is Some
        &&& forall|i: int, j: int|
            0 <= i < j < self@.len() ==> self@[i].link@ != self@[j].link@
    }

    /// Open a registry for one crawl, holding only the root entry: keyed
    /// `index`, titled with the root document's title, its content captured
    /// eagerly.
    pub fn new(root_title: String, root_content: String) -> (r: Registry)
        ensures
            r.wf(),
            r@.len() == 1,
            r@[0].title@ == root_title@,
            r@[0].link@ == index_key(),
            r@[0].content matches Some(c) && c@ == root_content@,
            r@[0].children@ == Seq::<PageEntry>::empty(),
    {
        let root = PageEntry {
            title: root_title,
            link: String::from_str("index"),
            content: Some(root_content),
            children: Vec::new(),
        };
        let mut entries: Vec<PageEntry> = Vec::new();
        entries.push(root);
        Registry { entries }
    }

    /// How many entries are registered.
    pub fn len(&self) -> (n: usize)
        ensures
            n == self@.len(),
    {
        self.entries.len()
    }

    /// The entry at position `i`, in registration order.
    pub fn get(&self, i: usize) -> (e: &PageEntry)
        requires
            i < self@.len(),
        ensures
            *e == self@[i as int],
    {
        &self.entries[i]
    }

    /// Register a link candidate under its normalized key. The key, not the
    /// raw `href` and not the title, deduplicates: if it is already present
    /// the registry is returned unchanged and the first entry keeps its
    /// title and content; otherwise a fresh, content-less entry is appended.
    pub fn register(&mut self, title: String, raw_href: &str) -> (added: bool)
        requires
            old(self).wf(),
        ensures
            final(self).wf(),
            added == !has_key(old(self)@, normalized_key(raw_href@)),
            !added ==> final(self)@ == old(self)@,
            added ==> final(self)@.len() == old(self)@.len() + 1
                && final(self)@ == spec_register(old(self)@, final(self)@.last())
                && fresh_entry(final(self)@.last(), normalized_key(raw_href@), title@),
    {
        let nl = normalize(raw_href);
        if contains_key(&self.entries, &nl.key) {
            false
        } else {
            let e = PageEntry { title, link: nl.key, content: None, children: Vec::new() };
            self.entries.push(e);
            true
        }
    }

    /// Surrender the entries for materialization, in registration order: the
    /// materializer walks and mutates them in place, outside the registry's
    /// key-uniqueness guarantee (its alias reconciliation may re-key an
    /// entry).
    pub fn into_entries(self) -> (v: Vec<PageEntry>)
        ensures
            v@ == self@,
    {
        self.entries
    }
}

/// Deduplication, first wins: a candidate for a fresh key is appended, and a
/// second candidate for the same key — whatever its title or other fields —
/// leaves the registry exactly as it was, so exactly one entry for that key
/// remains and it is the first one registered.
pub proof fn lemma_dedup_first_wins(s: Seq<PageEntry>, e1: PageEntry, e2: PageEntry)
    requires
        !has_key(s, e1.link@),
        e2.link@ == e1.link@,
    ensures
        spec_register(s, e1) == s.push(e1),
        spec_register(spec_register(s, e1), e2) == s.push(e1),
{
    let s1 = s.push(e1);
    assert(s1[s.len() as int].link@ == e2.link@);
    assert(has_key(s1, e2.link@));
}

} // verus!
