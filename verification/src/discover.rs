//! Discovery: from the root page's title and main-content region and the
//! anchors enumerated out of the sidebar, build the registry of one crawl —
//! the eagerly populated root entry first, then one fresh entry per distinct
//! normalized key, in sidebar order, the first anchor for each key winning.

use vstd::prelude::*;

use crate::link::index_key;
use crate::link::normalized_key;
use crate::page::AnchorInfo;
use crate::page::CrawlError;
use crate::page::PageEntry;
use crate::page::anchor_title;
use crate::page::region_or_missing;
use crate::registry::Registry;
use crate::registry::has_key;

verus! {

/// The keys of a registry sequence, in registration order.
pub open spec fn registry_keys(s: Seq<PageEntry>) -> Seq<Seq<char>> {
    s.map_values(|e: PageEntry| e.link@)
}

/// The normalized key of an anchor that carries an `href`.
pub open spec fn anchor_key(a: AnchorInfo) -> Seq<char> {
    normalized_key(a.href.unwrap()@)
}

/// The key sequence discovery yields from a sequence of sidebar anchors:
/// the reserved root key first, then the normalized key of each
/// href-carrying anchor in order, each key kept only at its first
/// occurrence; anchors without an `href` contribute nothing.
pub open spec fn spec_discover_keys(anchors: Seq<AnchorInfo>) -> Seq<Seq<char>>
    decreases anchors.len(),
{
    if anchors.len() == 0 {
        seq![index_key()]
    } else {
        let prev = spec_discover_keys(anchors.drop_last());
        let a = anchors.last();
        if a.href is Some && !prev.contains(anchor_key(a)) {
            prev.push(anchor_key(a))
        } else {
            prev
        }
    }
}

/// `j` points at the anchor that entry `e` was made from: it carries an
/// `href` whose normalized key is `e`'s, its text is `e`'s title, and no
/// earlier href-carrying anchor already bore that key.
pub open spec fn first_anchor_for(anchors: Seq<AnchorInfo>, j: int, e: PageEntry) -> bool {
    &&& 0 <= j < anchors.len()
    &&& anchors[j].href is Some
    &&& anchor_key(anchors[j]) == e.link@
    &&& e.title@ == anchor_title(anchors[j])
    &&& forall|j2: int|
        0 <= j2 < j && anchors[j2].href is Some ==> anchor_key(anchors[j2]) != e.link@
}

/// Entry `e` descends from the first sidebar anchor bearing its key.
pub open spec fn entry_from_first_anchor(anchors: Seq<AnchorInfo>, e: PageEntry) -> bool {
    exists|j: int| first_anchor_for(anchors, j, e)
}

/// A registry sequence holds a key exactly when its key sequence does.
proof fn lemma_keys_contains(s: Seq<PageEntry>, key: Seq<char>)
    ensures
        registry_keys(s).contains(key) == has_key(s, key),
{
    if has_key(s, key) {
        let i = choose|i: int| 0 <= i < s.len() && s[i].link@ == key;
        assert(registry_keys(s)[i] == key);
        assert(registry_keys(s).contains(key));
    }
    if registry_keys(s).contains(key) {
        let i = choose|i: int|
            0 <= i < registry_keys(s).len() && registry_keys(s)[i] == key;
        assert(s[i].link@ == key);
        assert(has_key(s, key));
    }
}

/// Appending an entry appends its key.
proof fn lemma_keys_push(s: Seq<PageEntry>, e: PageEntry)
    ensures
        registry_keys(s.push(e)) == registry_keys(s).push(e.link@),
{
    assert(registry_keys(s.push(e)) =~= registry_keys(s).push(e.link@));
}

/// A key present in a registry sequence stays present when an entry is
/// appended.
proof fn lemma_has_key_push(s: Seq<PageEntry>, e: PageEntry, key: Seq<char>)
    requires
        has_key(s, key),
    ensures
        has_key(s.push(e), key),
{
    let i = choose|i: int| 0 <= i < s.len() && s[i].link@ == key;
    assert(s.push(e)[i].link@ == key);
}

/// What discovery promises of the registry it builds from a root page
/// titled `root_title` whose main-content region holds `root_content`, and
/// from the sidebar `anchors`: a well-formed registry opening with the
/// eagerly populated root entry under the reserved key, whose keys are
/// exactly the anchors' distinct normalized keys in first-occurrence order,
/// and whose every later entry is fresh — content-less, childless — and
/// descends from the first anchor bearing its key.
pub open spec fn discovered_registry(
    reg: Registry,
    root_title: Seq<char>,
    root_content: Seq<char>,
    anchors: Seq<AnchorInfo>,
) -> bool {
    &&& reg.wf()
    &&& reg@[0].title@ == root_title
    &&& reg@[0].link@ == index_key()
    &&& reg@[0].content matches Some(c) && c@ == root_content
    &&& reg@[0].children@ == Seq::<PageEntry>::empty()
    &&& registry_keys(reg@) == spec_discover_keys(anchors)
    &&& forall|k: int| 1 <= k < reg@.len() ==> entry_from_first_anchor(anchors, reg@[k])
    &&& forall|k: int|
        1 <= k < reg@.len() ==> reg@[k].content is None && reg@[k].children@ == Seq::<
            PageEntry,
        >::empty()
}

/// Run discovery. An absent main-content region is the fatal
/// `NotFoundRegion` condition, reported before any entry is created;
/// otherwise the registry is as `discovered_registry` describes.
pub fn discover(root_title: String, root_region: Option<String>, anchors: Vec<AnchorInfo>) -> (r:
    Result<Registry, CrawlError>)
    ensures
        root_region is None ==> r == Err::<Registry, CrawlError>(CrawlError::NotFoundRegion),
        root_region matches Some(rc) ==> r matches Ok(reg) && discovered_registry(
            reg,
            root_title@,
            rc@,
            anchors@,
        ),
{
    let ghost t0: Seq<char> = root_title@;
    let content = match region_or_missing(root_region) {
        Ok(c) => c,
        Err(e) => {
            return Err(e);
        },
    };
    let ghost c0: Seq<char> = content@;
    let mut reg = Registry::new(root_title, content);
    proof {
        assert(anchors@.take(0) =~= Seq::<AnchorInfo>::empty());
        assert(registry_keys(reg@) =~= seq![index_key()]);
    }
    let n = anchors.len();
    let mut i: usize = 0;
    while i < n
        invariant
            n == anchors@.len(),
            0 <= i <= n,
            reg.wf(),
            reg@[0].title@ == t0,
            reg@[0].link@ == index_key(),
            reg@[0].content matches Some(cc) && cc@ == c0,
            reg@[0].children@ == Seq::<PageEntry>::empty(),
            registry_keys(reg@) == spec_discover_keys(anchors@.take(i as int)),
            forall|k: int| 1 <= k < reg@.len() ==> entry_from_first_anchor(anchors@, reg@[k]),
            forall|k: int|
                1 <= k < reg@.len() ==> reg@[k].content is None && reg@[k].children@ == Seq::<
                    PageEntry,
                >::empty(),
            forall|j: int|
                0 <= j < i && anchors@[j].href is Some ==> has_key(
                    reg@,
                    anchor_key(anchors@[j]),
                ),
        decreases n - i,
    {
        let ghost pre = reg@;
        proof {
            assert(anchors@.take(i as int + 1).drop_last() =~= anchors@.take(i as int));
            assert(anchors@.take(i as int + 1).last() == anchors@[i as int]);
        }
        let a = &anchors[i];
        match &a.href {
            None => {},
            Some(h) => {
                let t: String = match &a.text {
                    Some(tt) => tt.clone(),
                    None => String::new(),
                };
                let ghost key = normalized_key(h@);
                proof {
                    assert(anchor_key(anchors@[i as int]) == key);
                    lemma_keys_contains(pre, key);
                }
                let added = reg.register(t, h.as_str());
                proof {
                    if added {
                        let e = reg@.last();
                        assert(reg@ == pre.push(e));
                        lemma_keys_push(pre, e);
                        assert forall|j2: int|
                            0 <= j2 < i as int && anchors@[j2].href is Some implies anchor_key(
                            anchors@[j2],
                        ) != key by {
                            assert(has_key(pre, anchor_key(anchors@[j2])));
                        }
                        assert(first_anchor_for(anchors@, i as int, e));
                        assert forall|k: int| 1 <= k < reg@.len() implies entry_from_first_anchor(
                            anchors@,
                            reg@[k],
                        ) by {
                            if k < pre.len() {
                                assert(reg@[k] == pre[k]);
                            } else {
                                assert(reg@[k] == e);
                            }
                        }
                        assert forall|j: int|
                            0 <= j < i as int + 1 && anchors@[j].href is Some implies has_key(
                            reg@,
                            anchor_key(anchors@[j]),
                        ) by {
                            if j < i as int {
                                lemma_has_key_push(pre, e, anchor_key(anchors@[j]));
                            } else {
                                assert(reg@[pre.len() as int].link@ == key);
                            }
                        }
                        assert(reg@[0] == pre[0]);
                    } else {
                        assert(reg@ == pre);
                    }
                }
            },
        }
        i = i + 1;
    }
    proof {
        assert(anchors@.take(n as int) =~= anchors@);
    }
    Ok(reg)
}

} // verus!
