//! Link normalization: turning a raw anchor `href` into a canonical relative
//! key, a classification (root alias / external / internal), an absolute
//! fetch URL, and an output file path.

use vstd::prelude::*;
use vstd::string::StrSliceExecFns;
use vstd::string::StringExecFns;

verus! {

/// Classification of a raw `href`, checked in order: the literal `"/"` is an
/// alias for the root; anything that begins with `http` counts as external
/// (the host is deliberately not compared against the crawl root); everything
/// else is an internal document path.
#[derive(Clone, Copy, Debug, PartialEq, Eq, Structural)]
pub enum LinkClass {
    RootAlias,
    External,
    Internal,
}

/// The reserved registry key under which the root page is stored.
pub open spec fn index_key() -> Seq<char> {
    "index"@
}

/// Whether `s` begins with the scheme prefix `http` — the external-link test.
pub open spec fn starts_with_http(s: Seq<char>) -> bool {
    s.len() >= 4 && s.subrange(0, 4) == "http"@
}

/// How a raw `href` is classified.
pub open spec fn spec_classify(raw: Seq<char>) -> LinkClass {
    if raw == "/"@ {
        LinkClass::RootAlias
    } else if starts_with_http(raw) {
        LinkClass::External
    } else {
        LinkClass::Internal
    }
}

/// The canonical relative key of a raw `href`: the root alias maps to the
/// reserved key `index`; an external link keeps its raw form; an internal
/// link loses a single leading `/` if it has one.
pub open spec fn normalized_key(raw: Seq<char>) -> Seq<char> {
    if raw == "/"@ {
        index_key()
    } else if starts_with_http(raw) {
        raw
    } else if raw.len() >= 1 && raw[0] == '/' {
        raw.subrange(1, raw.len() as int)
    } else {
        raw
    }
}

/// A normalized link: its classification and its canonical relative key,
/// used both for deduplication and as the basis of the output file path.
pub struct NormalizedLink {
    pub class: LinkClass,
    pub key: String,
}

/// True exactly when `s` is the single-character string `/`.
pub(crate) fn is_root_slash(s: &str) -> (r: bool)
    ensures
        r == (s@ == "/"@),
{
    proof {
        reveal_strlit("/");
    }
    if s.unicode_len() == 1 {
        let c = s.get_char(0);
        proof {
            if c == '/' {
                assert(s@ =~= "/"@);
            } else {
                assert(s@ != "/"@) by {
                    if s@ == "/"@ {
                        assert(s@[0] == "/"@[0]);
                    }
                }
            }
        }
        c == '/'
    } else {
        false
    }
}

/// True exactly when `s` begins with the four characters `http`.
pub(crate) fn has_http_prefix(s: &str) -> (r: bool)
    ensures
        r == starts_with_http(s@),
{
    proof {
        reveal_strlit("http");
    }
    if s.unicode_len() < 4 {
        return false;
    }
    let r = s.get_char(0) == 'h' && s.get_char(1) == 't' && s.get_char(2) == 't' && s.get_char(3)
        == 'p';
    proof {
        if r {
            assert(s@.subrange(0, 4) =~= "http"@);
        } else {
            assert(s@.subrange(0, 4) != "http"@) by {
                if s@.subrange(0, 4) == "http"@ {
                    assert(s@[0] == "http"@[0]);
                    assert(s@[1] == "http"@[1]);
                    assert(s@[2] == "http"@[2]);
                    assert(s@[3] == "http"@[3]);
                }
            }
        }
    }
    r
}

/// Normalize a raw anchor `href`: classify it and compute its canonical
/// relative key.
pub fn normalize(raw: &str) -> (r: NormalizedLink)
    ensures
        r.class == spec_classify(raw@),
        r.key@ == normalized_key(raw@),
{
    if is_root_slash(raw) {
        NormalizedLink { class: LinkClass::RootAlias, key: String::from_str("index") }
    } else if has_http_prefix(raw) {
        NormalizedLink { class: LinkClass::External, key: raw.to_owned() }
    } else if raw.unicode_len() >= 1 && raw.get_char(0) == '/' {
        let key = raw.substring_char(1, raw.unicode_len());
        NormalizedLink { class: LinkClass::Internal, key: key.to_owned() }
    } else {
        NormalizedLink { class: LinkClass::Internal, key: raw.to_owned() }
    }
}

/// The crawl root with a single trailing `/`, if it carries one, removed.
pub open spec fn root_sans_trailing_slash(root: Seq<char>) -> Seq<char> {
    if root.len() >= 1 && root[root.len() - 1] == '/' {
        root.subrange(0, root.len() - 1)
    } else {
        root
    }
}

/// The absolute fetch target of an internal key: the crawl root, a `/`
/// separator, and the key — inserting no second slash when the root already
/// ends in one.
pub open spec fn spec_fetch_url(root: Seq<char>, key: Seq<char>) -> Seq<char> {
    if root.len() >= 1 && root[root.len() - 1] == '/' {
        root + key
    } else {
        root + "/"@ + key
    }
}

/// The output file path of a key, relative to the output directory.
pub open spec fn spec_output_rel_path(key: Seq<char>) -> Seq<char> {
    key + ".html"@
}

/// Resolve an internal key to its absolute fetch URL.
pub fn fetch_url(root: &str, key: &str) -> (r: String)
    ensures
        r@ == spec_fetch_url(root@, key@),
{
    let n = root.unicode_len();
    if n >= 1 && root.get_char(n - 1) == '/' {
        String::from_str(root).concat(key)
    } else {
        let r = String::from_str(root).concat("/").concat(key);
        proof {
            assert(r@ =~= root@ + "/"@ + key@);
        }
        r
    }
}

/// The file path, relative to the output directory, under which a key's
/// content is persisted.
pub fn output_rel_path(key: &str) -> (r: String)
    ensures
        r@ == spec_output_rel_path(key@),
{
    String::from_str(key).concat(".html")
}

/// However the crawl root is written — with or without a trailing slash —
/// the fetch target reads as the root (less any trailing slash), exactly one
/// `/` separator, then the key: the two spellings of the same root resolve
/// to the same URL, and no `//` is ever introduced at the junction.
pub proof fn lemma_fetch_url_single_separator(root: Seq<char>, key: Seq<char>)
    ensures
        spec_fetch_url(root, key) == root_sans_trailing_slash(root) + "/"@ + key,
{
    reveal_strlit("/");
    if root.len() >= 1 && root[root.len() - 1] == '/' {
        assert(root + key =~= root.subrange(0, root.len() - 1) + "/"@ + key);
    }
}

/// The root alias `/` is classified as such and keyed under `index`.
pub proof fn lemma_root_alias_normalization()
    ensures
        spec_classify("/"@) == LinkClass::RootAlias,
        normalized_key("/"@) == index_key(),
{
}

/// Any `href` that begins with `http` — whatever the rest of its shape —
/// is classified external and keeps its raw form as its key.
pub proof fn lemma_external_classification(raw: Seq<char>)
    requires
        starts_with_http(raw),
    ensures
        spec_classify(raw) == LinkClass::External,
        normalized_key(raw) == raw,
{
    reveal_strlit("/");
    reveal_strlit("http");
    assert(raw.len() >= 4);
    assert(raw != "/"@);
}

} // verus!
