use gitbook_crawler::AnchorInfo;
use gitbook_crawler::CrawlError;
use gitbook_crawler::Decision;
use gitbook_crawler::PageEntry;
use gitbook_crawler::Registry;
use gitbook_crawler::decide;
use gitbook_crawler::discover;
use gitbook_crawler::fetch_url;
use gitbook_crawler::output_rel_path;
use gitbook_crawler::reconcile_root_alias;
use gitbook_crawler::region_or_missing;

fn anchor(href: Option<&str>, text: Option<&str>) -> AnchorInfo {
    AnchorInfo { href: href.map(|s| s.to_string()), text: text.map(|s| s.to_string()) }
}

fn entry(title: &str, link: &str, content: Option<&str>) -> PageEntry {
    PageEntry {
        title: title.to_string(),
        link: link.to_string(),
        content: content.map(|s| s.to_string()),
        children: Vec::new(),
    }
}

/// Drive the materializer policy over the entries the way the crawler's
/// outer loop does, against an in-memory site and file list. Returns the
/// fetch targets actually navigated to.
fn run_materializer(
    entries: &mut Vec<PageEntry>,
    root_url: &str,
    ignore_external: bool,
    site: &[(&str, &str)],
    fs: &mut Vec<(String, String)>,
) -> Result<Vec<String>, CrawlError> {
    let mut fetched = Vec::new();
    for e in entries.iter_mut() {
        reconcile_root_alias(e);
        let path = output_rel_path(&e.link);
        let exists = fs.iter().any(|(p, _)| *p == path);
        match decide(e, exists, ignore_external) {
            Decision::SkipExisting => {}
            Decision::WriteStored => {
                let c = e.content.clone().unwrap();
                fs.push((path, c));
            }
            Decision::SkipExternal => {}
            Decision::AbortExternal => return Err(CrawlError::UnsupportedExternalFetch),
            Decision::FetchRequired => {
                let url = fetch_url(root_url, &e.link);
                fetched.push(url.clone());
                let region = site
                    .iter()
                    .find(|(u, _)| *u == url)
                    .map(|(_, m)| m.to_string());
                let markup = region_or_missing(region)?;
                e.store_content(markup.clone());
                fs.push((path, markup));
            }
        }
    }
    Ok(fetched)
}

#[test]
fn register_dedups_by_key_first_wins() {
    let mut reg = Registry::new("Root".to_string(), "<p>R</p>".to_string());
    assert!(reg.register("First".to_string(), "guide"));
    assert!(!reg.register("Second".to_string(), "guide"));
    // A raw href that normalizes to the same key is a duplicate too.
    assert!(!reg.register("Third".to_string(), "/guide"));
    assert_eq!(reg.len(), 2);
    let e = reg.get(1);
    assert_eq!(e.title, "First");
    assert_eq!(e.link, "guide");
    assert!(e.content.is_none());
}

#[test]
fn register_root_alias_dedups_against_root() {
    let mut reg = Registry::new("Root".to_string(), "<p>R</p>".to_string());
    assert!(!reg.register("Home".to_string(), "/"));
    assert_eq!(reg.len(), 1);
    assert_eq!(reg.get(0).title, "Root");
}

#[test]
fn decide_skips_when_file_exists() {
    let e = entry("Guide", "guide", None);
    assert_eq!(decide(&e, true, true), Decision::SkipExisting);
    let root = entry("Root", "index", Some("<p>R</p>"));
    assert_eq!(decide(&root, true, true), Decision::SkipExisting);
    let ext = entry("Ext", "https://ext.example", None);
    assert_eq!(decide(&ext, true, false), Decision::SkipExisting);
}

#[test]
fn decide_writes_stored_content_without_fetch() {
    let root = entry("Root", "index", Some("<p>R</p>"));
    assert_eq!(decide(&root, false, true), Decision::WriteStored);
}

#[test]
fn decide_external_policy() {
    let ext = entry("Ext", "https://ext.example", None);
    assert_eq!(decide(&ext, false, true), Decision::SkipExternal);
    assert_eq!(decide(&ext, false, false), Decision::AbortExternal);
}

#[test]
fn decide_fetches_fresh_internal_entry() {
    let e = entry("Guide", "guide", None);
    assert_eq!(decide(&e, false, true), Decision::FetchRequired);
}

#[test]
fn reconcile_rewrites_literal_slash_only() {
    let mut e = entry("Home", "/", None);
    reconcile_root_alias(&mut e);
    assert_eq!(e.link, "index");
    assert_eq!(e.title, "Home");

    let mut e = entry("Guide", "guide", None);
    reconcile_root_alias(&mut e);
    assert_eq!(e.link, "guide");
}

#[test]
fn missing_region_is_not_found() {
    let r = region_or_missing::<String>(None);
    assert!(matches!(r, Err(CrawlError::NotFoundRegion)));
    let r = region_or_missing(Some("markup".to_string()));
    assert_eq!(r.unwrap(), "markup");
}

#[test]
fn discover_aborts_on_missing_root_region() {
    let anchors = vec![anchor(Some("guide"), Some("Guide"))];
    let r = discover("Root".to_string(), None, anchors);
    assert!(matches!(r, Err(CrawlError::NotFoundRegion)));
}

#[test]
fn discover_builds_flat_registry() {
    let anchors = vec![
        anchor(Some("/"), Some("Home")),
        anchor(None, Some("No href: skipped")),
        anchor(Some("guide"), Some("Guide")),
        anchor(Some("guide"), Some("Guide again")),
        anchor(Some("https://ext.example"), None),
    ];
    let reg = discover("Root".to_string(), Some("<p>Welcome</p>".to_string()), anchors).unwrap();
    assert_eq!(reg.len(), 3);

    let root = reg.get(0);
    assert_eq!(root.title, "Root");
    assert_eq!(root.link, "index");
    assert_eq!(root.content.as_deref(), Some("<p>Welcome</p>"));
    assert!(root.children.is_empty());

    let guide = reg.get(1);
    assert_eq!(guide.title, "Guide");
    assert_eq!(guide.link, "guide");
    assert!(guide.content.is_none());

    let ext = reg.get(2);
    assert_eq!(ext.title, "");
    assert_eq!(ext.link, "https://ext.example");
    assert!(ext.content.is_none());
}

#[test]
fn end_to_end_crawl_writes_internal_pages_only() {
    let anchors = vec![
        anchor(Some("/"), Some("Home")),
        anchor(Some("guide"), Some("Guide")),
        anchor(Some("https://ext.example"), Some("Ext")),
    ];
    let reg = discover("Root".to_string(), Some("<p>Welcome</p>".to_string()), anchors).unwrap();
    assert_eq!(reg.len(), 3);

    let site = [("https://root.example/guide", "<p>Guide</p>")];
    let mut fs: Vec<(String, String)> = Vec::new();
    let mut entries = reg.into_entries();
    let fetched =
        run_materializer(&mut entries, "https://root.example", true, &site, &mut fs).unwrap();

    assert_eq!(fetched, vec!["https://root.example/guide".to_string()]);
    assert_eq!(fs.len(), 2);
    assert_eq!(fs[0], ("index.html".to_string(), "<p>Welcome</p>".to_string()));
    assert_eq!(fs[1], ("guide.html".to_string(), "<p>Guide</p>".to_string()));
}

#[test]
fn rerun_against_same_output_fetches_nothing() {
    let site = [("https://root.example/guide", "<p>Guide</p>")];
    let mut fs: Vec<(String, String)> = Vec::new();

    let mut first = vec![
        entry("Root", "index", Some("<p>Welcome</p>")),
        entry("Guide", "guide", None),
    ];
    let fetched = run_materializer(&mut first, "https://root.example", true, &site, &mut fs)
        .unwrap();
    assert_eq!(fetched.len(), 1);
    assert_eq!(fs.len(), 2);

    // Same registry, same output directory: every file exists, every entry
    // is skipped, nothing is fetched and nothing is rewritten.
    let mut second = vec![
        entry("Root", "index", Some("<p>Welcome</p>")),
        entry("Guide", "guide", None),
    ];
    let fetched = run_materializer(&mut second, "https://root.example", true, &site, &mut fs)
        .unwrap();
    assert_eq!(fetched.len(), 0);
    assert_eq!(fs.len(), 2);
}

#[test]
fn external_entry_aborts_when_not_ignored() {
    let site: [(&str, &str); 0] = [];
    let mut fs: Vec<(String, String)> = Vec::new();
    let mut entries = vec![entry("Ext", "https://ext.example", None)];
    let r = run_materializer(&mut entries, "https://root.example", false, &site, &mut fs);
    assert!(matches!(r, Err(CrawlError::UnsupportedExternalFetch)));
    assert!(fs.is_empty());
}

#[test]
fn broken_child_page_aborts_crawl() {
    // The fetched page has no main-content region: the whole run fails.
    let site: [(&str, &str); 0] = [];
    let mut fs: Vec<(String, String)> = Vec::new();
    let mut entries = vec![entry("Guide", "guide", None)];
    let r = run_materializer(&mut entries, "https://root.example", true, &site, &mut fs);
    assert!(matches!(r, Err(CrawlError::NotFoundRegion)));
    assert!(fs.is_empty());
}
