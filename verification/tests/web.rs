use webspider::crawl::{crawl_order, crawl_uri, crawled_target, parse_target_body, Crawl};
use webspider::scrape::{ScrapeReducer, WebExtractor, WebScraper};
use webspider::web::{is_valid_uri_scheme, Document, GenWebScraper, LinkExtractor, RawExtractor, Target};

#[test]
fn accepted_schemes() {
    for u in ["http://a", "https://a.b/c", "file:///tmp/x", "ftp://h", "sftp://h", "ws://h"] {
        assert!(is_valid_uri_scheme(u), "{}", u);
    }
}

#[test]
fn refused_schemes() {
    for u in ["", "http:", "example.com", "gopher://x", "HTTP://a", "http:/a", "wss://a", "mailto:x//y"] {
        assert!(!is_valid_uri_scheme(u), "{}", u);
    }
}

#[test]
fn scheme_is_before_the_first_double_slash() {
    assert!(!is_valid_uri_scheme("a//http://b"));
    assert!(is_valid_uri_scheme("http://a//b"));
    assert!(is_valid_uri_scheme("ws:///"));
}

#[test]
fn scraping_collects_hrefs_in_order() {
    let body = "<html><body><a href=\"/one\">1</a><a>no link</a><p><a href=\"http://two/\">2</a></p></body></html>";
    let t = parse_target_body(body);
    assert_eq!(t.child_links, vec!["/one".to_string(), "http://two/".to_string()]);
    assert_eq!(t.uri, "");
    assert_eq!(t.parent_link, None);
    assert!(t.page_raw.contains("<a href=\"/one\">1</a>"));
}

#[test]
fn page_without_anchors_has_no_links() {
    let t = parse_target_body("plain text");
    assert!(t.child_links.is_empty());
    assert!(t.page_raw.contains("plain text"));
    assert!(t.page_raw.starts_with("<html>"));
}

#[test]
fn document_reads_anchor_attributes() {
    let d = Document::parse("<a href=\"x\"></a><a name=\"n\"></a>");
    assert_eq!(d.anchor_hrefs(), &vec![Some("x".to_string()), None]);
}

#[test]
fn extractors_build_on_the_accumulated_page() {
    let d = Document::parse("<a href=\"new\"></a>");
    let mut acc = Target::default();
    acc.child_links.push("old".to_string());
    let t = LinkExtractor.extract_into(&acc, &d);
    assert_eq!(t.child_links, vec!["old".to_string(), "new".to_string()]);
    let t2 = RawExtractor.extract_into(&t, &d);
    assert_eq!(t2.page_raw, d.html());
    assert_eq!(t2.child_links, t.child_links);
    let reduced = ScrapeReducer(acc).extract(&d, &LinkExtractor).extract(&d, &RawExtractor);
    assert_eq!(reduced.result().child_links, vec!["old".to_string(), "new".to_string()]);
}

#[test]
fn scraper_keeps_its_body() {
    let s = GenWebScraper::new("<a href=\"q\">q</a>");
    assert_eq!(s.body(), "<a href=\"q\">q</a>");
    assert_eq!(s.scrape().child_links, vec!["q".to_string()]);
    assert_eq!(s.clone().body(), s.body());
}

#[test]
fn crawled_target_takes_the_uri() {
    let t = crawled_target("http://site/".to_string(), "<a href=\"k\"></a>");
    assert_eq!(t.uri, "http://site/");
    assert_eq!(t.child_links, vec!["k".to_string()]);
}

#[test]
fn crawl_uri_is_written_back_by_hyper() {
    assert_eq!(crawl_uri(&Crawl("http://example.com".to_string())), Some("http://example.com/".to_string()));
    assert_eq!(crawl_uri(&Crawl("https://a.b/c?d=e".to_string())), Some("https://a.b/c?d=e".to_string()));
    assert_eq!(crawl_uri(&Crawl("not a uri".to_string())), None);
}

#[test]
fn crawl_order_only_for_valid_schemes() {
    let c = crawl_order("https://x/").unwrap();
    assert_eq!(c.target(), "https://x/");
    assert!(crawl_order("gopher://x").is_none());
}

#[test]
fn pages_carry_the_time_they_were_taken() {
    let t0 = std::time::SystemTime::UNIX_EPOCH + std::time::Duration::from_secs(42);
    let empty = Target::taken_at(t0);
    assert_eq!(empty.timestamp, t0);
    assert_eq!(empty.uri, "");
    assert!(empty.child_links.is_empty());
    assert_eq!(empty.parent_link, None);
    let s = GenWebScraper::new("<a href=\"k\"></a>");
    let t = s.scrape_at(t0);
    assert_eq!(t.timestamp, t0);
    assert_eq!(t.child_links, vec!["k".to_string()]);
    let before = std::time::SystemTime::now();
    let d = Target::default();
    assert!(d.timestamp >= before);
}
