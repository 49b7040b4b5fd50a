use mercury_reader::{
    build_article, build_feed, extract_article_content, extract_favicon_url,
    favicon_url_from_parts, parse_feed, site_url_of, FeedDocument, FeedItem, FeedLink,
};

#[test]
fn test_favicon_extraction() {
    let url = Some("https://example.com/page".to_string());
    let favicon = extract_favicon_url(&url);
    assert_eq!(favicon, Some("https://example.com/favicon.ico".to_string()));
}

#[test]
fn test_favicon_extraction_none_input() {
    let favicon = extract_favicon_url(&None);
    assert_eq!(favicon, None);
}

#[test]
fn test_favicon_extraction_root_url() {
    let url = Some("https://blog.example.org/".to_string());
    let favicon = extract_favicon_url(&url);
    assert_eq!(favicon, Some("https://blog.example.org/favicon.ico".to_string()));
}

#[test]
fn test_favicon_extraction_http_scheme() {
    let url = Some("http://example.com".to_string());
    let favicon = extract_favicon_url(&url);
    assert_eq!(favicon, Some("http://example.com/favicon.ico".to_string()));
}

#[test]
fn test_favicon_extraction_with_port() {
    let url = Some("https://example.com:8080/some/path".to_string());
    let favicon = extract_favicon_url(&url);
    assert_eq!(favicon, Some("https://example.com/favicon.ico".to_string()));
}

#[test]
fn test_favicon_extraction_invalid_url() {
    let url = Some("not-a-valid-url".to_string());
    let favicon = extract_favicon_url(&url);
    assert_eq!(favicon, None);
}

#[test]
fn favicon_without_host_has_empty_host() {
    assert_eq!(favicon_url_from_parts("https", Some("a.b")), "https://a.b/favicon.ico");
    assert_eq!(favicon_url_from_parts("mailto", None), "mailto:///favicon.ico");
    assert_eq!(
        extract_favicon_url(&Some("mailto:someone@example.com".to_string())),
        Some("mailto:///favicon.ico".to_string())
    );
}

#[test]
fn test_parse_feed_rss_content() {
    let rss = r#"<?xml version="1.0" encoding="UTF-8"?>
<rss version="2.0">
  <channel>
    <title>Test RSS Feed</title>
    <link>https://example.com</link>
    <description>A test feed</description>
    <item>
      <title>Article One</title>
      <link>https://example.com/article-1</link>
      <description>Summary of article one</description>
      <author>Alice</author>
      <pubDate>Mon, 01 Jan 2024 00:00:00 +0000</pubDate>
    </item>
    <item>
      <title>Article Two</title>
      <link>https://example.com/article-2</link>
      <description>Summary of article two</description>
    </item>
  </channel>
</rss>"#;

    let result = parse_feed(rss.as_bytes(), "https://example.com/feed.xml");
    assert!(result.is_ok(), "parse_feed failed: {:?}", result.err());

    let (feed, articles) = result.unwrap();
    assert_eq!(feed.title, "Test RSS Feed");
    assert_eq!(feed.url, "https://example.com/feed.xml");
    assert_eq!(articles.len(), 2);
    assert_eq!(articles[0].title, "Article One");
    assert_eq!(articles[0].url, "https://example.com/article-1");
    assert!(!articles[0].is_read);
    assert_eq!(articles[1].title, "Article Two");
}

#[test]
fn test_parse_feed_atom_content() {
    let atom = r#"<?xml version="1.0" encoding="UTF-8"?>
<feed xmlns="http://www.w3.org/2005/Atom">
  <title>Test Atom Feed</title>
  <link href="https://atom-example.com"/>
  <id>urn:uuid:test-atom-feed</id>
  <updated>2024-01-01T00:00:00Z</updated>
  <entry>
    <title>Atom Entry</title>
    <link href="https://atom-example.com/entry-1"/>
    <id>urn:uuid:entry-1</id>
    <updated>2024-01-01T00:00:00Z</updated>
    <summary>Atom entry summary</summary>
    <author><name>Bob</name></author>
  </entry>
</feed>"#;

    let result = parse_feed(atom.as_bytes(), "https://atom-example.com/feed");
    assert!(result.is_ok(), "parse_feed failed: {:?}", result.err());

    let (feed, articles) = result.unwrap();
    assert_eq!(feed.title, "Test Atom Feed");
    assert_eq!(articles.len(), 1);
    assert_eq!(articles[0].title, "Atom Entry");
    assert_eq!(articles[0].author, Some("Bob".to_string()));
}

#[test]
fn test_parse_feed_uses_summary_as_content_fallback() {
    let rss = r#"<?xml version="1.0" encoding="UTF-8"?>
<rss version="2.0">
  <channel>
    <title>Feed</title>
    <link>https://example.com</link>
    <item>
      <title>No Content Item</title>
      <link>https://example.com/no-content</link>
      <description>Just a summary here</description>
    </item>
  </channel>
</rss>"#;

    let (_, articles) = parse_feed(rss.as_bytes(), "https://example.com/feed").unwrap();
    assert!(!articles[0].content.is_empty());
}

#[test]
fn test_parse_feed_invalid_content_returns_error() {
    let bad_content = b"this is not xml or rss content";
    let result = parse_feed(bad_content, "https://example.com/feed");
    assert!(result.is_err());
}

#[test]
fn test_parse_feed_article_count_matches() {
    let rss = r#"<?xml version="1.0" encoding="UTF-8"?>
<rss version="2.0">
  <channel>
    <title>Count Feed</title>
    <link>https://example.com</link>
    <item><title>A</title><link>https://example.com/a</link></item>
    <item><title>B</title><link>https://example.com/b</link></item>
    <item><title>C</title><link>https://example.com/c</link></item>
  </channel>
</rss>"#;

    let (feed, articles) = parse_feed(rss.as_bytes(), "https://example.com/feed").unwrap();
    assert_eq!(feed.article_count, 3);
    assert_eq!(feed.unread_count, 3);
    assert_eq!(articles.len(), 3);
}

#[test]
fn parsed_feed_fields_and_ownership() {
    let rss = r#"<?xml version="1.0" encoding="UTF-8"?>
<rss version="2.0">
  <channel>
    <title>Owned</title>
    <link>https://site.example.com/blog</link>
    <description>About things</description>
    <item><title>A</title><link>https://site.example.com/a</link></item>
    <item><description>no title, no link</description></item>
  </channel>
</rss>"#;
    let (feed, articles) = parse_feed(rss.as_bytes(), "https://site.example.com/rss").unwrap();
    assert_eq!(feed.site_url, Some("https://site.example.com/blog".to_string()));
    assert_eq!(feed.favicon_url, Some("https://site.example.com/favicon.ico".to_string()));
    assert_eq!(feed.description, Some("About things".to_string()));
    assert!(!feed.is_starred);
    assert_eq!(feed.created_at, feed.updated_at);
    for a in &articles {
        assert_eq!(a.feed_id, feed.id);
        assert!(!a.is_read);
        assert_eq!(a.created_at, a.updated_at);
    }
    assert_eq!(articles[1].title, "Untitled");
    assert_eq!(articles[1].url, "https://site.example.com/rss");
    assert_eq!(articles[1].content, "no title, no link");
    assert_eq!(articles[1].published_at, articles[1].created_at);
    assert_ne!(articles[0].id, articles[1].id);
}

#[test]
fn parse_failure_is_prefixed() {
    let err = parse_feed(b"{ not json", "https://example.com/feed").unwrap_err();
    assert!(err.starts_with("Failed to parse feed: "));
}

fn item() -> FeedItem {
    FeedItem {
        title: None,
        links: vec![],
        content_body: None,
        summary: None,
        authors: vec![],
        contributors: vec![],
        published: None,
    }
}

#[test]
fn content_prefers_body_then_summary() {
    let mut it = item();
    assert_eq!(extract_article_content(&it), "");
    it.summary = Some("sum".to_string());
    assert_eq!(extract_article_content(&it), "sum");
    it.content_body = Some(String::new());
    assert_eq!(extract_article_content(&it), "sum");
    it.content_body = Some("<p>body</p>".to_string());
    assert_eq!(extract_article_content(&it), "<p>body</p>");
    it.summary = Some(String::new());
    it.content_body = None;
    assert_eq!(extract_article_content(&it), "");
}

#[test]
fn article_author_falls_back_to_contributor() {
    let mut it = item();
    it.contributors = vec!["Carol".to_string(), "Dan".to_string()];
    let a = build_article(&it, "f", "https://x/feed", "id1".to_string(), "T0".to_string());
    assert_eq!(a.author, Some("Carol".to_string()));
    assert_eq!(a.title, "Untitled");
    assert_eq!(a.url, "https://x/feed");
    assert_eq!(a.published_at, "T0");
    assert_eq!(a.id, "id1");
    it.authors = vec!["Alice".to_string()];
    it.links = vec!["https://x/1".to_string(), "https://x/2".to_string()];
    it.published = Some("2024-01-01T00:00:00+00:00".to_string());
    let a = build_article(&it, "f", "https://x/feed", "id2".to_string(), "T1".to_string());
    assert_eq!(a.author, Some("Alice".to_string()));
    assert_eq!(a.url, "https://x/1");
    assert_eq!(a.published_at, "2024-01-01T00:00:00+00:00");
    assert_eq!(a.created_at, "T1");
}

#[test]
fn site_url_skips_self_links() {
    let links = vec![
        FeedLink { href: "https://x/feed".to_string(), rel: Some("self".to_string()) },
        FeedLink { href: "https://x/".to_string(), rel: Some("alternate".to_string()) },
    ];
    assert_eq!(site_url_of(&links), Some("https://x/".to_string()));
    let only_self = vec![FeedLink { href: "https://x/feed".to_string(), rel: Some("self".to_string()) }];
    assert_eq!(site_url_of(&only_self), None);
    let no_rel = vec![FeedLink { href: "https://y/".to_string(), rel: None }];
    assert_eq!(site_url_of(&no_rel), Some("https://y/".to_string()));
}

#[test]
fn untitled_document_feed() {
    let doc = FeedDocument { title: None, description: None, links: vec![], items: vec![item(), item()] };
    let f = build_feed(&doc, "https://z/feed", "fid".to_string(), "now".to_string());
    assert_eq!(f.title, "Untitled Feed");
    assert_eq!(f.site_url, None);
    assert_eq!(f.favicon_url, None);
    assert_eq!(f.article_count, 2);
    assert_eq!(f.unread_count, 2);
    assert_eq!(f.id, "fid");
    assert_eq!(f.created_at, "now");
}
