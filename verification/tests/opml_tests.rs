use mercury_reader::{
    attribute_of, extract_opml_feed_entries, opml_entries_of, outline_entry, trim, unique_by_url,
    OpmlFeedEntry, XmlAttribute, XmlNode,
};

fn basic_opml(extra_items: &str) -> String {
    format!(
        r#"<?xml version="1.0" encoding="UTF-8"?>
<opml version="2.0">
  <head><title>Feeds</title></head>
  <body>
    {}
  </body>
</opml>"#,
        extra_items
    )
}

#[test]
fn test_extract_opml_basic() {
    let opml = basic_opml(
        r#"<outline text="Example" title="Example" type="rss"
            xmlUrl="https://example.com/feed.xml"
            htmlUrl="https://example.com"/>"#,
    );
    let entries = extract_opml_feed_entries(&opml).unwrap();
    assert_eq!(entries.len(), 1);
    assert_eq!(entries[0].url, "https://example.com/feed.xml");
    assert_eq!(entries[0].title, Some("Example".to_string()));
    assert_eq!(entries[0].site_url, Some("https://example.com".to_string()));
}

#[test]
fn test_extract_opml_multiple_entries() {
    let opml = basic_opml(
        r#"<outline xmlUrl="https://a.com/feed" title="A"/>
           <outline xmlUrl="https://b.com/feed" title="B"/>
           <outline xmlUrl="https://c.com/feed" title="C"/>"#,
    );
    let entries = extract_opml_feed_entries(&opml).unwrap();
    assert_eq!(entries.len(), 3);
}

#[test]
fn test_extract_opml_nested_categories() {
    let opml = basic_opml(
        r#"<outline text="Tech">
             <outline text="Blog" xmlUrl="https://techblog.com/feed" title="Tech Blog"/>
           </outline>"#,
    );
    let entries = extract_opml_feed_entries(&opml).unwrap();
    assert_eq!(entries.len(), 1);
    assert_eq!(entries[0].url, "https://techblog.com/feed");
}

#[test]
fn test_extract_opml_falls_back_to_url_attribute() {
    let opml = basic_opml(r#"<outline url="https://fallback.com/feed" title="Fallback"/>"#);
    let entries = extract_opml_feed_entries(&opml).unwrap();
    assert_eq!(entries.len(), 1);
    assert_eq!(entries[0].url, "https://fallback.com/feed");
}

#[test]
fn test_extract_opml_case_insensitive_xmlurl() {
    let opml = basic_opml(r#"<outline xmlurl="https://lowercase.com/feed" title="Low"/>"#);
    let entries = extract_opml_feed_entries(&opml).unwrap();
    assert_eq!(entries.len(), 1);
    assert_eq!(entries[0].url, "https://lowercase.com/feed");
}

#[test]
fn test_extract_opml_outlines_without_url_are_skipped() {
    let opml = basic_opml(
        r#"<outline text="Category" title="No URL here"/>
           <outline xmlUrl="https://valid.com/feed" title="Valid"/>"#,
    );
    let entries = extract_opml_feed_entries(&opml).unwrap();
    assert_eq!(entries.len(), 1);
    assert_eq!(entries[0].url, "https://valid.com/feed");
}

#[test]
fn test_extract_opml_no_feeds_returns_error() {
    let opml = basic_opml(r#"<outline text="Category" title="Just a category"/>"#);
    let result = extract_opml_feed_entries(&opml);
    assert!(result.is_err());
    assert!(result.err().unwrap().contains("No feed URLs found"));
}

#[test]
fn test_extract_opml_invalid_xml_returns_error() {
    let result = extract_opml_feed_entries("this is not xml <unclosed");
    assert!(result.is_err());
    assert!(result.err().unwrap().contains("Invalid OPML/XML"));
}

#[test]
fn test_extract_opml_title_falls_back_to_text_attribute() {
    let opml = basic_opml(r#"<outline text="Text Attr" xmlUrl="https://example.com/feed"/>"#);
    let entries = extract_opml_feed_entries(&opml).unwrap();
    assert_eq!(entries[0].title, Some("Text Attr".to_string()));
}

#[test]
fn test_extract_opml_site_url_from_htmlurl() {
    let opml = basic_opml(
        r#"<outline xmlUrl="https://example.com/feed" htmlUrl="https://example.com" title="Ex"/>"#,
    );
    let entries = extract_opml_feed_entries(&opml).unwrap();
    assert_eq!(entries[0].site_url, Some("https://example.com".to_string()));
}

#[test]
fn test_extract_opml_trims_whitespace_from_urls() {
    let opml = basic_opml(r#"<outline xmlUrl="  https://example.com/feed  " title="Ex"/>"#);
    let entries = extract_opml_feed_entries(&opml).unwrap();
    assert_eq!(entries[0].url, "https://example.com/feed");
}

#[test]
fn blank_title_and_site_count_as_absent() {
    let opml = basic_opml(r#"<outline xmlUrl="https://e.com/f" title="   " text="T" htmlUrl=" "/>"#);
    let entries = extract_opml_feed_entries(&opml).unwrap();
    assert_eq!(entries[0].title, None);
    assert_eq!(entries[0].site_url, None);
}

#[test]
fn blank_feed_address_is_skipped() {
    let opml = basic_opml(r#"<outline xmlUrl="   " url="https://ignored.com/f"/>"#);
    assert_eq!(
        extract_opml_feed_entries(&opml).err().unwrap(),
        "No feed URLs found in OPML file"
    );
}

#[test]
fn namespaced_attribute_is_not_taken() {
    let opml = r#"<opml xmlns:x="urn:x"><body><outline x:xmlUrl="https://ns.com/f" url="https://plain.com/f"/></body></opml>"#;
    let entries = extract_opml_feed_entries(opml).unwrap();
    assert_eq!(entries[0].url, "https://plain.com/f");
}

fn attr(name: &str, value: &str) -> XmlAttribute {
    XmlAttribute { namespace: None, name: name.to_string(), value: value.to_string() }
}

#[test]
fn outline_entry_reads_plain_nodes() {
    let node = XmlNode {
        is_element: true,
        local_name: "outline".to_string(),
        attributes: vec![attr("text", " T "), attr("url", "u1"), attr("xmlurl", "u2")],
    };
    let e = outline_entry(&node).unwrap();
    assert_eq!(e.url, "u2");
    assert_eq!(e.title, Some("T".to_string()));
    let not_outline = XmlNode { is_element: true, local_name: "item".to_string(), attributes: vec![attr("url", "u")] };
    assert!(outline_entry(&not_outline).is_none());
    let text_node = XmlNode { is_element: false, local_name: String::new(), attributes: vec![] };
    assert!(opml_entries_of(&vec![text_node, node]).len() == 1);
    assert_eq!(attribute_of(&vec![attr("a", "1"), attr("a", "2")], "a"), Some("1".to_string()));
}

fn entry(url: &str, title: &str) -> OpmlFeedEntry {
    OpmlFeedEntry { url: url.to_string(), title: Some(title.to_string()), site_url: None }
}

#[test]
fn duplicates_are_dropped_keeping_the_first() {
    let entries = vec![
        entry("https://a/f", "A1"),
        entry("https://b/f", "B"),
        entry("https://a/f", "A2"),
        entry("https://c/f", "C"),
        entry("https://b/f", "B2"),
    ];
    let unique = unique_by_url(&entries);
    let urls: Vec<&str> = unique.iter().map(|e| e.url.as_str()).collect();
    assert_eq!(urls, vec!["https://a/f", "https://b/f", "https://c/f"]);
    assert_eq!(unique[0].title, Some("A1".to_string()));
    assert_eq!(unique[1].title, Some("B".to_string()));
    assert!(unique_by_url(&vec![]).is_empty());
}

#[test]
fn trim_removes_unicode_white_space() {
    assert_eq!(trim("\u{3000}\t x y \n\u{a0}"), "x y");
    assert_eq!(trim("   "), "");
    assert_eq!(trim("abc"), "abc");
}
