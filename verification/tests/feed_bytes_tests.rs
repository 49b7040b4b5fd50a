use mercury_reader::{feed_bytes_are_safe, parse_feed};

fn podcast(duration: &str) -> String {
    format!(
        r#"<?xml version="1.0" encoding="UTF-8"?>
<rss version="2.0" xmlns:itunes="http://www.itunes.com/dtds/podcast-1.0.dtd">
  <channel>
    <title>Cast</title>
    <link>https://cast.example.com/</link>
    <item>
      <title>Episode 1</title>
      <link>https://cast.example.com/1</link>
      <itunes:duration>{}</itunes:duration>
    </item>
  </channel>
</rss>"#,
        duration
    )
}

fn wide(text: &str) -> Vec<u8> {
    let mut out = vec![0xff, 0xfe];
    for c in text.encode_utf16() {
        out.push((c & 0xff) as u8);
        out.push((c >> 8) as u8);
    }
    out
}

#[test]
fn podcast_with_ordinary_duration_parses() {
    let doc = podcast("01:02:03");
    assert!(feed_bytes_are_safe(doc.as_bytes()));
    let (feed, articles) = parse_feed(doc.as_bytes(), "https://cast.example.com/rss").unwrap();
    assert_eq!(feed.title, "Cast");
    assert_eq!(articles.len(), 1);
    assert_eq!(articles[0].title, "Episode 1");
}

#[test]
fn twenty_digit_duration_is_not_safe() {
    assert!(!feed_bytes_are_safe(podcast("99999999999999999999").as_bytes()));
}

#[test]
fn nineteen_digit_duration_parses() {
    let doc = podcast("9999999999999999999");
    assert!(feed_bytes_are_safe(doc.as_bytes()));
    assert!(parse_feed(doc.as_bytes(), "https://cast.example.com/rss").is_ok());
}

#[test]
fn sixteen_digit_hours_are_not_safe() {
    assert!(!feed_bytes_are_safe(podcast("9999999999999999:00:00").as_bytes()));
    assert!(!feed_bytes_are_safe(podcast("9999999999999999&#58;00:00").as_bytes()));
    let doc = podcast("999999999999999:00:00");
    assert!(feed_bytes_are_safe(doc.as_bytes()));
    assert!(parse_feed(doc.as_bytes(), "https://cast.example.com/rss").is_ok());
}

#[test]
fn digits_joined_across_dropped_markup_are_counted() {
    assert!(!feed_bytes_are_safe(podcast("9999999999<!-- split -->9999999999").as_bytes()));
    assert!(!feed_bytes_are_safe(podcast("9999999999<![CDATA[9999999999]]>").as_bytes()));
    assert!(!feed_bytes_are_safe(podcast("9999999999<?pi x?>9999999999").as_bytes()));
    assert!(!feed_bytes_are_safe(podcast("9999999999<!DOCTYPE x>9999999999").as_bytes()));
    let doc = podcast("99999<!-- split -->99999");
    assert!(feed_bytes_are_safe(doc.as_bytes()));
    assert!(parse_feed(doc.as_bytes(), "https://cast.example.com/rss").is_ok());
}

#[test]
fn non_ascii_digits_in_a_duration_are_not_safe() {
    assert!(!feed_bytes_are_safe(podcast("\u{661}\u{662}:00:00").as_bytes()));
    assert!(!feed_bytes_are_safe(podcast("&#x661;2").as_bytes()));
    assert!(!feed_bytes_are_safe(podcast("&#1633;").as_bytes()));
    assert!(!feed_bytes_are_safe(podcast("<![CDATA[\u{ff11}]]>").as_bytes()));
}

#[test]
fn other_character_references_pass() {
    assert!(feed_bytes_are_safe(podcast("12&#58;00").as_bytes()));
    assert!(feed_bytes_are_safe(podcast("&#x3A;&#8217;").as_bytes()));
}

#[test]
fn media_time_attribute_is_screened() {
    let doc = r#"<rss version="2.0" xmlns:media="http://search.yahoo.com/mrss/"><channel><title>T</title>
<item><title>A</title><media:thumbnail url="https://e.com/a.png" time = "123456789012345678901"/></item>
</channel></rss>"#;
    assert!(!feed_bytes_are_safe(doc.as_bytes()));
    let ok = doc.replace("123456789012345678901", "12:05:35.5");
    assert!(feed_bytes_are_safe(ok.as_bytes()));
    assert!(parse_feed(ok.as_bytes(), "https://e.com/rss").is_ok());
    let glued = doc.replace(" time = ", "time=");
    assert!(glued.contains("a.png\"time="));
    assert!(!feed_bytes_are_safe(glued.as_bytes()));
}

#[test]
fn digits_elsewhere_in_a_podcast_are_not_screened() {
    let doc = podcast("00:42:10")
        .replace(
            "<title>Episode 1</title>",
            "<title>\u{6f1}\u{6f2} &#1633;</title><guid>https://cast.example.com/e/123456789012345678901234</guid>\
             <description>duration 123456789012345678901234 &lt;duration&gt;99999999999999999999</description>",
        );
    assert!(feed_bytes_are_safe(doc.as_bytes()));
    let (_, articles) = parse_feed(doc.as_bytes(), "https://cast.example.com/rss").unwrap();
    assert_eq!(articles.len(), 1);
}

#[test]
fn a_comment_inside_a_duration_does_not_widen_the_screen() {
    let doc = podcast("1<!-- <b> -->2").replace(
        "</channel>",
        "<copyright>123456789012345678901234</copyright></channel>",
    );
    assert!(feed_bytes_are_safe(doc.as_bytes()));
    assert!(parse_feed(doc.as_bytes(), "https://cast.example.com/rss").is_ok());
}

#[test]
fn declared_encodings_matter_only_for_non_ascii_play_times() {
    let ascii = podcast("10").replace("UTF-8", "Shift_JIS");
    assert!(feed_bytes_are_safe(ascii.as_bytes()));
    assert!(parse_feed(ascii.as_bytes(), "https://cast.example.com/rss").is_ok());
    let mut fullwidth = podcast("@").replace("UTF-8", "Shift_JIS").into_bytes();
    let at = fullwidth.iter().position(|&x| x == b'@').unwrap();
    fullwidth.splice(at..at + 1, [0x82, 0x50]);
    assert!(!feed_bytes_are_safe(&fullwidth));
}

#[test]
fn feeds_without_the_namespaces_are_not_screened() {
    let doc = r#"<?xml version="1.0" encoding="Shift_JIS"?><rss version="2.0"><channel>
<title>News</title><item><title>123456789012345678901234567890 &#x661;</title>
<duration>99999999999999999999</duration></item></channel></rss>"#;
    assert!(feed_bytes_are_safe(doc.as_bytes()));
    assert!(feed_bytes_are_safe(b"<\0?\0x\0m\0l\0"));
    assert!(feed_bytes_are_safe(&wide("<rss><channel><title>T</title></channel></rss>")));
    assert!(feed_bytes_are_safe(b""));
}

#[test]
fn namespaces_in_a_sixteen_bit_encoding_are_not_safe() {
    assert!(!feed_bytes_are_safe(&wide(&podcast("10"))));
}

#[test]
fn document_types_are_followed() {
    let plain = podcast("99999999999999999999").replace(
        "<rss",
        "<!DOCTYPE rss PUBLIC \"-//x//DTD RSS//EN\" \"a>b\"><rss",
    );
    assert!(!feed_bytes_are_safe(plain.as_bytes()));
    let ok = podcast("10").replace("<rss", "<!DOCTYPE rss SYSTEM \"x>y\"><rss");
    assert!(feed_bytes_are_safe(ok.as_bytes()));
    let subset = podcast("10").replace("<rss", "<!DOCTYPE rss [ <!ENTITY e \"x\"> ]><rss");
    assert!(!feed_bytes_are_safe(subset.as_bytes()));
}

#[test]
fn escapes_under_other_encodings_are_not_safe() {
    let doc = podcast("10").replace("UTF-8", "ISO-2022-JP").replace("Cast</title>", "C\x1b(Bast</title>");
    assert!(!feed_bytes_are_safe(doc.as_bytes()));
    let plain = r#"<?xml version="1.0" encoding="ISO-2022-JP"?><rss version="2.0"><channel><title>T</title></channel></rss>"#;
    assert!(feed_bytes_are_safe(plain.as_bytes()));
}
