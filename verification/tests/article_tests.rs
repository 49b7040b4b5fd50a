use mercury_reader::{
    accept_fetched_page, article_or_not_found, has_challenge_marker, is_bot_challenge_page,
    page_window, require_found, search_pattern, Article,
};

#[test]
fn test_normal_html_is_not_bot_challenge() {
    let html = "<html><body><h1>Welcome</h1><p>Regular article content.</p></body></html>";
    assert!(!is_bot_challenge_page(html));
}

#[test]
fn test_cloudflare_connection_check_detected() {
    let html = "<html><body><p>Checking if the site connection is secure</p></body></html>";
    assert!(is_bot_challenge_page(html));
}

#[test]
fn test_enable_javascript_detected() {
    let html = "<html><body><h1>Enable JavaScript and cookies to continue</h1></body></html>";
    assert!(is_bot_challenge_page(html));
}

#[test]
fn test_ad_blocker_message_detected() {
    let html = "<html><body>Please enable JS and disable any ad blocker</body></html>";
    assert!(is_bot_challenge_page(html));
}

#[test]
fn test_cf_chl_attribute_detected() {
    let html = r#"<html><body><div id="cf-chl-widget-xyz">challenge</div></body></html>"#;
    assert!(is_bot_challenge_page(html));
}

#[test]
fn test_cloudflare_brand_name_detected() {
    let html = "<html><body><p>Protected by Cloudflare</p></body></html>";
    assert!(is_bot_challenge_page(html));
}

#[test]
fn test_detection_is_case_insensitive() {
    let html = "<html><body><p>ENABLE JAVASCRIPT</p></body></html>";
    assert!(is_bot_challenge_page(html));
}

#[test]
fn test_empty_html_is_not_bot_challenge() {
    assert!(!is_bot_challenge_page(""));
}

#[test]
fn test_unrelated_cf_prefix_not_matched() {
    let html = "<html><body><div id='cf-banner'>Info</div></body></html>";
    assert!(!is_bot_challenge_page(html));
}

#[test]
fn marker_check_is_on_lowercase_text_only() {
    assert!(has_challenge_marker("please enable js and disable any ad blocker"));
    assert!(!has_challenge_marker("CLOUDFLARE"));
    assert!(has_challenge_marker("xxcf-chlxx"));
}

#[test]
fn case_insensitivity_law_on_mixed_case() {
    assert_eq!(
        is_bot_challenge_page("CloudFlare"),
        is_bot_challenge_page("cloudflare")
    );
    assert!(is_bot_challenge_page("CHECKING IF THE SITE CONNECTION IS SECURE"));
}

#[test]
fn fetched_challenge_page_is_refused() {
    let r = accept_fetched_page("<p>Cloudflare</p>".to_string());
    assert_eq!(
        r,
        Err("This site blocks automated fetch (JS challenge/ad-block check). Open the original article in your browser.".to_string())
    );
}

#[test]
fn fetched_article_page_is_kept_unchanged() {
    let html = "<html><body>A story</body></html>".to_string();
    assert_eq!(accept_fetched_page(html.clone()), Ok(html));
}

fn sample_article() -> Article {
    Article {
        id: "a1".to_string(),
        feed_id: "f1".to_string(),
        title: "T".to_string(),
        url: "https://example.com/a1".to_string(),
        content: String::new(),
        summary: None,
        author: None,
        published_at: "2024-01-01T00:00:00Z".to_string(),
        is_read: false,
        created_at: "2024-01-01T00:00:00Z".to_string(),
        updated_at: "2024-01-01T00:00:00Z".to_string(),
    }
}

#[test]
fn missing_article_gives_not_found() {
    assert_eq!(article_or_not_found(None).unwrap_err(), "Article not found");
    assert_eq!(article_or_not_found(Some(sample_article())).unwrap().id, "a1");
}

#[test]
fn missing_feed_gives_its_message() {
    let r: Result<i32, String> = require_found(None, "Feed not found");
    assert_eq!(r, Err("Feed not found".to_string()));
    assert_eq!(require_found(Some(7), "Feed not found"), Ok(7));
}

#[test]
fn page_window_defaults_and_bounds() {
    assert_eq!(page_window(None, None), (50, 0));
    assert_eq!(page_window(Some(0), Some(-5)), (1, 0));
    assert_eq!(page_window(Some(1000), Some(30)), (200, 30));
    assert_eq!(page_window(Some(20), Some(40)), (20, 40));
    assert_eq!(page_window(Some(i64::MIN), Some(i64::MAX)), (1, i64::MAX));
}

#[test]
fn search_pattern_wraps_query() {
    assert_eq!(search_pattern("rust"), "%rust%");
    assert_eq!(search_pattern(""), "%%");
}

#[test]
fn ascii_case_changes_keep_the_judgment() {
    for html in [
        "<p>Enable JavaScript to continue</p>",
        "<html><body>An ordinary article</body></html>",
        "<div class=\"cf-chl-widget\">",
    ] {
        let judged = is_bot_challenge_page(html);
        assert_eq!(is_bot_challenge_page(&html.to_ascii_uppercase()), judged);
        assert_eq!(is_bot_challenge_page(&html.to_ascii_lowercase()), judged);
    }
}

#[test]
fn surrounding_text_keeps_a_challenge_flagged() {
    let page = "Checking if the site connection is secure";
    assert!(is_bot_challenge_page(page));
    let wrapped = format!("<html><head></head><body>{}</body></html>", page);
    assert!(is_bot_challenge_page(&wrapped));
}

#[test]
fn ascii_case_changes_keep_the_judgment_on_non_ascii_pages() {
    for html in ["<p>Ça: Enable JavaScript, s'il vous plaît</p>", "<p>Überblick ΣΟΦΙΑ</p>"] {
        let judged = is_bot_challenge_page(html);
        assert_eq!(is_bot_challenge_page(&html.to_ascii_uppercase()), judged);
        assert_eq!(is_bot_challenge_page(&html.to_ascii_lowercase()), judged);
    }
}
