use mercury_reader::{
    ensure_feed_is_new, imported_feed_record, insert_outcome, is_unseen_article,
    opml_entry_is_new, parse_failure_message, placeholder_feed_record, Feed, OpmlFeedEntry,
    OpmlImportOutcome, OpmlProgress, SyncAllTally, SyncTally, TaskPool,
};

#[test]
fn pool_runs_at_most_four_at_once_in_order() {
    let (mut pool, first) = TaskPool::start(6);
    assert_eq!(first, 4);
    assert_eq!(pool.in_flight(), 4);
    assert_eq!(pool.complete(), Some(4));
    assert_eq!(pool.in_flight(), 4);
    assert_eq!(pool.complete(), Some(5));
    assert_eq!(pool.complete(), None);
    assert_eq!(pool.in_flight(), 3);
    assert_eq!(pool.complete(), None);
    assert_eq!(pool.complete(), None);
    assert_eq!(pool.complete(), None);
    assert_eq!(pool.in_flight(), 0);
}

#[test]
fn pool_with_few_tasks() {
    let (mut pool, first) = TaskPool::start(2);
    assert_eq!(first, 2);
    assert_eq!(pool.complete(), None);
    assert_eq!(pool.complete(), None);
    assert_eq!(pool.in_flight(), 0);
    let (empty, none) = TaskPool::start(0);
    assert_eq!(none, 0);
    assert_eq!(empty.in_flight(), 0);
}

#[test]
fn sync_tally_counts_new_and_updated() {
    let mut t = SyncTally::new();
    assert!(t.record(0));
    assert!(!t.record(1));
    assert!(!t.record(3));
    assert!(t.record(0));
    let r = t.into_result("feed-9".to_string());
    assert_eq!(r.feed_id, "feed-9");
    assert_eq!(r.new_articles, 2);
    assert_eq!(r.updated_articles, 2);
}

#[test]
fn sync_all_tally() {
    let mut t = SyncAllTally::new();
    t.record(true);
    t.record(false);
    t.record(true);
    assert_eq!((t.synced, t.failed), (2, 1));
}

#[test]
fn background_sync_stores_only_unseen() {
    assert!(is_unseen_article(0));
    assert!(!is_unseen_article(2));
}

#[test]
fn progress_counts_each_outcome() {
    let mut p = OpmlProgress::new(3);
    let start = p.report();
    assert_eq!((start.current, start.total), (0, 3));
    p.record(OpmlImportOutcome::Imported);
    p.record(OpmlImportOutcome::Skipped);
    let last = p.record(OpmlImportOutcome::Failed);
    assert_eq!((last.current, last.imported, last.skipped, last.failed), (3, 1, 1, 1));
    let r = p.result();
    assert_eq!((r.total, r.imported, r.skipped, r.failed), (3, 1, 1, 1));
}

#[test]
fn import_decisions() {
    assert!(opml_entry_is_new(0));
    assert!(!opml_entry_is_new(1));
    assert_eq!(insert_outcome(true), OpmlImportOutcome::Imported);
    assert_eq!(insert_outcome(false), OpmlImportOutcome::Failed);
    assert_eq!(ensure_feed_is_new(0), Ok(()));
    assert_eq!(ensure_feed_is_new(2), Err("Feed already exists".to_string()));
    assert_eq!(parse_failure_message("boom"), "Failed to parse feed: boom");
}

fn parsed() -> Feed {
    Feed {
        id: "p1".to_string(),
        title: "Parsed".to_string(),
        url: "https://other/feed".to_string(),
        description: Some("d".to_string()),
        favicon_url: Some("https://p/favicon.ico".to_string()),
        site_url: Some("https://p/".to_string()),
        article_count: 5,
        unread_count: 5,
        is_starred: false,
        created_at: "t0".to_string(),
        updated_at: "t0".to_string(),
    }
}

#[test]
fn imported_record_prefers_entry_site() {
    let e = OpmlFeedEntry { url: "https://e/feed".to_string(), title: None, site_url: Some("https://e/".to_string()) };
    let r = imported_feed_record(&e, &parsed(), "now".to_string());
    assert_eq!(r.id, "p1");
    assert_eq!(r.url, "https://e/feed");
    assert_eq!(r.site_url, Some("https://e/".to_string()));
    assert_eq!(r.article_count, 5);
    assert_eq!(r.created_at, "now");
    let e2 = OpmlFeedEntry { url: "https://e/feed".to_string(), title: None, site_url: None };
    assert_eq!(imported_feed_record(&e2, &parsed(), "now".to_string()).site_url, Some("https://p/".to_string()));
}

#[test]
fn placeholder_record_uses_title_or_address() {
    let e = OpmlFeedEntry { url: "https://e/feed".to_string(), title: None, site_url: None };
    let r = placeholder_feed_record(&e, "x".to_string(), "now".to_string());
    assert_eq!(r.title, "https://e/feed");
    assert_eq!((r.article_count, r.unread_count), (0, 0));
    assert_eq!(r.description, None);
    let e2 = OpmlFeedEntry { url: "https://e/feed".to_string(), title: Some("Named".to_string()), site_url: Some("s".to_string()) };
    let r2 = placeholder_feed_record(&e2, "y".to_string(), "now".to_string());
    assert_eq!(r2.title, "Named");
    assert_eq!(r2.site_url, Some("s".to_string()));
    assert_eq!(r2.id, "y");
}

#[test]
fn progress_reports_over_a_whole_import() {
    let outcomes = [
        OpmlImportOutcome::Imported,
        OpmlImportOutcome::Failed,
        OpmlImportOutcome::Imported,
        OpmlImportOutcome::Skipped,
        OpmlImportOutcome::Imported,
    ];
    let mut p = OpmlProgress::new(outcomes.len());
    let mut reports = vec![p.report()];
    for o in outcomes {
        reports.push(p.record(o));
    }
    assert_eq!((reports[0].current, reports[0].imported, reports[0].skipped, reports[0].failed), (0, 0, 0, 0));
    for (k, r) in reports.iter().enumerate() {
        assert_eq!(r.current, k as i32);
        assert_eq!(r.total, 5);
        assert_eq!(r.imported + r.skipped + r.failed, r.current);
        if k > 0 {
            let before = &reports[k - 1];
            assert!(before.imported <= r.imported);
            assert!(before.skipped <= r.skipped);
            assert!(before.failed <= r.failed);
        }
    }
    let result = p.result();
    let last = reports[5];
    assert_eq!((result.imported, result.skipped, result.failed), (3, 1, 1));
    assert_eq!((last.imported, last.skipped, last.failed), (3, 1, 1));
}

#[test]
fn pool_never_runs_more_than_four_over_a_long_import() {
    let (mut pool, first) = TaskPool::start(10);
    assert_eq!(first, 4);
    let mut started = first;
    for _ in 0..10 {
        assert!(pool.in_flight() <= 4);
        if let Some(next) = pool.complete() {
            assert_eq!(next, started);
            started += 1;
        }
    }
    assert_eq!(started, 10);
    assert_eq!(pool.in_flight(), 0);
}
