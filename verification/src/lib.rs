//! A feed reader's core: turning fetched feeds and OPML files into records,
//! detecting anti-bot pages, and the bookkeeping of syncs and imports.
mod article;
mod feed_bytes;
mod feed_parser;
mod laws;
mod models;
mod opml;
mod sync;
mod text;

pub use article::{
    accept_fetched_page, article_or_not_found, has_challenge_marker, is_bot_challenge_page,
    page_window, require_found, search_pattern,
};
pub use feed_bytes::feed_bytes_are_safe;
pub use feed_parser::{
    build_article, build_feed, extract_article_content, extract_favicon_url,
    favicon_url_from_parts, parse_feed, site_url_of, FeedDocument, FeedItem, FeedLink,
};
pub use models::{
    AddFeedRequest, Article, Feed, FeedSyncResult, OpmlImportRequest, OpmlImportResult,
};
pub use opml::{
    attribute_of, extract_opml_feed_entries, opml_entries_of, outline_entry, unique_by_url,
    clone_entry, OpmlFeedEntry, XmlAttribute, XmlNode,
};
pub use sync::{
    ensure_feed_is_new, imported_feed_record, insert_outcome, is_unseen_article,
    opml_entry_is_new, parse_failure_message, placeholder_feed_record, OpmlImportOutcome,
    OpmlProgress, OpmlProgressPayload, SyncAllTally, SyncTally, TaskPool, OPML_IMPORT_CONCURRENCY,
};
pub use text::trim;
