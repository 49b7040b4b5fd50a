//! The records that the reader stores and hands to its front end.
use vstd::prelude::*;

verus! {

/// A subscribed feed.
#[derive(Debug, Clone)]
pub struct Feed {
    pub id: String,
    pub title: String,
    pub url: String,
    pub description: Option<String>,
    pub favicon_url: Option<String>,
    pub site_url: Option<String>,
    pub article_count: i32,
    pub unread_count: i32,
    pub is_starred: bool,
    pub created_at: String,
    pub updated_at: String,
}

/// The mathematical content of a [`Feed`].
pub struct FeedView {
    pub id: Seq<char>,
    pub title: Seq<char>,
    pub url: Seq<char>,
    pub description: Option<Seq<char>>,
    pub favicon_url: Option<Seq<char>>,
    pub site_url: Option<Seq<char>>,
    pub article_count: i32,
    pub unread_count: i32,
    pub is_starred: bool,
    pub created_at: Seq<char>,
    pub updated_at: Seq<char>,
}

impl View for Feed {
    type V = FeedView;

    open spec fn view(&self) -> FeedView {
        FeedView {
            id: self.id@,
            title: self.title@,
            url: self.url@,
            description: self.description.deep_view(),
            favicon_url: self.favicon_url.deep_view(),
            site_url: self.site_url.deep_view(),
            article_count: self.article_count,
            unread_count: self.unread_count,
            is_starred: self.is_starred,
            created_at: self.created_at@,
            updated_at: self.updated_at@,
        }
    }
}

/// An article of a feed.
#[derive(Debug, Clone)]
pub struct Article {
    pub id: String,
    pub feed_id: String,
    pub title: String,
    pub url: String,
    pub content: String,
    pub summary: Option<String>,
    pub author: Option<String>,
    pub published_at: String,
    pub is_read: bool,
    pub created_at: String,
    pub updated_at: String,
}

/// The mathematical content of an [`Article`].
pub struct ArticleView {
    pub id: Seq<char>,
    pub feed_id: Seq<char>,
    pub title: Seq<char>,
    pub url: Seq<char>,
    pub content: Seq<char>,
    pub summary: Option<Seq<char>>,
    pub author: Option<Seq<char>>,
    pub published_at: Seq<char>,
    pub is_read: bool,
    pub created_at: Seq<char>,
    pub updated_at: Seq<char>,
}

impl View for Article {
    type V = ArticleView;

    open spec fn view(&self) -> ArticleView {
        ArticleView {
            id: self.id@,
            feed_id: self.feed_id@,
            title: self.title@,
            url: self.url@,
            content: self.content@,
            summary: self.summary.deep_view(),
            author: self.author.deep_view(),
            published_at: self.published_at@,
            is_read: self.is_read,
            created_at: self.created_at@,
            updated_at: self.updated_at@,
        }
    }
}

/// A request to subscribe to the feed at `url`.
#[derive(Debug, Clone)]
pub struct AddFeedRequest {
    pub url: String,
}

/// A request to import the feeds listed in an OPML document.
#[derive(Debug, Clone)]
pub struct OpmlImportRequest {
    pub opml_content: String,
}

/// What a sync of one feed found.
#[derive(Debug, Clone)]
pub struct FeedSyncResult {
    pub feed_id: String,
    pub new_articles: i32,
    pub updated_articles: i32,
}

/// What an OPML import did with the feeds it found.
#[derive(Debug, Clone, Copy)]
pub struct OpmlImportResult {
    pub total: i32,
    pub imported: i32,
    pub skipped: i32,
    pub failed: i32,
}

} // verus!
