//! Turning the bytes of an RSS, Atom or JSON feed into a [`Feed`] and its
//! [`Article`]s.
use vstd::prelude::*;

use crate::feed_bytes::feed_bytes_safe;
use crate::models::{Article, ArticleView, Feed, FeedView};
use crate::text::concat_str;

verus! {

/// A link of a feed, as the feed document gives it.
pub struct FeedLink {
    pub href: String,
    pub rel: Option<String>,
}

/// The mathematical content of a [`FeedLink`].
pub struct FeedLinkView {
    pub href: Seq<char>,
    pub rel: Option<Seq<char>>,
}

impl View for FeedLink {
    type V = FeedLinkView;

    open spec fn view(&self) -> FeedLinkView {
        FeedLinkView { href: self.href@, rel: self.rel.deep_view() }
    }
}

/// One entry of a feed document: what the reader takes from it.
pub struct FeedItem {
    pub title: Option<String>,
    /// The targets of the entry's links, in document order.
    pub links: Vec<String>,
    /// The body of the entry's content element.
    pub content_body: Option<String>,
    pub summary: Option<String>,
    /// The names of the entry's authors.
    pub authors: Vec<String>,
    /// The names of the entry's contributors.
    pub contributors: Vec<String>,
    /// The publication time, in RFC 3339 form.
    pub published: Option<String>,
}

/// The mathematical content of a [`FeedItem`].
pub struct FeedItemView {
    pub title: Option<Seq<char>>,
    pub links: Seq<Seq<char>>,
    pub content_body: Option<Seq<char>>,
    pub summary: Option<Seq<char>>,
    pub authors: Seq<Seq<char>>,
    pub contributors: Seq<Seq<char>>,
    pub published: Option<Seq<char>>,
}

impl View for FeedItem {
    type V = FeedItemView;

    open spec fn view(&self) -> FeedItemView {
        FeedItemView {
            title: self.title.deep_view(),
            links: self.links.deep_view(),
            content_body: self.content_body.deep_view(),
            summary: self.summary.deep_view(),
            authors: self.authors.deep_view(),
            contributors: self.contributors.deep_view(),
            published: self.published.deep_view(),
        }
    }
}

/// A parsed feed document: what the reader takes from it.
pub struct FeedDocument {
    pub title: Option<String>,
    pub description: Option<String>,
    pub links: Vec<FeedLink>,
    pub items: Vec<FeedItem>,
}

/// The mathematical content of a [`FeedDocument`].
pub struct FeedDocumentView {
    pub title: Option<Seq<char>>,
    pub description: Option<Seq<char>>,
    pub links: Seq<FeedLinkView>,
    pub items: Seq<FeedItemView>,
}

impl View for FeedDocument {
    type V = FeedDocumentView;

    open spec fn view(&self) -> FeedDocumentView {
        FeedDocumentView {
            title: self.title.deep_view(),
            description: self.description.deep_view(),
            links: self.links@.map_values(|l: FeedLink| l@),
            items: self.items@.map_values(|i: FeedItem| i@),
        }
    }
}

/// Names what `feed_rs::parser::parse` makes of the bytes of a feed, as far
/// as the reader keeps it (the fields of [`FeedDocument`]): the document, or
/// the text of its error.
pub uninterp spec fn feed_document(content: Seq<u8>) -> Result<FeedDocumentView, Seq<char>>;

/// The mathematical content of a parse result.
pub open spec fn document_result_view(r: Result<FeedDocument, String>) -> Result<
    FeedDocumentView,
    Seq<char>,
> {
    match r {
        Ok(d) => Ok(d@),
        Err(e) => Err(e@),
    }
}

/// The entry type of `feed_rs`'s model, carried opaquely.
#[verifier::external_type_specification]
#[verifier::external_body]
pub struct ExFeedRsEntry(feed_rs::model::Entry);

/// Converts an entry of `feed_rs`'s model into the fields that the reader
/// uses: title and summary by their content, links by target, people by
/// name, the content's body, and the publication time formatted by
/// `chrono::DateTime::to_rfc3339`. It is the entry conversion of
/// [`read_feed_document`], whose contract states what comes out; nothing is
/// stated here.
#[verifier::external_body]
fn item_of_entry(e: feed_rs::model::Entry) -> (r: FeedItem) {
    FeedItem {
        title: e.title.map(|t| t.content),
        links: e.links.into_iter().map(|l| l.href).collect(),
        content_body: e.content.and_then(|c| c.body),
        summary: e.summary.map(|t| t.content),
        authors: e.authors.into_iter().map(|p| p.name).collect(),
        contributors: e.contributors.into_iter().map(|p| p.name).collect(),
        published: e.published.map(|d| d.to_rfc3339()),
    }
}

/// Calls `feed_rs::parser::parse` and keeps the fields that the reader uses
/// (title and description by their content, links by target and relation,
/// entries through [`item_of_entry`], an error by its text). Claimed: the
/// result is `feed_document` of the bytes. The parser panics on
/// some play times (see [`crate::feed_bytes`]); the bytes are required to
/// pass [`feed_bytes_safe`], which rules those out.
#[verifier::external_body]
fn read_feed_document(content: &[u8]) -> (r: Result<FeedDocument, String>)
    requires
        feed_bytes_safe(content@),
    ensures
        document_result_view(r) == feed_document(content@),
{
    let f = feed_rs::parser::parse(content).map_err(|e| e.to_string())?;
    Ok(FeedDocument {
        title: f.title.map(|t| t.content),
        description: f.description.map(|t| t.content),
        links: f.links.into_iter().map(|l| FeedLink { href: l.href, rel: l.rel }).collect(),
        items: f.entries.into_iter().map(item_of_entry).collect(),
    })
}

/// The feed's title, or `Untitled Feed` when it has none.
pub open spec fn feed_title_spec(doc: FeedDocumentView) -> Seq<char> {
    match doc.title {
        Some(t) => t,
        None => "Untitled Feed"@,
    }
}

/// A link whose relation is `self` (the feed pointing at itself).
pub open spec fn is_self_link(l: FeedLinkView) -> bool {
    l.rel == Some("self"@)
}

/// The target of the first link that is not a `self` link.
pub open spec fn site_url_spec(links: Seq<FeedLinkView>) -> Option<Seq<char>>
    decreases links.len(),
{
    if links.len() == 0 {
        None
    } else if !is_self_link(links[0]) {
        Some(links[0].href)
    } else {
        site_url_spec(links.drop_first())
    }
}

/// The site of a feed: the target of its first link that is not a `self` link.
pub fn site_url_of(links: &Vec<FeedLink>) -> (r: Option<String>)
    ensures
        r.deep_view() == site_url_spec(links@.map_values(|l: FeedLink| l@)),
{
    let ghost all = links@.map_values(|l: FeedLink| l@);
    let n = links.len();
    let mut i: usize = 0;
    assert(all.subrange(0, n as int) =~= all);
    while i < n
        invariant
            n == links.len(),
            i <= n,
            all == links@.map_values(|l: FeedLink| l@),
            site_url_spec(all) == site_url_spec(all.subrange(i as int, n as int)),
        decreases n - i,
    {
        let l = &links[i];
        let self_rel = String::from_str("self");
        let is_self = match &l.rel {
            Some(rel) => *rel == self_rel,
            None => false,
        };
        assert(all.subrange(i as int, n as int)[0] == l@);
        if !is_self {
            return Some(l.href.clone());
        }
        assert(all.subrange(i as int, n as int).drop_first() =~= all.subrange(i + 1, n as int));
        i = i + 1;
    }
    None
}

/// Names what `url::Url::parse` makes of a text: its scheme and host (as
/// `Url::scheme` and `Url::host_str` give them), or `None` when it does not parse.
pub uninterp spec fn url_scheme_and_host(input: Seq<char>) -> Option<(Seq<char>, Option<Seq<char>>)>;

/// Calls `url::Url::parse`, then `Url::scheme` and `Url::host_str` on the result.
/// Claimed: the result is `url_scheme_and_host` of the text.
#[verifier::external_body]
fn url_scheme_host(input: &str) -> (r: Option<(String, Option<String>)>)
    ensures
        r.deep_view() == url_scheme_and_host(input@),
{
    url::Url::parse(input).ok().map(|u| (u.scheme().to_string(), u.host_str().map(|h| h.to_string())))
}

/// `scheme://host/favicon.ico`, with an empty host when there is none.
pub open spec fn favicon_from_parts_spec(scheme: Seq<char>, host: Option<Seq<char>>) -> Seq<char> {
    let h = match host {
        Some(h) => h,
        None => Seq::empty(),
    };
    scheme + "://"@ + h + "/favicon.ico"@
}

/// The favicon address of a site: `favicon.ico` at the root of its scheme
/// and host; none when there is no site or its address does not parse.
pub open spec fn favicon_url_spec(site_url: Option<Seq<char>>) -> Option<Seq<char>> {
    match site_url {
        None => None,
        Some(u) => match url_scheme_and_host(u) {
            None => None,
            Some(parts) => Some(favicon_from_parts_spec(parts.0, parts.1)),
        },
    }
}

/// `scheme://host/favicon.ico`, with an empty host when there is none.
pub fn favicon_url_from_parts(scheme: &str, host: Option<&str>) -> (r: String)
    ensures
        r@ == favicon_from_parts_spec(scheme@, host.deep_view()),
{
    let base = concat_str(scheme, "://");
    let base = match host {
        Some(h) => concat_str(base.as_str(), h),
        None => base,
    };
    concat_str(base.as_str(), "/favicon.ico")
}

/// The favicon address for a site: `favicon.ico` at the root of the site's
/// scheme and host (the port and path are dropped).
pub fn extract_favicon_url(site_url: &Option<String>) -> (r: Option<String>)
    ensures
        r.deep_view() == favicon_url_spec(site_url.deep_view()),
{
    match site_url {
        None => None,
        Some(u) => match url_scheme_host(u.as_str()) {
            None => None,
            Some((scheme, host)) => {
                let h = match &host {
                    Some(h) => Some(h.as_str()),
                    None => None,
                };
                Some(favicon_url_from_parts(scheme.as_str(), h))
            },
        },
    }
}

/// The content kept for an entry: its content body when non-empty, else its
/// summary when non-empty, else the empty text.
pub open spec fn article_content_spec(item: FeedItemView) -> Seq<char> {
    if item.content_body is Some && item.content_body->Some_0.len() > 0 {
        item.content_body->Some_0
    } else if item.summary is Some && item.summary->Some_0.len() > 0 {
        item.summary->Some_0
    } else {
        Seq::empty()
    }
}

/// The content kept for an entry, raw HTML included: its content body when
/// non-empty, else its summary when non-empty, else the empty text.
pub fn extract_article_content(item: &FeedItem) -> (r: String)
    ensures
        r@ == article_content_spec(item@),
{
    if let Some(body) = &item.content_body {
        if !body.as_str().is_empty() {
            return body.clone();
        }
    }
    if let Some(summary) = &item.summary {
        if !summary.as_str().is_empty() {
            return summary.clone();
        }
    }
    String::new()
}

/// The author of an entry: its first author, else its first contributor.
pub open spec fn author_spec(item: FeedItemView) -> Option<Seq<char>> {
    if item.authors.len() > 0 {
        Some(item.authors[0])
    } else if item.contributors.len() > 0 {
        Some(item.contributors[0])
    } else {
        None
    }
}

/// The article made of an entry of the feed `feed_id` fetched from
/// `original_url`, with the id `id`, made at the time `now`.
pub open spec fn article_spec(
    item: FeedItemView,
    feed_id: Seq<char>,
    original_url: Seq<char>,
    id: Seq<char>,
    now: Seq<char>,
) -> ArticleView {
    ArticleView {
        id: id,
        feed_id: feed_id,
        title: match item.title {
            Some(t) => t,
            None => "Untitled"@,
        },
        url: if item.links.len() > 0 {
            item.links[0]
        } else {
            original_url
        },
        content: article_content_spec(item),
        summary: item.summary,
        author: author_spec(item),
        published_at: match item.published {
            Some(p) => p,
            None => now,
        },
        is_read: false,
        created_at: now,
        updated_at: now,
    }
}

/// The feed made of a document fetched from `original_url`, with the id
/// `id`, made at the time `now`: every entry counts as an unread article.
pub open spec fn feed_spec(
    doc: FeedDocumentView,
    original_url: Seq<char>,
    id: Seq<char>,
    now: Seq<char>,
) -> FeedView {
    FeedView {
        id: id,
        title: feed_title_spec(doc),
        url: original_url,
        description: doc.description,
        favicon_url: favicon_url_spec(site_url_spec(doc.links)),
        site_url: site_url_spec(doc.links),
        article_count: doc.items.len() as i32,
        unread_count: doc.items.len() as i32,
        is_starred: false,
        created_at: now,
        updated_at: now,
    }
}

fn clone_opt(s: &Option<String>) -> (r: Option<String>)
    ensures
        r.deep_view() == s.deep_view(),
{
    match s {
        Some(x) => Some(x.clone()),
        None => None,
    }
}

/// The article made of an entry of the feed `feed_id` fetched from
/// `original_url`, with the id `id`, made at the time `now`.
pub fn build_article(
    item: &FeedItem,
    feed_id: &str,
    original_url: &str,
    id: String,
    now: String,
) -> (r: Article)
    ensures
        r@ == article_spec(item@, feed_id@, original_url@, id@, now@),
{
    let title = match &item.title {
        Some(t) => t.clone(),
        None => String::from_str("Untitled"),
    };
    let url = if item.links.len() > 0 {
        item.links[0].clone()
    } else {
        String::from_str(original_url)
    };
    let author = if item.authors.len() > 0 {
        Some(item.authors[0].clone())
    } else if item.contributors.len() > 0 {
        Some(item.contributors[0].clone())
    } else {
        None
    };
    let published_at = match &item.published {
        Some(p) => p.clone(),
        None => now.clone(),
    };
    let content = extract_article_content(item);
    let summary = clone_opt(&item.summary);
    let created_at = now.clone();
    Article {
        id,
        feed_id: String::from_str(feed_id),
        title,
        url,
        content,
        summary,
        author,
        published_at,
        is_read: false,
        created_at,
        updated_at: now,
    }
}

/// The feed made of a document fetched from `original_url`, with the id
/// `id`, made at the time `now`.
pub fn build_feed(doc: &FeedDocument, original_url: &str, id: String, now: String) -> (r: Feed)
    ensures
        r@ == feed_spec(doc@, original_url@, id@, now@),
{
    let title = match &doc.title {
        Some(t) => t.clone(),
        None => String::from_str("Untitled Feed"),
    };
    let site_url = site_url_of(&doc.links);
    let favicon_url = extract_favicon_url(&site_url);
    let count = doc.items.len() as i32;
    let created_at = now.clone();
    Feed {
        id,
        title,
        url: String::from_str(original_url),
        description: clone_opt(&doc.description),
        favicon_url,
        site_url,
        article_count: count,
        unread_count: count,
        is_starred: false,
        created_at,
        updated_at: now,
    }
}

/// Calls `uuid::Uuid::new_v4` and gives its hyphenated text. Nothing is
/// stated of the result: it is random.
#[verifier::external_body]
pub(crate) fn new_id() -> (r: String) {
    uuid::Uuid::new_v4().to_string()
}

/// Calls `chrono::Utc::now` and gives it in RFC 3339 form. Nothing is stated
/// of the result: it is the time of the call.
#[verifier::external_body]
pub(crate) fn now_rfc3339() -> (r: String) {
    chrono::Utc::now().to_rfc3339()
}

/// `feed` and `articles` are what a document fetched from `original_url`
/// makes, whatever ids and times they were given: the feed follows
/// [`feed_spec`] and each article follows [`article_spec`] for the entry at
/// its position, belonging to the feed.
pub open spec fn parsed_feed_matches(
    feed: FeedView,
    articles: Seq<ArticleView>,
    doc: FeedDocumentView,
    original_url: Seq<char>,
) -> bool {
    &&& feed == feed_spec(doc, original_url, feed.id, feed.created_at)
    &&& articles.len() == doc.items.len()
    &&& forall|i: int|
        0 <= i < articles.len() ==> #[trigger] articles[i] == article_spec(
            doc.items[i],
            feed.id,
            original_url,
            articles[i].id,
            articles[i].created_at,
        )
}

/// The views of a list of articles.
pub open spec fn articles_view(articles: Seq<Article>) -> Seq<ArticleView> {
    articles.map_values(|a: Article| a@)
}

/// Parses the bytes of a feed fetched from `original_url` into its feed and
/// articles. Each record gets a fresh random id and the current time; the
/// articles are unread and belong to the feed. A document that does not
/// parse gives `Failed to parse feed: ` and the parser's message.
///
/// The parser panics on some play times; the bytes must pass
/// [`feed_bytes_safe`] (which [`crate::feed_bytes_are_safe`] decides), which
/// rules those documents out.
pub fn parse_feed(content: &[u8], original_url: &str) -> (r: Result<(Feed, Vec<Article>), String>)
    requires
        feed_bytes_safe(content@),
    ensures
        match feed_document(content@) {
            Err(e) => r is Err && r->Err_0@ == "Failed to parse feed: "@ + e,
            Ok(doc) => r is Ok && parsed_feed_matches(
                r->Ok_0.0@,
                articles_view(r->Ok_0.1@),
                doc,
                original_url@,
            ),
        },
{
    let doc = match read_feed_document(content) {
        Ok(d) => d,
        Err(e) => {
            return Err(concat_str("Failed to parse feed: ", e.as_str()));
        },
    };
    let feed = build_feed(&doc, original_url, new_id(), now_rfc3339());
    let ghost items = doc@.items;
    let n = doc.items.len();
    let mut articles: Vec<Article> = Vec::new();
    for i in 0..n
        invariant
            n == doc.items.len(),
            items == doc@.items,
            items.len() == n,
            articles.len() == i,
            forall|k: int|
                0 <= k < i ==> #[trigger] articles@[k]@ == article_spec(
                    items[k],
                    feed.id@,
                    original_url@,
                    articles@[k].id@,
                    articles@[k].created_at@,
                ),
    {
        let a = build_article(&doc.items[i], feed.id.as_str(), original_url, new_id(), now_rfc3339());
        articles.push(a);
    }
    assert(articles_view(articles@).len() == items.len());
    Ok((feed, articles))
}

} // verus!
