//! Decisions behind the article commands: recognising anti-bot pages,
//! paging, search patterns and lookups.
use vstd::prelude::*;

use crate::models::Article;
use crate::text::{
    chars_of, concat_str, contains_chars, contains_seq, lowercase_of, to_lowercase,
};

verus! {

/// The phrases, in lowercase, that mark a page as an anti-bot or JavaScript challenge.
pub open spec fn challenge_markers() -> Seq<Seq<char>> {
    seq![
        "please enable js and disable any ad blocker"@,
        "enable javascript"@,
        "checking if the site connection is secure"@,
        "cf-chl"@,
        "cloudflare"@,
    ]
}

/// Some challenge marker occurs in the (already lowercased) text.
pub open spec fn has_challenge_marker_spec(lower: Seq<char>) -> bool {
    exists|k: int| 0 <= k < challenge_markers().len() && contains_seq(lower, #[trigger] challenge_markers()[k])
}

/// The page is a bot challenge: a marker occurs in its lowercase form.
pub open spec fn is_bot_challenge_spec(html: Seq<char>) -> bool {
    has_challenge_marker_spec(lowercase_of(html))
}

fn marker(k: usize) -> (m: &'static str)
    requires
        k < 5,
    ensures
        m@ == challenge_markers()[k as int],
{
    if k == 0 {
        "please enable js and disable any ad blocker"
    } else if k == 1 {
        "enable javascript"
    } else if k == 2 {
        "checking if the site connection is secure"
    } else if k == 3 {
        "cf-chl"
    } else {
        "cloudflare"
    }
}

/// Whether a challenge marker occurs in `lower`, text that is already in lowercase.
pub fn has_challenge_marker(lower: &str) -> (r: bool)
    ensures
        r == has_challenge_marker_spec(lower@),
{
    let hay = chars_of(lower);
    let mut k: usize = 0;
    while k < 5
        invariant
            hay@ == lower@,
            k <= 5,
            challenge_markers().len() == 5,
            forall|t: int| 0 <= t < k ==> !contains_seq(lower@, #[trigger] challenge_markers()[t]),
        decreases 5 - k,
    {
        let needle = chars_of(marker(k));
        if contains_chars(&hay, &needle) {
            return true;
        }
        k = k + 1;
    }
    false
}

/// Whether `html` looks like an anti-bot or JavaScript-challenge page rather
/// than an article: the check is made on its lowercase form.
pub fn is_bot_challenge_page(html: &str) -> (r: bool)
    ensures
        r == is_bot_challenge_spec(html@),
{
    let lower = to_lowercase(html);
    has_challenge_marker(lower.as_str())
}

/// The message with which a fetched challenge page is refused.
pub open spec fn blocked_page_message() -> Seq<char> {
    "This site blocks automated fetch (JS challenge/ad-block check). Open the original article in your browser."@
}

/// Decides what becomes of a page fetched for an article: a challenge page
/// is refused with [`blocked_page_message`], any other page is kept as the
/// article's content, unchanged.
pub fn accept_fetched_page(html: String) -> (r: Result<String, String>)
    ensures
        r is Err <==> is_bot_challenge_spec(html@),
        r matches Ok(c) ==> c@ == html@,
        r matches Err(e) ==> e@ == blocked_page_message(),
{
    if is_bot_challenge_page(html.as_str()) {
        Err(
            String::from_str(
                "This site blocks automated fetch (JS challenge/ad-block check). Open the original article in your browser.",
            ),
        )
    } else {
        Ok(html)
    }
}

/// The value that a lookup found, or the error `missing` when it found none.
pub fn require_found<T>(found: Option<T>, missing: &str) -> (r: Result<T, String>)
    ensures
        found matches Some(x) ==> r == Ok::<T, String>(x),
        found is None ==> r is Err && r->Err_0@ == missing@,
{
    match found {
        Some(x) => Ok(x),
        None => Err(String::from_str(missing)),
    }
}

/// An article that a lookup by id found, or the error `Article not found`.
pub fn article_or_not_found(found: Option<Article>) -> (r: Result<Article, String>)
    ensures
        found matches Some(a) ==> r == Ok::<Article, String>(a),
        found is None ==> r is Err && r->Err_0@ == "Article not found"@,
{
    require_found(found, "Article not found")
}

/// The page size asked for (50 when absent), held within 1 to 200.
pub open spec fn page_limit_spec(limit: Option<i64>) -> int {
    let l = match limit {
        Some(l) => l as int,
        None => 50,
    };
    if l < 1 {
        1
    } else if l > 200 {
        200
    } else {
        l
    }
}

/// The page offset asked for (0 when absent), never below 0.
pub open spec fn page_offset_spec(offset: Option<i64>) -> int {
    let o = match offset {
        Some(o) => o as int,
        None => 0,
    };
    if o < 0 {
        0
    } else {
        o
    }
}

/// The `(limit, offset)` window of one page of an article list.
pub fn page_window(limit: Option<i64>, offset: Option<i64>) -> (r: (i64, i64))
    ensures
        r.0 == page_limit_spec(limit),
        r.1 == page_offset_spec(offset),
        1 <= r.0 <= 200,
        r.1 >= 0,
{
    let l = match limit {
        Some(l) => l,
        None => 50,
    };
    let page_limit = if l < 1 {
        1
    } else if l > 200 {
        200
    } else {
        l
    };
    let o = match offset {
        Some(o) => o,
        None => 0,
    };
    let page_offset = if o < 0 {
        0
    } else {
        o
    };
    (page_limit, page_offset)
}

/// The SQL `LIKE` pattern that matches text containing `query`: `%query%`.
pub fn search_pattern(query: &str) -> (r: String)
    ensures
        r@ == "%"@ + query@ + "%"@,
{
    let r = concat_str("%", query);
    concat_str(r.as_str(), "%")
}

} // verus!
