//! Properties of the library that span several of its functions.
use vstd::prelude::*;

use crate::article::{challenge_markers, has_challenge_marker_spec, is_bot_challenge_spec};
use crate::feed_parser::{
    article_content_spec, article_spec, favicon_from_parts_spec, favicon_url_spec, feed_spec,
    is_self_link, parsed_feed_matches, site_url_spec, url_scheme_and_host, FeedDocumentView,
    FeedItemView, FeedLinkView,
};
use crate::models::{ArticleView, FeedView};
use crate::sync::{
    count_outcome, launched_after, min_spec, progress_after, progress_start, progress_step,
    imported_feed_spec, placeholder_feed_spec, OpmlImportOutcome, OPML_IMPORT_CONCURRENCY,
};
use crate::text::{
    ascii_lowercase, ascii_uppercase, contains_seq, is_ascii_text, lowercase_of, occurs_at,
};

verus! {

/// A freshly parsed feed counts each of its articles once, as unread, and
/// every article is unread and belongs to that feed.
pub proof fn parsed_feed_law(
    feed: FeedView,
    articles: Seq<ArticleView>,
    doc: FeedDocumentView,
    original_url: Seq<char>,
)
    requires
        parsed_feed_matches(feed, articles, doc, original_url),
    ensures
        feed.article_count == feed.unread_count,
        feed.article_count == articles.len() as i32,
        !feed.is_starred,
        forall|i: int|
            0 <= i < articles.len() ==> !(#[trigger] articles[i]).is_read && articles[i].feed_id
                == feed.id,
{
    assert forall|i: int| 0 <= i < articles.len() implies !(#[trigger] articles[i]).is_read
        && articles[i].feed_id == feed.id by {
        assert(articles[i] == crate::feed_parser::article_spec(
            doc.items[i],
            feed.id,
            original_url,
            articles[i].id,
            articles[i].created_at,
        ));
    }
}

/// The anti-bot check looks only at the lowercase form: two pages with the
/// same lowercase form are judged alike.
pub proof fn challenge_check_sees_lowercase_form(a: Seq<char>, b: Seq<char>)
    requires
        lowercase_of(a) == lowercase_of(b),
    ensures
        is_bot_challenge_spec(a) == is_bot_challenge_spec(b),
{
}

proof fn lemma_case_changes(h: Seq<char>)
    ensures
        is_ascii_text(ascii_uppercase(h)) == is_ascii_text(h),
        is_ascii_text(ascii_lowercase(h)) == is_ascii_text(h),
        ascii_lowercase(ascii_uppercase(h)) == ascii_lowercase(h),
        ascii_lowercase(ascii_lowercase(h)) == ascii_lowercase(h),
{
    assert(ascii_lowercase(ascii_uppercase(h)) =~= ascii_lowercase(h));
    assert(ascii_lowercase(ascii_lowercase(h)) =~= ascii_lowercase(h));
    if !is_ascii_text(h) {
        let i = choose|i: int| 0 <= i < h.len() && !((h[i] as u32) < 128);
        assert(ascii_uppercase(h)[i] == h[i]);
        assert(ascii_lowercase(h)[i] == h[i]);
    }
}

/// The anti-bot check ignores ASCII letter case: a page, its ASCII uppercase
/// form and its ASCII lowercase form are judged alike.
pub proof fn challenge_check_ignores_ascii_case(h: Seq<char>)
    ensures
        is_bot_challenge_spec(ascii_uppercase(h)) == is_bot_challenge_spec(h),
        is_bot_challenge_spec(ascii_lowercase(h)) == is_bot_challenge_spec(h),
{
    lemma_case_changes(h);
}

/// Text around a flagged ASCII page does not hide it: with ASCII text before
/// and after, the page is still judged a challenge.
pub proof fn flagged_page_stays_flagged_in_context(a: Seq<char>, h: Seq<char>, b: Seq<char>)
    requires
        is_ascii_text(a),
        is_ascii_text(h),
        is_ascii_text(b),
        is_bot_challenge_spec(h),
    ensures
        is_bot_challenge_spec(a + h + b),
{
    let whole = a + h + b;
    assert(is_ascii_text(whole)) by {
        assert forall|i: int| 0 <= i < whole.len() implies (whole[i] as u32) < 128 by {
            if i < a.len() {
                assert(whole[i] == a[i]);
            } else if i < a.len() + h.len() {
                assert(whole[i] == h[i - a.len()]);
            } else {
                assert(whole[i] == b[i - a.len() - h.len()]);
            }
        }
    }
    let lh = ascii_lowercase(h);
    let lw = ascii_lowercase(whole);
    assert(lowercase_of(h) == lh);
    assert(lowercase_of(whole) == lw);
    assert(has_challenge_marker_spec(lh));
    let k = choose|k: int|
        0 <= k < challenge_markers().len() && contains_seq(lh, #[trigger] challenge_markers()[k]);
    let m = challenge_markers()[k];
    let i = choose|i: int| occurs_at(lh, m, i);
    let j = a.len() + i;
    assert(lw.subrange(j, j + m.len()) =~= lh.subrange(i, i + m.len()));
    assert(occurs_at(lw, m, j));
    assert(contains_seq(lw, challenge_markers()[k]));
}

/// Every favicon address that is derived ends in `/favicon.ico`.
pub proof fn favicon_ends_in_favicon_ico(site_url: Option<Seq<char>>)
    ensures
        favicon_url_spec(site_url) matches Some(f) ==> f.len() >= 12 && f.subrange(
            f.len() - 12,
            f.len() as int,
        ) == "/favicon.ico"@,
{
    reveal_strlit("/favicon.ico");
    if let Some(f) = favicon_url_spec(site_url) {
        let tail = "/favicon.ico"@;
        assert(f.subrange(f.len() - 12, f.len() as int) =~= tail);
    }
}

proof fn lemma_progress_counts(total: i32, s: Seq<OpmlImportOutcome>)
    requires
        s.len() < i32::MAX,
    ensures
        progress_after(total, s).current == s.len(),
        progress_after(total, s).total == total,
        progress_after(total, s).imported == count_outcome(s, OpmlImportOutcome::Imported),
        progress_after(total, s).skipped == count_outcome(s, OpmlImportOutcome::Skipped),
        progress_after(total, s).failed == count_outcome(s, OpmlImportOutcome::Failed),
        count_outcome(s, OpmlImportOutcome::Imported) >= 0,
        count_outcome(s, OpmlImportOutcome::Skipped) >= 0,
        count_outcome(s, OpmlImportOutcome::Failed) >= 0,
        count_outcome(s, OpmlImportOutcome::Imported) + count_outcome(s, OpmlImportOutcome::Skipped)
            + count_outcome(s, OpmlImportOutcome::Failed) == s.len(),
    decreases s.len(),
{
    if s.len() > 0 {
        lemma_progress_counts(total, s.drop_last());
    }
}

/// The progress reports of an OPML import of `total` feeds whose fetches end
/// with `outcomes`, in that order: the first report counts nothing; the
/// report after `k` feeds have been done has `current` equal to `k`, the
/// import's total, and each counter equal to the number of those feeds with
/// its outcome, so the counters add up to `k`; each report follows from the
/// one before by one more feed, so no counter goes down; and the last report
/// counts every feed.
pub proof fn import_progress_law(total: i32, outcomes: Seq<OpmlImportOutcome>)
    requires
        outcomes.len() < i32::MAX,
    ensures
        progress_after(total, outcomes.take(0)) == progress_start(total),
        forall|k: int|
            0 <= k <= outcomes.len() ==> {
                let p = #[trigger] progress_after(total, outcomes.take(k));
                &&& p.current == k
                &&& p.total == total
                &&& p.imported + p.skipped + p.failed == k
                &&& p.imported == count_outcome(outcomes.take(k), OpmlImportOutcome::Imported)
                &&& p.skipped == count_outcome(outcomes.take(k), OpmlImportOutcome::Skipped)
                &&& p.failed == count_outcome(outcomes.take(k), OpmlImportOutcome::Failed)
            },
        forall|k: int|
            #![trigger outcomes[k]]
            0 <= k < outcomes.len() ==> {
                let p = progress_after(total, outcomes.take(k));
                let q = progress_after(total, outcomes.take(k + 1));
                &&& q == progress_step(p, outcomes[k])
                &&& p.imported <= q.imported
                &&& p.skipped <= q.skipped
                &&& p.failed <= q.failed
            },
        progress_after(total, outcomes).current == outcomes.len(),
        progress_after(total, outcomes).imported + progress_after(total, outcomes).skipped
            + progress_after(total, outcomes).failed == outcomes.len(),
{
    assert(outcomes.take(0) =~= Seq::<OpmlImportOutcome>::empty());
    assert forall|k: int| 0 <= k <= outcomes.len() implies {
        let p = #[trigger] progress_after(total, outcomes.take(k));
        &&& p.current == k
        &&& p.total == total
        &&& p.imported + p.skipped + p.failed == k
        &&& p.imported == count_outcome(outcomes.take(k), OpmlImportOutcome::Imported)
        &&& p.skipped == count_outcome(outcomes.take(k), OpmlImportOutcome::Skipped)
        &&& p.failed == count_outcome(outcomes.take(k), OpmlImportOutcome::Failed)
    } by {
        lemma_progress_counts(total, outcomes.take(k));
    }
    assert forall|k: int| #![trigger outcomes[k]] 0 <= k < outcomes.len() implies {
        let p = progress_after(total, outcomes.take(k));
        let q = progress_after(total, outcomes.take(k + 1));
        &&& q == progress_step(p, outcomes[k])
        &&& p.imported <= q.imported
        &&& p.skipped <= q.skipped
        &&& p.failed <= q.failed
    } by {
        let next = outcomes.take(k + 1);
        assert(next.drop_last() =~= outcomes.take(k));
        assert(next.last() == outcomes[k]);
        lemma_progress_counts(total, outcomes.take(k));
        lemma_progress_counts(total, next);
    }
    assert(outcomes.take(outcomes.len() as int) =~= outcomes);
    lemma_progress_counts(total, outcomes);
}

/// The scheduling of the fetches of an import of `total` feeds: whatever
/// number `k` of them has completed, the fetches started are the completed
/// ones and at most [`OPML_IMPORT_CONCURRENCY`] more, never more than there
/// are feeds; each completion starts at most one more; the first ones start
/// together; and once all have completed, every one was started.
pub proof fn task_pool_law(total: nat, k: nat)
    requires
        k <= total,
    ensures
        k <= launched_after(total, k) <= total,
        launched_after(total, k) - k <= OPML_IMPORT_CONCURRENCY,
        k < total ==> launched_after(total, k) <= launched_after(total, (k + 1) as nat)
            <= launched_after(total, k) + 1,
        launched_after(total, 0) == min_spec(total as int, OPML_IMPORT_CONCURRENCY as int),
        launched_after(total, total) == total,
{
}

/// The content kept for an entry is its content body whenever that body is
/// non-empty, whatever the summary; otherwise its summary when that is
/// non-empty; otherwise nothing.
pub proof fn article_content_law(item: FeedItemView)
    ensures
        item.content_body is Some && item.content_body->Some_0.len() > 0 ==> article_content_spec(
            item,
        ) == item.content_body->Some_0,
        !(item.content_body is Some && item.content_body->Some_0.len() > 0) && item.summary is Some
            && item.summary->Some_0.len() > 0 ==> article_content_spec(item) == item.summary->Some_0,
        !(item.content_body is Some && item.content_body->Some_0.len() > 0) && !(item.summary is Some
            && item.summary->Some_0.len() > 0) ==> article_content_spec(item).len() == 0,
{
}

/// The article made of an entry, field by field: the given id and feed; the
/// entry's title, else `Untitled`; its first link, else the feed's address;
/// its content body when non-empty, else its summary when non-empty, else
/// nothing; its summary; its first author, else its first contributor, else
/// none; its publication time, else the time of the import; unread; made and
/// updated at the time of the import.
pub proof fn article_law(
    item: FeedItemView,
    feed_id: Seq<char>,
    original_url: Seq<char>,
    id: Seq<char>,
    now: Seq<char>,
)
    ensures
        ({
            let a = article_spec(item, feed_id, original_url, id, now);
            &&& a.id == id
            &&& a.feed_id == feed_id
            &&& item.title is Some ==> a.title == item.title->Some_0
            &&& item.title is None ==> a.title == "Untitled"@
            &&& item.links.len() > 0 ==> a.url == item.links[0]
            &&& item.links.len() == 0 ==> a.url == original_url
            &&& item.content_body is Some && item.content_body->Some_0.len() > 0 ==> a.content
                == item.content_body->Some_0
            &&& !(item.content_body is Some && item.content_body->Some_0.len() > 0)
                && item.summary is Some && item.summary->Some_0.len() > 0 ==> a.content
                == item.summary->Some_0
            &&& !(item.content_body is Some && item.content_body->Some_0.len() > 0) && !(
            item.summary is Some && item.summary->Some_0.len() > 0) ==> a.content.len() == 0
            &&& a.summary == item.summary
            &&& item.authors.len() > 0 ==> a.author == Some(item.authors[0])
            &&& item.authors.len() == 0 && item.contributors.len() > 0 ==> a.author == Some(
                item.contributors[0],
            )
            &&& item.authors.len() == 0 && item.contributors.len() == 0 ==> a.author is None
            &&& item.published is Some ==> a.published_at == item.published->Some_0
            &&& item.published is None ==> a.published_at == now
            &&& !a.is_read
            &&& a.created_at == now
            &&& a.updated_at == now
        }),
{
}

/// A favicon address is the scheme, `://`, the host exactly as parsed (empty
/// when there is none) and `/favicon.ico`, in that order and nothing else.
pub proof fn favicon_parts_law(scheme: Seq<char>, host: Option<Seq<char>>)
    ensures
        ({
            let f = favicon_from_parts_spec(scheme, host);
            let h = if host is Some {
                host->Some_0
            } else {
                Seq::<char>::empty()
            };
            let n = scheme.len() as int;
            &&& f.len() == n + 3 + h.len() + 12
            &&& f.subrange(0, n) == scheme
            &&& f.subrange(n, n + 3) == "://"@
            &&& f.subrange(n + 3, n + 3 + h.len()) == h
            &&& f.subrange(n + 3 + h.len(), f.len() as int) == "/favicon.ico"@
        }),
{
    reveal_strlit("://");
    reveal_strlit("/favicon.ico");
    let f = favicon_from_parts_spec(scheme, host);
    let h = if host is Some {
        host->Some_0
    } else {
        Seq::<char>::empty()
    };
    let n = scheme.len() as int;
    assert(f.subrange(0, n) =~= scheme);
    assert(f.subrange(n, n + 3) =~= "://"@);
    assert(f.subrange(n + 3, n + 3 + h.len()) =~= h);
    assert(f.subrange(n + 3 + h.len(), f.len() as int) =~= "/favicon.ico"@);
}

/// The favicon of a site: none without a site or when its address does not
/// parse; otherwise the favicon address made of the parsed scheme and host.
pub proof fn site_favicon_law(site_url: Option<Seq<char>>)
    ensures
        site_url is None ==> favicon_url_spec(site_url) is None,
        site_url is Some ==> (favicon_url_spec(site_url) is Some <==> url_scheme_and_host(
            site_url->Some_0,
        ) is Some),
        site_url is Some && url_scheme_and_host(site_url->Some_0) is Some ==> favicon_url_spec(
            site_url,
        ) == Some(
            favicon_from_parts_spec(
                url_scheme_and_host(site_url->Some_0)->Some_0.0,
                url_scheme_and_host(site_url->Some_0)->Some_0.1,
            ),
        ),
{
}

/// The site of a feed is the target of its first link that is not a `self`
/// link: every link before it is a `self` link; there is none only when every
/// link is a `self` link.
pub proof fn site_url_law(links: Seq<FeedLinkView>)
    ensures
        site_url_spec(links) is None ==> forall|j: int| 0 <= j < links.len() ==> is_self_link(
            #[trigger] links[j],
        ),
        site_url_spec(links) is Some ==> exists|i: int|
            0 <= i < links.len() && !is_self_link(links[i]) && site_url_spec(links) == Some(
                links[i].href,
            ) && forall|j: int| 0 <= j < i ==> is_self_link(#[trigger] links[j]),
    decreases links.len(),
{
    if links.len() > 0 {
        let rest = links.drop_first();
        site_url_law(rest);
        if is_self_link(links[0]) {
            assert forall|j: int| 1 <= j < links.len() implies links[j] == rest[j - 1] by {}
            if site_url_spec(links) is None {
                assert forall|j: int| 0 <= j < links.len() implies is_self_link(
                    #[trigger] links[j],
                ) by {
                    if j > 0 {
                        assert(links[j] == rest[j - 1]);
                    }
                }
            } else {
                let i = choose|i: int|
                    0 <= i < rest.len() && !is_self_link(rest[i]) && site_url_spec(rest) == Some(
                        rest[i].href,
                    ) && forall|j: int| 0 <= j < i ==> is_self_link(#[trigger] rest[j]);
                assert(links[i + 1] == rest[i]);
                assert forall|j: int| 0 <= j < i + 1 implies is_self_link(#[trigger] links[j]) by {
                    if j > 0 {
                        assert(links[j] == rest[j - 1]);
                    }
                }
            }
        } else {
            assert(!is_self_link(links[0]) && site_url_spec(links) == Some(links[0].href));
        }
    }
}

/// The record stored for an imported feed keeps the parsed feed's id, title,
/// description, favicon, article count and unread count, takes the entry's
/// address, prefers the entry's site to the parsed one, is not starred, and is
/// made at the time of the import.
pub proof fn imported_record_law(
    entry_url: Seq<char>,
    entry_site: Option<Seq<char>>,
    parsed: FeedView,
    now: Seq<char>,
)
    ensures
        ({
            let r = imported_feed_spec(entry_url, entry_site, parsed, now);
            &&& r.id == parsed.id
            &&& r.title == parsed.title
            &&& r.url == entry_url
            &&& r.description == parsed.description
            &&& r.favicon_url == parsed.favicon_url
            &&& entry_site is Some ==> r.site_url == entry_site
            &&& entry_site is None ==> r.site_url == parsed.site_url
            &&& r.article_count == parsed.article_count
            &&& r.unread_count == parsed.unread_count
            &&& !r.is_starred
            &&& r.created_at == now
            &&& r.updated_at == now
        }),
{
}

/// A feed imported right after it was parsed has every one of its articles
/// unread: its record's unread count is its article count, the number of
/// entries of the document.
pub proof fn imported_fresh_feed_law(
    entry_url: Seq<char>,
    entry_site: Option<Seq<char>>,
    doc: FeedDocumentView,
    original_url: Seq<char>,
    id: Seq<char>,
    parsed_at: Seq<char>,
    now: Seq<char>,
)
    ensures
        ({
            let r = imported_feed_spec(
                entry_url,
                entry_site,
                feed_spec(doc, original_url, id, parsed_at),
                now,
            );
            &&& r.unread_count == r.article_count
            &&& r.article_count == doc.items.len() as i32
        }),
{
}

/// The record stored for an entry whose feed could not be read has no
/// articles, none unread, the entry's title (else its address), address and
/// site, no description or favicon, the given id, and is made at the time of
/// the import.
pub proof fn placeholder_record_law(
    entry_url: Seq<char>,
    entry_title: Option<Seq<char>>,
    entry_site: Option<Seq<char>>,
    id: Seq<char>,
    now: Seq<char>,
)
    ensures
        ({
            let r = placeholder_feed_spec(entry_url, entry_title, entry_site, id, now);
            &&& r.article_count == 0 && r.unread_count == 0
            &&& entry_title is Some ==> r.title == entry_title->Some_0
            &&& entry_title is None ==> r.title == entry_url
            &&& r.url == entry_url
            &&& r.site_url == entry_site
            &&& r.description is None && r.favicon_url is None
            &&& r.id == id
            &&& !r.is_starred
            &&& r.created_at == now && r.updated_at == now
        }),
{
}

/// A page is judged a challenge exactly when one of the five marker phrases
/// occurs in its lowercase form, whatever other characters it holds.
pub proof fn challenge_markers_law(html: Seq<char>)
    ensures
        is_bot_challenge_spec(html) <==> {
            let l = lowercase_of(html);
            ||| contains_seq(l, "please enable js and disable any ad blocker"@)
            ||| contains_seq(l, "enable javascript"@)
            ||| contains_seq(l, "checking if the site connection is secure"@)
            ||| contains_seq(l, "cf-chl"@)
            ||| contains_seq(l, "cloudflare"@)
        },
{
    let l = lowercase_of(html);
    let m = challenge_markers();
    assert(m[0] == "please enable js and disable any ad blocker"@);
    assert(m[1] == "enable javascript"@);
    assert(m[2] == "checking if the site connection is secure"@);
    assert(m[3] == "cf-chl"@);
    assert(m[4] == "cloudflare"@);
    if is_bot_challenge_spec(html) {
        let k = choose|k: int| 0 <= k < m.len() && contains_seq(l, #[trigger] m[k]);
        assert(k == 0 || k == 1 || k == 2 || k == 3 || k == 4);
    }
    if contains_seq(l, m[0]) || contains_seq(l, m[1]) || contains_seq(l, m[2]) || contains_seq(
        l,
        m[3],
    ) || contains_seq(l, m[4]) {
        if contains_seq(l, m[0]) {
            assert(contains_seq(l, m[0]));
        } else if contains_seq(l, m[1]) {
            assert(contains_seq(l, m[1]));
        } else if contains_seq(l, m[2]) {
            assert(contains_seq(l, m[2]));
        } else if contains_seq(l, m[3]) {
            assert(contains_seq(l, m[3]));
        } else {
            assert(contains_seq(l, m[4]));
        }
    }
}

/// On an ASCII page the check looks for the markers in the page with its
/// capital letters made small: a page none of whose lowercase text holds a
/// marker is never judged a challenge.
pub proof fn ascii_challenge_law(html: Seq<char>)
    requires
        is_ascii_text(html),
    ensures
        is_bot_challenge_spec(html) == has_challenge_marker_spec(ascii_lowercase(html)),
{
}

} // verus!
