//! The bookkeeping of adding, syncing and importing feeds: which fetches run
//! at once, what is counted, and which records are written.
use vstd::prelude::*;

use crate::models::{Feed, FeedSyncResult, FeedView, OpmlImportResult};
use crate::opml::{or_spec, OpmlFeedEntry};
use crate::text::concat_str;

verus! {

/// How many feeds are fetched at the same time during a bulk sync or import.
pub const OPML_IMPORT_CONCURRENCY: usize = 4;

/// The smaller of `a` and `b`.
pub open spec fn min_spec(a: int, b: int) -> int {
    if a <= b {
        a
    } else {
        b
    }
}

/// The number of tasks started once `finished` of `total` tasks have
/// completed: as many as [`OPML_IMPORT_CONCURRENCY`] beyond the completed
/// ones, and never more than there are.
pub open spec fn launched_after(total: nat, finished: nat) -> nat {
    min_spec(total as int, finished + OPML_IMPORT_CONCURRENCY) as nat
}

/// Schedules `total` tasks, numbered from 0, so that at most
/// [`OPML_IMPORT_CONCURRENCY`] run at once: the first ones start together and
/// each completion starts the next task in order.
pub struct TaskPool {
    total: usize,
    launched: usize,
    finished: usize,
}

impl TaskPool {
    #[verifier::type_invariant]
    spec fn well_formed(self) -> bool {
        &&& self.finished <= self.launched <= self.total
        &&& self.launched == min_spec(self.total as int, self.finished + OPML_IMPORT_CONCURRENCY)
    }

    /// The number of tasks.
    pub closed spec fn total(self) -> nat {
        self.total as nat
    }

    /// The number of tasks started so far: tasks `0 .. launched()`.
    pub closed spec fn launched(self) -> nat {
        self.launched as nat
    }

    /// The number of tasks that have completed.
    pub closed spec fn finished(self) -> nat {
        self.finished as nat
    }

    /// Starts scheduling `total` tasks; gives the pool and the number of
    /// tasks to start now, tasks `0 .. count`.
    pub fn start(total: usize) -> (r: (TaskPool, usize))
        ensures
            r.1 == min_spec(total as int, OPML_IMPORT_CONCURRENCY as int),
            r.0.total() == total,
            r.0.launched() == r.1,
            r.0.finished() == 0,
            r.0.launched() == launched_after(r.0.total(), 0),
    {
        let count = if total < OPML_IMPORT_CONCURRENCY {
            total
        } else {
            OPML_IMPORT_CONCURRENCY
        };
        (TaskPool { total, launched: count, finished: 0 }, count)
    }

    /// The number of tasks started and not yet completed.
    pub fn in_flight(&self) -> (r: usize)
        ensures
            r == self.launched() - self.finished(),
            r <= OPML_IMPORT_CONCURRENCY,
            r == 0 <==> self.finished() == self.total(),
    {
        proof {
            use_type_invariant(self);
        }
        self.launched - self.finished
    }

    /// Records that a running task completed; gives the next task to start,
    /// if any is left.
    pub fn complete(&mut self) -> (next: Option<usize>)
        requires
            old(self).launched() > old(self).finished(),
        ensures
            final(self).total() == old(self).total(),
            final(self).finished() == old(self).finished() + 1,
            old(self).launched() < old(self).total() ==> next == Some(old(self).launched() as usize)
                && final(self).launched() == old(self).launched() + 1,
            old(self).launched() == old(self).total() ==> next is None && final(self).launched()
                == old(self).launched(),
            final(self).launched() - final(self).finished() <= OPML_IMPORT_CONCURRENCY,
            final(self).launched() == launched_after(final(self).total(), final(self).finished()),
    {
        proof {
            use_type_invariant(&*self);
        }
        let next = if self.launched < self.total {
            Some(self.launched)
        } else {
            None
        };
        let launched = if self.launched < self.total {
            self.launched + 1
        } else {
            self.launched
        };
        *self = TaskPool { total: self.total, launched, finished: self.finished + 1 };
        next
    }
}

/// The message given when a feed cannot be fetched or parsed.
pub fn parse_failure_message(reason: &str) -> (r: String)
    ensures
        r@ == "Failed to parse feed: "@ + reason@,
{
    concat_str("Failed to parse feed: ", reason)
}

/// Whether a feed may be added, given how many stored feeds have its
/// address: it may not when one has.
pub fn ensure_feed_is_new(existing: i64) -> (r: Result<(), String>)
    ensures
        r is Ok <==> existing <= 0,
        r matches Err(e) ==> e@ == "Feed already exists"@,
{
    if existing > 0 {
        Err(String::from_str("Feed already exists"))
    } else {
        Ok(())
    }
}

/// What a sync of one feed has counted so far.
pub struct SyncTally {
    pub new_articles: i32,
    pub updated_articles: i32,
}

impl SyncTally {
    /// Nothing counted.
    pub fn new() -> (r: SyncTally)
        ensures
            r.new_articles == 0,
            r.updated_articles == 0,
    {
        SyncTally { new_articles: 0, updated_articles: 0 }
    }

    /// Counts a fetched article, given how many stored articles have its
    /// address: when some have, it counts as updated; otherwise it is new and
    /// is to be stored (the result says which).
    pub fn record(&mut self, existing: i64) -> (store: bool)
        requires
            old(self).new_articles + old(self).updated_articles < i32::MAX,
            old(self).new_articles >= 0,
            old(self).updated_articles >= 0,
        ensures
            store == (existing <= 0),
            store ==> final(self).new_articles == old(self).new_articles + 1
                && final(self).updated_articles == old(self).updated_articles,
            !store ==> final(self).updated_articles == old(self).updated_articles + 1
                && final(self).new_articles == old(self).new_articles,
    {
        if existing > 0 {
            self.updated_articles = self.updated_articles + 1;
            false
        } else {
            self.new_articles = self.new_articles + 1;
            true
        }
    }

    /// The result of the sync of the feed `feed_id`.
    pub fn into_result(self, feed_id: String) -> (r: FeedSyncResult)
        ensures
            r.feed_id == feed_id,
            r.new_articles == self.new_articles,
            r.updated_articles == self.updated_articles,
    {
        FeedSyncResult {
            feed_id,
            new_articles: self.new_articles,
            updated_articles: self.updated_articles,
        }
    }
}

/// During a background sync, whether a fetched article is unseen, given how
/// many stored articles have its address: it is when none has.
pub fn is_unseen_article(existing: i64) -> (r: bool)
    ensures
        r == (existing == 0),
{
    existing == 0
}

/// What a sync of all feeds has counted so far.
pub struct SyncAllTally {
    pub synced: i32,
    pub failed: i32,
}

impl SyncAllTally {
    /// Nothing counted.
    pub fn new() -> (r: SyncAllTally)
        ensures
            r.synced == 0,
            r.failed == 0,
    {
        SyncAllTally { synced: 0, failed: 0 }
    }

    /// Counts the sync of one feed as succeeded or failed.
    pub fn record(&mut self, succeeded: bool)
        requires
            old(self).synced + old(self).failed < i32::MAX,
            old(self).synced >= 0,
            old(self).failed >= 0,
        ensures
            succeeded ==> final(self).synced == old(self).synced + 1 && final(self).failed == old(
                self,
            ).failed,
            !succeeded ==> final(self).failed == old(self).failed + 1 && final(self).synced == old(
                self,
            ).synced,
    {
        if succeeded {
            self.synced = self.synced + 1;
        } else {
            self.failed = self.failed + 1;
        }
    }
}

/// What became of one feed of an OPML import.
#[derive(Debug, Clone, Copy, PartialEq, Eq, Structural)]
pub enum OpmlImportOutcome {
    Imported,
    Skipped,
    Failed,
}

/// The progress of an OPML import, as reported to the front end.
#[derive(Debug, Clone, Copy, PartialEq, Eq, Structural)]
pub struct OpmlProgressPayload {
    pub current: i32,
    pub total: i32,
    pub imported: i32,
    pub skipped: i32,
    pub failed: i32,
}

/// The report of an import of `total` feeds before any is done.
pub open spec fn progress_start(total: i32) -> OpmlProgressPayload {
    OpmlProgressPayload { current: 0, total: total, imported: 0, skipped: 0, failed: 0 }
}

/// One for the outcome `o`, zero for the others.
pub open spec fn counts_as(outcome: OpmlImportOutcome, o: OpmlImportOutcome) -> int {
    if outcome == o {
        1
    } else {
        0
    }
}

/// The report `p` after one more feed is done with `outcome`.
pub open spec fn progress_step(p: OpmlProgressPayload, outcome: OpmlImportOutcome) -> OpmlProgressPayload {
    OpmlProgressPayload {
        current: (p.current + 1) as i32,
        total: p.total,
        imported: (p.imported + counts_as(outcome, OpmlImportOutcome::Imported)) as i32,
        skipped: (p.skipped + counts_as(outcome, OpmlImportOutcome::Skipped)) as i32,
        failed: (p.failed + counts_as(outcome, OpmlImportOutcome::Failed)) as i32,
    }
}

/// The report of an import of `total` feeds once the feeds have been done
/// with `outcomes`, in that order.
pub open spec fn progress_after(total: i32, outcomes: Seq<OpmlImportOutcome>) -> OpmlProgressPayload
    decreases outcomes.len(),
{
    if outcomes.len() == 0 {
        progress_start(total)
    } else {
        progress_step(progress_after(total, outcomes.drop_last()), outcomes.last())
    }
}

/// How many of `outcomes` are `o`.
pub open spec fn count_outcome(outcomes: Seq<OpmlImportOutcome>, o: OpmlImportOutcome) -> int
    decreases outcomes.len(),
{
    if outcomes.len() == 0 {
        0
    } else {
        count_outcome(outcomes.drop_last(), o) + counts_as(outcomes.last(), o)
    }
}

/// The counts of an OPML import in progress.
pub struct OpmlProgress {
    total: i32,
    imported: i32,
    skipped: i32,
    failed: i32,
}

impl OpmlProgress {
    #[verifier::type_invariant]
    spec fn well_formed(self) -> bool {
        &&& self.imported >= 0
        &&& self.skipped >= 0
        &&& self.failed >= 0
        &&& self.imported + self.skipped + self.failed <= i32::MAX
    }

    /// The report of the counts so far: `current` is the number of feeds done.
    pub closed spec fn payload(self) -> OpmlProgressPayload {
        OpmlProgressPayload {
            current: (self.imported + self.skipped + self.failed) as i32,
            total: self.total,
            imported: self.imported,
            skipped: self.skipped,
            failed: self.failed,
        }
    }

    /// An import of `total_entries` feeds, none done; the total is reported
    /// as a 32-bit count.
    pub fn new(total_entries: usize) -> (r: OpmlProgress)
        ensures
            r.payload() == (OpmlProgressPayload {
                current: 0,
                total: total_entries as i32,
                imported: 0,
                skipped: 0,
                failed: 0,
            }),
            r.payload() == progress_start(total_entries as i32),
    {
        OpmlProgress { total: total_entries as i32, imported: 0, skipped: 0, failed: 0 }
    }

    /// The report of the counts so far.
    pub fn report(&self) -> (r: OpmlProgressPayload)
        ensures
            r == self.payload(),
            r.current == r.imported + r.skipped + r.failed,
            r.imported >= 0 && r.skipped >= 0 && r.failed >= 0,
    {
        proof {
            use_type_invariant(self);
        }
        OpmlProgressPayload {
            current: self.imported + self.skipped + self.failed,
            total: self.total,
            imported: self.imported,
            skipped: self.skipped,
            failed: self.failed,
        }
    }

    /// Counts one more feed as done with `outcome`; gives the new report.
    pub fn record(&mut self, outcome: OpmlImportOutcome) -> (r: OpmlProgressPayload)
        requires
            old(self).payload().current < i32::MAX,
        ensures
            r == final(self).payload(),
            r == progress_step(old(self).payload(), outcome),
            r.current == old(self).payload().current + 1,
            r.total == old(self).payload().total,
            r.imported == old(self).payload().imported + (if outcome == OpmlImportOutcome::Imported {
                1int
            } else {
                0
            }),
            r.skipped == old(self).payload().skipped + (if outcome == OpmlImportOutcome::Skipped {
                1int
            } else {
                0
            }),
            r.failed == old(self).payload().failed + (if outcome == OpmlImportOutcome::Failed {
                1int
            } else {
                0
            }),
            r.current == r.imported + r.skipped + r.failed,
    {
        proof {
            use_type_invariant(&*self);
        }
        match outcome {
            OpmlImportOutcome::Imported => {
                self.imported = self.imported + 1;
            },
            OpmlImportOutcome::Skipped => {
                self.skipped = self.skipped + 1;
            },
            OpmlImportOutcome::Failed => {
                self.failed = self.failed + 1;
            },
        }
        self.report()
    }

    /// The result of the import.
    pub fn result(&self) -> (r: OpmlImportResult)
        ensures
            r.total == self.payload().total,
            r.imported == self.payload().imported,
            r.skipped == self.payload().skipped,
            r.failed == self.payload().failed,
    {
        OpmlImportResult {
            total: self.total,
            imported: self.imported,
            skipped: self.skipped,
            failed: self.failed,
        }
    }
}

/// Whether an OPML entry is to be imported, given how many stored feeds
/// have its address: it is skipped when one has.
pub fn opml_entry_is_new(existing: i64) -> (r: bool)
    ensures
        r == (existing <= 0),
{
    existing <= 0
}

/// What inserting an imported feed's record makes of the entry.
pub fn insert_outcome(inserted: bool) -> (r: OpmlImportOutcome)
    ensures
        inserted ==> r == OpmlImportOutcome::Imported,
        !inserted ==> r == OpmlImportOutcome::Failed,
{
    if inserted {
        OpmlImportOutcome::Imported
    } else {
        OpmlImportOutcome::Failed
    }
}

/// The record stored for an OPML entry whose feed was fetched and parsed:
/// the parsed feed under the entry's address, the entry's site preferred,
/// made at the time `now`.
pub open spec fn imported_feed_spec(entry_url: Seq<char>, entry_site: Option<Seq<char>>, parsed: FeedView, now: Seq<char>) -> FeedView {
    FeedView {
        id: parsed.id,
        title: parsed.title,
        url: entry_url,
        description: parsed.description,
        favicon_url: parsed.favicon_url,
        site_url: or_spec(entry_site, parsed.site_url),
        article_count: parsed.article_count,
        unread_count: parsed.unread_count,
        is_starred: false,
        created_at: now,
        updated_at: now,
    }
}

/// The record stored for an OPML entry whose feed could not be fetched or
/// parsed: the entry's title (or its address), its address and site, no
/// articles, with the id `id`, made at the time `now`.
pub open spec fn placeholder_feed_spec(
    entry_url: Seq<char>,
    entry_title: Option<Seq<char>>,
    entry_site: Option<Seq<char>>,
    id: Seq<char>,
    now: Seq<char>,
) -> FeedView {
    FeedView {
        id: id,
        title: match entry_title {
            Some(t) => t,
            None => entry_url,
        },
        url: entry_url,
        description: None,
        favicon_url: None,
        site_url: entry_site,
        article_count: 0,
        unread_count: 0,
        is_starred: false,
        created_at: now,
        updated_at: now,
    }
}

fn clone_opt(s: &Option<String>) -> (r: Option<String>)
    ensures
        r.deep_view() == s.deep_view(),
{
    match s {
        Some(x) => Some(x.clone()),
        None => None,
    }
}

/// The record stored for an OPML entry whose feed was fetched and parsed.
pub fn imported_feed_record(entry: &OpmlFeedEntry, parsed: &Feed, now: String) -> (r: Feed)
    ensures
        r@ == imported_feed_spec(entry.url@, entry.site_url.deep_view(), parsed@, now@),
{
    let site_url = match &entry.site_url {
        Some(s) => Some(s.clone()),
        None => clone_opt(&parsed.site_url),
    };
    let created_at = now.clone();
    Feed {
        id: parsed.id.clone(),
        title: parsed.title.clone(),
        url: entry.url.clone(),
        description: clone_opt(&parsed.description),
        favicon_url: clone_opt(&parsed.favicon_url),
        site_url,
        article_count: parsed.article_count,
        unread_count: parsed.unread_count,
        is_starred: false,
        created_at,
        updated_at: now,
    }
}

/// The record stored for an OPML entry whose feed could not be fetched or
/// parsed.
pub fn placeholder_feed_record(entry: &OpmlFeedEntry, id: String, now: String) -> (r: Feed)
    ensures
        r@ == placeholder_feed_spec(
            entry.url@,
            entry.title.deep_view(),
            entry.site_url.deep_view(),
            id@,
            now@,
        ),
{
    let title = match &entry.title {
        Some(t) => t.clone(),
        None => entry.url.clone(),
    };
    let created_at = now.clone();
    Feed {
        id,
        title,
        url: entry.url.clone(),
        description: None,
        favicon_url: None,
        site_url: clone_opt(&entry.site_url),
        article_count: 0,
        unread_count: 0,
        is_starred: false,
        created_at,
        updated_at: now,
    }
}

} // verus!
