//! Bounded-concurrency scheduling of segment downloads.
//!
//! A job downloads the segments of a resolved playlist through a pool of
//! `limit` permits: a segment fetch is started only while fewer than
//! `limit` fetches are in flight, and every completion frees its permit.
//! The async shell performs the fetches and the cooldown sleeps; the
//! permit and progress bookkeeping here decides what may start.

use crate::errors::MediaError;
use vstd::prelude::*;

verus! {

/// The cooldown, in seconds, kept after each segment download before its
/// permit is released, to sidestep rate limiting.
pub const SEGMENT_COOLDOWN_SECS: u64 = 3;

/// How many of the flags are set.
pub open spec fn count_trues(s: Seq<bool>) -> int
    decreases s.len(),
{
    if s.len() == 0 {
        0
    } else {
        count_trues(s.drop_last()) + if s.last() {
            1int
        } else {
            0int
        }
    }
}

proof fn lemma_count_trues_bounds(s: Seq<bool>)
    ensures
        0 <= count_trues(s) <= s.len(),
    decreases s.len(),
{
    if s.len() > 0 {
        lemma_count_trues_bounds(s.drop_last());
    }
}

proof fn lemma_count_trues_update(s: Seq<bool>, i: int)
    requires
        0 <= i < s.len(),
        !s[i],
    ensures
        count_trues(s.update(i, true)) == count_trues(s) + 1,
    decreases s.len(),
{
    if i == s.len() - 1 {
        assert(s.update(i, true).drop_last() =~= s.drop_last());
    } else {
        assert(s.update(i, true).drop_last() =~= s.drop_last().update(i, true));
        lemma_count_trues_update(s.drop_last(), i);
    }
}

proof fn lemma_count_trues_prefix(s: Seq<bool>, k: int)
    requires
        0 <= k <= s.len(),
        forall|j: int| k <= j < s.len() ==> !(#[trigger] s[j]),
    ensures
        count_trues(s) <= k,
    decreases s.len(),
{
    if s.len() > 0 {
        if k == s.len() {
            lemma_count_trues_bounds(s);
        } else {
            lemma_count_trues_prefix(s.drop_last(), k);
        }
    }
}

/// The permit and progress bookkeeping of one download job: which
/// segments have been started (always in index order), which have
/// completed (in any order), and how many fetches are in flight.
pub struct SegmentScheduler {
    limit: usize,
    next: usize,
    done: Vec<bool>,
    done_count: usize,
}

impl SegmentScheduler {
    /// The concurrency limit: the size of the permit pool.
    pub closed spec fn limit(&self) -> int {
        self.limit as int
    }

    /// How many segments the job has.
    pub closed spec fn total(&self) -> int {
        self.done@.len() as int
    }

    /// How many segments have been started so far.
    pub closed spec fn started(&self) -> int {
        self.next as int
    }

    /// Which segments have completed.
    pub closed spec fn done_flags(&self) -> Seq<bool> {
        self.done@
    }

    /// How many segments have completed.
    pub closed spec fn completed(&self) -> int {
        self.done_count as int
    }

    /// How many fetches are in flight right now.
    pub open spec fn in_flight(&self) -> int {
        self.started() - self.completed()
    }

    /// The scheduler's invariant: starts run in index order and never
    /// past the end, only started segments complete, the completion count
    /// matches the flags, and the number in flight never exceeds the
    /// permit pool.
    pub open spec fn wf(&self) -> bool {
        &&& 1 <= self.limit()
        &&& 0 <= self.started() <= self.total()
        &&& forall|i: int| self.started() <= i < self.total() ==> !(#[trigger] self.done_flags()[i])
        &&& self.completed() == count_trues(self.done_flags())
        &&& 0 <= self.in_flight() <= self.limit()
    }

    /// A fresh scheduler for `total` segments under concurrency `limit`.
    pub fn new(limit: usize, total: usize) -> (s: Self)
        requires
            limit >= 1,
        ensures
            s.wf(),
            s.limit() == limit,
            s.total() == total,
            s.started() == 0,
            s.completed() == 0,
            s.in_flight() == 0,
    {
        let mut done: Vec<bool> = Vec::new();
        let mut i: usize = 0;
        while i < total
            invariant
                0 <= i <= total,
                done@.len() == i,
                forall|k: int| 0 <= k < i ==> !(#[trigger] done@[k]),
            decreases total - i,
        {
            done.push(false);
            i = i + 1;
        }
        proof {
            lemma_count_trues_prefix(done@, 0);
            lemma_count_trues_bounds(done@);
        }
        SegmentScheduler { limit, next: 0, done, done_count: 0 }
    }

    /// Whether another fetch may start right now: segments remain and a
    /// permit is free.
    pub fn can_start(&self) -> (r: bool)
        requires
            self.wf(),
        ensures
            r == (self.started() < self.total() && self.in_flight() < self.limit()),
    {
        self.next < self.done.len() && self.next - self.done_count < self.limit
    }

    /// Starts the next segment fetch if segments remain and a permit is
    /// free; returns the index to fetch. The number in flight never
    /// exceeds the limit.
    pub fn start_next(&mut self) -> (r: Option<usize>)
        requires
            old(self).wf(),
        ensures
            final(self).wf(),
            final(self).limit() == old(self).limit(),
            final(self).total() == old(self).total(),
            final(self).done_flags() == old(self).done_flags(),
            old(self).started() < old(self).total() && old(self).in_flight() < old(self).limit()
                ==> (r matches Some(idx) && idx == old(self).started() && final(self).started()
                == old(self).started() + 1 && final(self).in_flight() == old(self).in_flight()
                + 1),
            !(old(self).started() < old(self).total() && old(self).in_flight() < old(
                self,
            ).limit()) ==> (r is None && *final(self) == *old(self)),
    {
        if self.next < self.done.len() && self.next - self.done_count < self.limit {
            let idx = self.next;
            self.next = self.next + 1;
            Some(idx)
        } else {
            None
        }
    }

    /// Records the completion of segment `idx`, freeing its permit. A
    /// completion for a segment that was never started, or that already
    /// completed, is a permit bookkeeping violation and is rejected.
    pub fn complete(&mut self, idx: usize) -> (r: Result<(), MediaError>)
        requires
            old(self).wf(),
        ensures
            final(self).wf(),
            final(self).limit() == old(self).limit(),
            final(self).total() == old(self).total(),
            final(self).started() == old(self).started(),
            r is Ok <==> (idx < old(self).started() && !old(self).done_flags()[idx as int]),
            r is Ok ==> final(self).done_flags() == old(self).done_flags().update(idx as int, true)
                && final(self).in_flight() == old(self).in_flight() - 1,
            r matches Err(e) ==> *final(self) == *old(self) && e@ is Concurrency,
    {
        let n = self.done.len();
        if idx >= self.next {
            return Err(MediaError::ConcurrencyError);
        }
        if self.done[idx] {
            return Err(MediaError::ConcurrencyError);
        }
        proof {
            lemma_count_trues_update(self.done@, idx as int);
            lemma_count_trues_bounds(self.done@.update(idx as int, true));
            lemma_count_trues_prefix(self.done@.update(idx as int, true), self.next as int);
        }
        self.done.set(idx, true);
        self.done_count = self.done_count + 1;
        Ok(())
    }

    /// Whether every segment has completed.
    pub fn finished(&self) -> (r: bool)
        requires
            self.wf(),
        ensures
            r == (self.completed() == self.total()),
    {
        self.done_count == self.done.len()
    }
}

/// The options of one segment-based download: the manifest URL, where
/// the finished container lands, and the concurrency limit.
pub struct DownloadMediaOptions<'a> {
    pub download_url: &'a str,
    pub destination_path: &'a str,
    pub parallel_size: usize,
}

/// The options of one direct-remux download, shaped the same way.
pub struct DownloadVideoOptions<'a> {
    pub download_url: &'a str,
    pub destination_path: &'a str,
    pub parallel_size: usize,
}

/// What the last path segment of a URL is, if the URL parses and has a
/// path.
pub uninterp spec fn url_file_name(u: Seq<char>) -> Option<Seq<char>>;

/// The last path segment of a URL: the name downloaded bytes are stored
/// under.
///
/// Relies on `url::Url::parse` and `Url::path_segments`: the segments
/// are a function of the URL text alone; a URL that does not parse, or
/// cannot be a base, yields nothing.
#[verifier::external_body]
fn last_path_segment(u: &str) -> (r: Option<String>)
    ensures
        r is Some <==> url_file_name(u@) is Some,
        r matches Some(s) ==> url_file_name(u@) == Some(s@),
{
    match url::Url::parse(u) {
        Ok(parsed) => match parsed.path_segments() {
            Some(segments) => segments.last().map(|s| s.to_string()),
            None => None,
        },
        Err(_) => None,
    }
}

/// Where one segment's bytes are stored: the temp directory joined with
/// the URL's last path segment. A URL without one is a parse error, not
/// an abort.
pub fn segment_local_path(temp_dir: &str, download_url: &str) -> (r: Result<String, MediaError>)
    ensures
        r is Ok <==> url_file_name(download_url@) is Some,
        r matches Ok(p) ==> p@ == temp_dir@ + "/"@ + url_file_name(download_url@)->0,
        r matches Err(e) ==> e@ matches crate::errors::ErrorView::Parse { message: m } && m
            == "invalid segment url"@,
{
    match last_path_segment(download_url) {
        Option::Some(name) => {
            let mut p = temp_dir.to_owned();
            p.append("/");
            p.append(name.as_str());
            Ok(p)
        },
        Option::None => Err(MediaError::parse_error("invalid segment url")),
    }
}

/// Bounded concurrency: however the fetches interleave, a scheduler that
/// keeps its invariant never has more than `limit` fetches in flight.
pub proof fn lemma_bounded_in_flight(s: &SegmentScheduler)
    requires
        s.wf(),
    ensures
        s.in_flight() <= s.limit(),
{
}

} // verus!
