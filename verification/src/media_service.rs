//! The media service's decision logic: following a download's progress
//! events to its final path, naming the renamed library file, and laying
//! out a batch of episode downloads. The RPC round trips and the file
//! moves run in the shell.

use crate::errors::MediaError;
use crate::progress::DownloadProgressItem;
use crate::rpc_client::RpcClient;
use crate::text::dec_rep;
use vstd::prelude::*;

verus! {

/// Where the renamed media library lives.
pub const MEDIA_DIR: &'static str = "media";

/// The media service: its library directory and its RPC clients.
pub struct MediaService<T> {
    pub media_dir: String,
    pub rpc_client: RpcClient<T>,
}

impl<T> MediaService<T> {
    /// A media service over the given clients, rooted at the preset
    /// library directory.
    pub fn new(rpc_client: RpcClient<T>) -> (s: Self)
        ensures
            s.media_dir@ == MEDIA_DIR@,
            s.rpc_client == rpc_client,
    {
        MediaService { media_dir: String::from_str(MEDIA_DIR), rpc_client }
    }
}

/// What following a download's progress stream has learned so far.
pub struct DownloadWatch {
    /// The segment total announced by the opening event, once seen.
    pub total: Option<usize>,
    /// How many segment completions have been seen.
    pub finished: u64,
}

impl DownloadWatch {
    /// A fresh watch: nothing seen yet.
    pub fn new() -> (w: Self)
        ensures
            w.total is None,
            w.finished == 0,
    {
        DownloadWatch { total: None, finished: 0 }
    }

    /// Follows one progress event: the opening event fixes the total,
    /// each segment completion counts, and the successful terminal event
    /// yields the final local path. Every other event changes nothing.
    pub fn on_event(&mut self, evt: &DownloadProgressItem) -> (r: Option<String>)
        ensures
            evt matches DownloadProgressItem::Started { total_segments_of_media: t, .. } ==> (r
                is None && final(self).total == Some(*t) && final(self).finished == old(
                self,
            ).finished),
            evt is SegmentDownloaded ==> (r is None && final(self).total == old(self).total
                && final(self).finished == (if old(self).finished < u64::MAX {
                old(self).finished + 1
            } else {
                old(self).finished as int
            })),
            evt matches DownloadProgressItem::Done { local_path: p, .. } ==> (r matches Some(q)
                && q@ == p@ && *final(self) == *old(self)),
            evt is TransformingVideo || evt is Failed ==> (r is None && *final(self) == *old(
                self,
            )),
    {
        match evt {
            DownloadProgressItem::Started { total_segments_of_media, .. } => {
                self.total = Some(*total_segments_of_media);
                None
            },
            DownloadProgressItem::SegmentDownloaded { .. } => {
                if self.finished < u64::MAX {
                    self.finished = self.finished + 1;
                }
                None
            },
            DownloadProgressItem::Done { local_path, .. } => Some(local_path.clone()),
            DownloadProgressItem::TransformingVideo { .. } => None,
            DownloadProgressItem::Failed { .. } => None,
        }
    }
}

/// A stream that ended without a successful terminal event is a
/// not-found outcome for the caller awaiting the file.
pub fn no_done_event_error() -> (e: MediaError)
    ensures
        e@ matches crate::errors::ErrorView::NotFound { message: m } && m
            == "No done event received"@,
{
    MediaError::not_found("No done event received")
}

/// Where a finished episode lands in the media library:
/// `{dir}/{name} ({year})/Season 01/{name} S01E{episode}.{ext}`.
pub open spec fn renamed_media_path(
    media_dir: Seq<char>,
    name: Seq<char>,
    year: u32,
    episode: u32,
    ext: Seq<char>,
) -> Seq<char> {
    media_dir + "/"@ + name + " ("@ + dec_rep(year as nat) + ")/Season 01/"@ + name + " S01E"@
        + dec_rep(episode as nat) + "."@ + ext
}

/// Builds the library path a finished episode is renamed to.
pub fn rename_media_path(media_dir: &str, name: &str, year: u32, episode: u32, ext: &str) -> (r:
    String)
    ensures
        r@ == renamed_media_path(media_dir@, name@, year, episode, ext@),
{
    let mut out = media_dir.to_owned();
    out.append("/");
    out.append(name);
    out.append(" (");
    let y = crate::text::u32_to_string(year);
    out.append(y.as_str());
    out.append(")/Season 01/");
    out.append(name);
    out.append(" S01E");
    let e = crate::text::u32_to_string(episode);
    out.append(e.as_str());
    out.append(".");
    out.append(ext);
    assert(out@ =~= renamed_media_path(media_dir@, name@, year, episode, ext@));
    out
}

/// The position after the last dot of `s`, or a negative position when
/// there is none.
pub open spec fn rfind_char(s: Seq<char>, c: char) -> int
    decreases s.len(),
{
    if s.len() == 0 {
        -1
    } else if s.last() == c {
        s.len() - 1
    } else {
        rfind_char(s.drop_last(), c)
    }
}

proof fn lemma_rfind_char_bounds(s: Seq<char>, c: char)
    ensures
        -1 <= rfind_char(s, c) < s.len(),
        rfind_char(s, c) >= 0 ==> s[rfind_char(s, c)] == c,
        forall|j: int| rfind_char(s, c) < j < s.len() ==> s[j] != c,
    decreases s.len(),
{
    if s.len() > 0 && s.last() != c {
        lemma_rfind_char_bounds(s.drop_last(), c);
        assert(forall|j: int| 0 <= j < s.len() - 1 ==> s[j] == s.drop_last()[j]);
    }
}

/// The extension of a file path: what follows the last dot. A path
/// without a dot has none.
pub fn file_extension(path: &str) -> (r: Option<String>)
    ensures
        r is Some <==> rfind_char(path@, '.') >= 0,
        r matches Some(e) ==> e@ == path@.skip(rfind_char(path@, '.') + 1),
{
    let n = path.unicode_len();
    proof {
        lemma_rfind_char_bounds(path@, '.');
    }
    let mut i: usize = n;
    while i > 0
        invariant
            n == path@.len(),
            0 <= i <= n,
            forall|j: int| i <= j < n ==> path@[j] != '.',
        decreases i,
    {
        i = i - 1;
        if path.get_char(i) == '.' {
            proof {
                assert(rfind_char(path@, '.') == i as int) by {
                    lemma_rfind_char_at(path@, '.', i as int);
                }
            }
            let ext = path.substring_char(i + 1, n).to_owned();
            assert(ext@ =~= path@.skip(i + 1));
            return Some(ext);
        }
    }
    proof {
        if rfind_char(path@, '.') >= 0 {
            assert(path@[rfind_char(path@, '.')] == '.');
        }
    }
    None
}

proof fn lemma_rfind_char_at(s: Seq<char>, c: char, i: int)
    requires
        0 <= i < s.len(),
        s[i] == c,
        forall|j: int| i < j < s.len() ==> s[j] != c,
    ensures
        rfind_char(s, c) == i,
    decreases s.len(),
{
    if i == s.len() - 1 {
    } else {
        assert(s.last() != c);
        assert(forall|j: int| 0 <= j < s.len() - 1 ==> s.drop_last()[j] == s[j]);
        lemma_rfind_char_at(s.drop_last(), c, i);
    }
}

/// The episode numbers of one batch: `count` consecutive numbers from
/// `start_number` up.
pub fn batch_episode_numbers(start_number: u32, count: u8) -> (r: Vec<u32>)
    requires
        start_number + count <= u32::MAX + 1,
    ensures
        r@.len() == count,
        forall|i: int| 0 <= i < count ==> #[trigger] r@[i] == start_number + i,
{
    let mut out: Vec<u32> = Vec::new();
    let mut i: u8 = 0;
    while i < count
        invariant
            start_number + count <= u32::MAX + 1,
            0 <= i <= count,
            out@.len() == i,
            forall|j: int| 0 <= j < i ==> #[trigger] out@[j] == start_number + j,
        decreases count - i,
    {
        out.push(start_number + (i as u32));
        i = i + 1;
    }
    out
}

} // verus!
