//! HLS manifest model and the resolution of a (possibly nested) manifest
//! tree down to one playable media playlist.
//!
//! A master playlist names variant streams; resolution selects exactly one
//! variant by a fixed tie-break (the last listed), normalizes every URL
//! against the origin it was fetched from, and recurses with a bounded
//! depth. A media playlist names the segments to download.

use crate::errors::{ErrorView, MediaError};
use crate::text::{find_char, find_char_from, is_prefix_of, lemma_find_char_from_bounds,
    starts_with};
use vstd::prelude::*;

verus! {

/// How deep a master-to-master manifest chain may go before resolution
/// fails.
pub const MAX_RESOLVE_DEPTH: usize = 5;

/// One media segment of a media playlist. The duration is carried as the
/// rendered text of the manifest's `EXTINF` value.
#[derive(Debug)]
pub struct MediaSegment {
    pub uri: String,
    pub duration: String,
}

/// The ghost shape of a [`MediaSegment`].
#[verifier::ext_equal]
pub struct SegmentView {
    pub uri: Seq<char>,
    pub duration: Seq<char>,
}

impl View for MediaSegment {
    type V = SegmentView;

    open spec fn view(&self) -> SegmentView {
        SegmentView { uri: self.uri@, duration: self.duration@ }
    }
}

/// An ordered media playlist: the segments to fetch, in playback order.
#[derive(Debug)]
pub struct MediaPlaylist {
    pub target_duration: u64,
    pub segments: Vec<MediaSegment>,
}

/// The ghost shape of a [`MediaPlaylist`].
#[verifier::ext_equal]
pub struct MediaPlaylistView {
    pub target_duration: u64,
    pub segments: Seq<SegmentView>,
}

impl View for MediaPlaylist {
    type V = MediaPlaylistView;

    open spec fn view(&self) -> MediaPlaylistView {
        MediaPlaylistView {
            target_duration: self.target_duration,
            segments: self.segments@.map_values(|s: MediaSegment| s@),
        }
    }
}

/// One variant stream named by a master playlist.
#[derive(Debug)]
pub struct VariantStream {
    pub uri: String,
}

/// A master playlist: the variant streams it offers, in listed order.
#[derive(Debug)]
pub struct MasterPlaylist {
    pub variants: Vec<VariantStream>,
}

impl View for MasterPlaylist {
    type V = Seq<Seq<char>>;

    open spec fn view(&self) -> Seq<Seq<char>> {
        self.variants@.map_values(|v: VariantStream| v.uri@)
    }
}

/// What a fetched manifest turned out to be.
#[derive(Debug)]
pub enum ParsedManifest {
    Master(MasterPlaylist),
    Media(MediaPlaylist),
    Invalid,
}

/// The ghost shape of a [`ParsedManifest`].
pub enum ManifestView {
    Master(Seq<Seq<char>>),
    Media(MediaPlaylistView),
    Invalid,
}

impl View for ParsedManifest {
    type V = ManifestView;

    open spec fn view(&self) -> ManifestView {
        match self {
            ParsedManifest::Master(m) => ManifestView::Master(m@),
            ParsedManifest::Media(p) => ManifestView::Media(p@),
            ParsedManifest::Invalid => ManifestView::Invalid,
        }
    }
}

/// What parsing a given manifest body yields.
pub uninterp spec fn manifest_of(bytes: Seq<u8>) -> ManifestView;

/// Parses a manifest body as a master or media playlist.
///
/// Relies on `m3u8_rs::parse_playlist_res`: the result is a function of
/// the bytes alone; an unparseable body is reported as `Invalid`.
#[verifier::external_body]
pub fn parse_playlist(bytes: &Vec<u8>) -> (r: ParsedManifest)
    ensures
        r@ == manifest_of(bytes@),
{
    match m3u8_rs::parse_playlist_res(bytes) {
        Ok(m3u8_rs::Playlist::MasterPlaylist(p)) => ParsedManifest::Master(MasterPlaylist {
            variants: p.variants.into_iter().map(|v| VariantStream { uri: v.uri }).collect(),
        }),
        Ok(m3u8_rs::Playlist::MediaPlaylist(p)) => ParsedManifest::Media(MediaPlaylist {
            target_duration: p.target_duration,
            segments: p.segments.into_iter().map(
                |s| MediaSegment { uri: s.uri, duration: format!("{}", s.duration) },
            ).collect(),
        }),
        Err(_) => ParsedManifest::Invalid,
    }
}

/// Whether a URL is absolute (carries its own scheme).
pub open spec fn is_absolute_url(u: Seq<char>) -> bool {
    is_prefix_of("http://"@, u) || is_prefix_of("https://"@, u)
}

/// The origin of an absolute URL: the scheme and host, up to but not
/// including the first slash after the scheme. Anything else is returned
/// whole.
pub open spec fn origin_of(u: Seq<char>) -> Seq<char> {
    if is_prefix_of("https://"@, u) {
        u.take(find_char_from(u, '/', 8))
    } else if is_prefix_of("http://"@, u) {
        u.take(find_char_from(u, '/', 7))
    } else {
        u
    }
}

/// A URL normalized against the origin it was fetched from: an absolute
/// URL is kept, a relative one is prefixed with the fetch origin.
pub open spec fn normalized_url(base: Seq<char>, u: Seq<char>) -> Seq<char> {
    if is_absolute_url(u) {
        u
    } else {
        origin_of(base) + u
    }
}

/// The origin of an absolute URL.
pub fn origin_of_url(u: &str) -> (r: String)
    ensures
        r@ == origin_of(u@),
{
    if starts_with(u, "https://") {
        proof {
            reveal_strlit("https://");
            lemma_find_char_from_bounds(u@, '/', 8);
        }
        let end = find_char(u, '/', 8);
        let r = u.substring_char(0, end).to_owned();
        assert(r@ =~= origin_of(u@));
        r
    } else if starts_with(u, "http://") {
        proof {
            reveal_strlit("http://");
            lemma_find_char_from_bounds(u@, '/', 7);
        }
        let end = find_char(u, '/', 7);
        let r = u.substring_char(0, end).to_owned();
        assert(r@ =~= origin_of(u@));
        r
    } else {
        u.to_owned()
    }
}

/// Normalizes one URL against the URL of the manifest that named it.
pub fn normalize_url(base: &str, uri: &str) -> (r: String)
    ensures
        r@ == normalized_url(base@, uri@),
{
    if starts_with(uri, "http://") || starts_with(uri, "https://") {
        uri.to_owned()
    } else {
        let mut r = origin_of_url(base);
        r.append(uri);
        r
    }
}

/// Selects the variant that resolution follows: by the fixed tie-break,
/// the last-listed variant. An empty master playlist is a parse error.
pub fn select_variant(master: &MasterPlaylist) -> (r: Result<String, MediaError>)
    ensures
        master@.len() > 0 <==> r is Ok,
        r matches Ok(u) ==> u@ == master@.last(),
        r matches Err(e) ==> e@ matches ErrorView::Parse { message: m } && m
            == "empty master playlist"@,
{
    let n = master.variants.len();
    if n == 0 {
        Err(MediaError::parse_error("empty master playlist"))
    } else {
        Ok(master.variants[n - 1].uri.clone())
    }
}

/// What one resolution step decides: the chain is done, another manifest
/// must be fetched, or resolution has failed.
pub enum ResolveStep {
    Resolved(MediaPlaylist),
    FetchNext(String),
    Failed(MediaError),
}

/// The ghost shape of a [`ResolveStep`].
pub enum StepView {
    Resolved(MediaPlaylistView),
    FetchNext(Seq<char>),
    Failed(ErrorView),
}

impl View for ResolveStep {
    type V = StepView;

    open spec fn view(&self) -> StepView {
        match self {
            ResolveStep::Resolved(p) => StepView::Resolved(p@),
            ResolveStep::FetchNext(u) => StepView::FetchNext(u@),
            ResolveStep::Failed(e) => StepView::Failed(e@),
        }
    }
}

/// A media playlist with every segment URL normalized against the URL it
/// was fetched from.
pub open spec fn normalized_playlist(url: Seq<char>, p: MediaPlaylistView) -> MediaPlaylistView {
    MediaPlaylistView {
        target_duration: p.target_duration,
        segments: p.segments.map_values(
            |s: SegmentView|
                SegmentView { uri: normalized_url(url, s.uri), duration: s.duration },
        ),
    }
}

/// What one resolution step decides, given the manifest fetched from
/// `url` at recursion depth `depth` under the cap `cap`: an unparseable
/// body fails; a master playlist with no variants fails; a master beyond
/// the depth cap fails; otherwise a master hands back the normalized URL
/// of the last-listed variant, and a media playlist resolves the chain
/// with its segment URLs normalized.
pub open spec fn step_view(url: Seq<char>, m: ManifestView, depth: int, cap: int) -> StepView {
    match m {
        ManifestView::Invalid => StepView::Failed(
            ErrorView::Parse { message: "failed to parse manifest"@ },
        ),
        ManifestView::Master(vs) => if vs.len() == 0 {
            StepView::Failed(ErrorView::Parse { message: "empty master playlist"@ })
        } else if depth >= cap {
            StepView::Failed(ErrorView::Parse { message: "manifest recursion limit exceeded"@ })
        } else {
            StepView::FetchNext(normalized_url(url, vs.last()))
        },
        ManifestView::Media(p) => StepView::Resolved(normalized_playlist(url, p)),
    }
}

/// One step of manifest resolution. See [`step_view`] for exactly what it
/// decides.
pub fn resolve_step(url: &str, manifest: &ParsedManifest, depth: usize, cap: usize) -> (r:
    ResolveStep)
    ensures
        r@ == step_view(url@, manifest@, depth as int, cap as int),
{
    match manifest {
        ParsedManifest::Invalid => ResolveStep::Failed(
            MediaError::parse_error("failed to parse manifest"),
        ),
        ParsedManifest::Master(master) => {
            match select_variant(master) {
                Err(e) => ResolveStep::Failed(e),
                Ok(variant_uri) => {
                    if depth >= cap {
                        ResolveStep::Failed(
                            MediaError::parse_error("manifest recursion limit exceeded"),
                        )
                    } else {
                        ResolveStep::FetchNext(normalize_url(url, variant_uri.as_str()))
                    }
                },
            }
        },
        ParsedManifest::Media(p) => {
            let n = p.segments.len();
            let mut segments: Vec<MediaSegment> = Vec::new();
            let mut i: usize = 0;
            while i < n
                invariant
                    n == p.segments@.len(),
                    0 <= i <= n,
                    segments@.len() == i,
                    forall|j: int|
                        0 <= j < i ==> #[trigger] segments@[j]@ == (SegmentView {
                            uri: normalized_url(url@, p.segments@[j]@.uri),
                            duration: p.segments@[j]@.duration,
                        }),
                decreases n - i,
            {
                let seg = &p.segments[i];
                let uri = normalize_url(url, seg.uri.as_str());
                segments.push(MediaSegment { uri, duration: seg.duration.clone() });
                i = i + 1;
            }
            let out = MediaPlaylist { target_duration: p.target_duration, segments };
            proof {
                assert(out@.segments =~= normalized_playlist(url@, p@).segments);
                assert(out@ =~= normalized_playlist(url@, p@));
            }
            ResolveStep::Resolved(out)
        },
    }
}

/// The outcome of resolving a whole manifest chain.
pub enum ChainView {
    Media(MediaPlaylistView),
    Fail(ErrorView),
}

/// The outcome of resolving a manifest chain: the manifests are consumed
/// in order, each one deciding the next step as [`step_view`] says; a
/// chain that runs out of manifests without reaching a media playlist
/// fails.
pub open spec fn chain_outcome(url: Seq<char>, ms: Seq<ManifestView>, depth: int, cap: int)
    -> ChainView
    decreases ms.len(),
{
    if ms.len() == 0 {
        ChainView::Fail(ErrorView::Parse { message: "manifest chain exhausted"@ })
    } else {
        match step_view(url, ms[0], depth, cap) {
            StepView::Resolved(p) => ChainView::Media(p),
            StepView::FetchNext(u) => chain_outcome(u, ms.drop_first(), depth + 1, cap),
            StepView::Failed(e) => ChainView::Fail(e),
        }
    }
}

/// The ghost shapes of a sequence of parsed manifests.
pub open spec fn manifest_views(ms: Seq<ParsedManifest>) -> Seq<ManifestView> {
    ms.map_values(|m: ParsedManifest| m@)
}

/// Resolves a manifest chain that was fetched starting from `start_url`,
/// consuming the fetched manifests in order. Returns exactly what
/// [`chain_outcome`] decides.
pub fn resolve_chain(start_url: &str, manifests: &Vec<ParsedManifest>, cap: usize) -> (r: Result<
    MediaPlaylist,
    MediaError,
>)
    ensures
        chain_outcome(start_url@, manifest_views(manifests@), 0, cap as int) matches ChainView::Media(
            pv,
        ) ==> (r matches Ok(p) && p@ == pv),
        chain_outcome(start_url@, manifest_views(manifests@), 0, cap as int)
            matches ChainView::Fail(ev) ==> (r matches Err(e) && e@ == ev),
{
    let ghost full = manifest_views(manifests@);
    let n = manifests.len();
    let mut url: String = start_url.to_owned();
    let mut i: usize = 0;
    proof {
        assert(full.skip(0) =~= full);
    }
    while i < n
        invariant
            n == manifests@.len(),
            0 <= i <= n,
            full == manifest_views(manifests@),
            chain_outcome(start_url@, full, 0, cap as int) == chain_outcome(
                url@,
                full.skip(i as int),
                i as int,
                cap as int,
            ),
        decreases n - i,
    {
        let step = resolve_step(url.as_str(), &manifests[i], i, cap);
        proof {
            assert(full.skip(i as int)[0] == manifests@[i as int]@);
            assert(full.skip(i as int).drop_first() =~= full.skip(i + 1));
        }
        match step {
            ResolveStep::Resolved(p) => {
                return Ok(p);
            },
            ResolveStep::Failed(e) => {
                return Err(e);
            },
            ResolveStep::FetchNext(u) => {
                url = u;
                i = i + 1;
            },
        }
    }
    assert(full.skip(n as int) =~= Seq::<ManifestView>::empty());
    Err(MediaError::parse_error("manifest chain exhausted"))
}

/// A chain of master playlists longer than the depth cap always fails:
/// the recursion cap cuts resolution off cleanly.
pub proof fn lemma_chain_depth_capped(
    url: Seq<char>,
    ms: Seq<ManifestView>,
    depth: int,
    cap: int,
)
    requires
        0 <= depth,
        depth + ms.len() > cap >= depth,
        forall|i: int|
            0 <= i < ms.len() ==> (#[trigger] ms[i] matches ManifestView::Master(vs) && vs.len()
                > 0),
    ensures
        chain_outcome(url, ms, depth, cap) matches ChainView::Fail(e) && e matches ErrorView::Parse {
            message: m,
        } && m == "manifest recursion limit exceeded"@,
    decreases ms.len(),
{
    assert(ms[0] matches ManifestView::Master(vs) && vs.len() > 0);
    if depth < cap {
        assert(forall|i: int|
            0 <= i < ms.drop_first().len() ==> (#[trigger] ms.drop_first()[i]
                matches ManifestView::Master(vs) && vs.len() > 0)) by {
            assert(forall|i: int|
                0 <= i < ms.drop_first().len() ==> ms.drop_first()[i] == ms[i + 1]);
        }
        lemma_chain_depth_capped(
            normalized_url(url, ms[0]->Master_0.last()),
            ms.drop_first(),
            depth + 1,
            cap,
        );
    }
}

/// The manifest text of one segment entry.
pub open spec fn rendered_segment(s: SegmentView) -> Seq<char> {
    "#EXTINF:"@ + s.duration + ",\n"@ + s.uri + "\n"@
}

/// The manifest text of a run of segment entries, in order.
pub open spec fn rendered_segments(ss: Seq<SegmentView>) -> Seq<char>
    decreases ss.len(),
{
    if ss.len() == 0 {
        Seq::empty()
    } else {
        rendered_segments(ss.drop_last()) + rendered_segment(ss.last())
    }
}

/// The manifest text of a whole media playlist.
pub open spec fn rendered_playlist(p: MediaPlaylistView) -> Seq<char> {
    "#EXTM3U\n#EXT-X-TARGETDURATION:"@ + crate::text::dec_rep(p.target_duration as nat) + "\n"@
        + rendered_segments(p.segments) + "#EXT-X-ENDLIST\n"@
}

/// Renders a media playlist back to manifest text, segment by segment in
/// order, so the remux tool can be pointed at the rewritten local copy.
pub fn render_media_playlist(p: &MediaPlaylist) -> (r: String)
    ensures
        r@ == rendered_playlist(p@),
{
    let mut out = String::from_str("#EXTM3U\n#EXT-X-TARGETDURATION:");
    let td = crate::text::u64_to_string(p.target_duration);
    out.append(td.as_str());
    out.append("\n");
    let ghost header = "#EXTM3U\n#EXT-X-TARGETDURATION:"@ + crate::text::dec_rep(
        p.target_duration as nat,
    ) + "\n"@;
    let n = p.segments.len();
    let mut i: usize = 0;
    while i < n
        invariant
            n == p.segments@.len(),
            0 <= i <= n,
            header == "#EXTM3U\n#EXT-X-TARGETDURATION:"@ + crate::text::dec_rep(
                p.target_duration as nat,
            ) + "\n"@,
            out@ == header + rendered_segments(p@.segments.take(i as int)),
        decreases n - i,
    {
        let seg = &p.segments[i];
        out.append("#EXTINF:");
        out.append(seg.duration.as_str());
        out.append(",\n");
        out.append(seg.uri.as_str());
        out.append("\n");
        proof {
            assert(p@.segments.take(i + 1).drop_last() =~= p@.segments.take(i as int));
            assert(p@.segments.take(i + 1).last() == p@.segments[i as int]);
            assert(p@.segments[i as int] == p.segments@[i as int]@);
            assert(out@ =~= header + rendered_segments(p@.segments.take(i + 1)));
        }
        i = i + 1;
    }
    out.append("#EXT-X-ENDLIST\n");
    proof {
        assert(p@.segments.take(n as int) =~= p@.segments);
        assert(out@ =~= rendered_playlist(p@));
    }
    out
}

/// One downloaded segment: which original segment it was, and where its
/// bytes landed.
pub struct DownloadedSegment {
    pub index: usize,
    pub local_path: String,
}

/// Whether some download result carries original segment index `i`.
pub open spec fn covers_index(rs: Seq<DownloadedSegment>, i: int) -> bool {
    exists|j: int| 0 <= j < rs.len() && (#[trigger] rs[j].index) == i
}

/// Whether one of the first `upto` download results carries original
/// segment index `i`.
pub open spec fn covers_index_upto(rs: Seq<DownloadedSegment>, upto: int, i: int) -> bool {
    exists|j: int| 0 <= j < upto && (#[trigger] rs[j].index) == i
}

/// Whether a batch of download results rewrites a playlist completely:
/// one result for every original segment index, each index in range and
/// hit exactly once.
pub open spec fn complete_rewrite(p: MediaPlaylistView, rs: Seq<DownloadedSegment>) -> bool {
    &&& rs.len() == p.segments.len()
    &&& forall|j: int| 0 <= j < rs.len() ==> (#[trigger] rs[j].index) < p.segments.len()
    &&& forall|j: int, k: int| 0 <= j < k < rs.len() ==> rs[j].index != rs[k].index
    &&& forall|i: int| 0 <= i < p.segments.len() ==> #[trigger] covers_index(rs, i)
}

/// Rewrites a playlist with the local paths of its downloaded segments.
/// The results may arrive in any completion order: the `i`-th segment of
/// the rewritten playlist always carries the local path downloaded for
/// the original `i`-th segment, and its duration is kept. A batch that
/// does not cover every segment exactly once is rejected.
pub fn rewrite_playlist(playlist: &MediaPlaylist, results: &Vec<DownloadedSegment>) -> (r: Result<
    MediaPlaylist,
    MediaError,
>)
    ensures
        r is Ok <==> complete_rewrite(playlist@, results@),
        r matches Ok(p) ==> {
            &&& p@.segments.len() == playlist@.segments.len()
            &&& p@.target_duration == playlist@.target_duration
            &&& forall|j: int|
                0 <= j < results@.len() ==> p@.segments[#[trigger] results@[j].index as int].uri
                    == results@[j].local_path@
            &&& forall|i: int|
                0 <= i < p@.segments.len() ==> #[trigger] p@.segments[i].duration
                    == playlist@.segments[i].duration
        },
        r matches Err(e) ==> e@ is Concurrency,
{
    let n = playlist.segments.len();
    if results.len() != n {
        return Err(MediaError::ConcurrencyError);
    }
    let mut slots: Vec<Option<String>> = Vec::new();
    let mut i: usize = 0;
    while i < n
        invariant
            0 <= i <= n,
            slots@.len() == i,
            forall|k: int| 0 <= k < i ==> #[trigger] slots@[k] is None,
        decreases n - i,
    {
        slots.push(None);
        i = i + 1;
    }
    let mut j: usize = 0;
    while j < n
        invariant
            n == playlist.segments@.len() == results@.len(),
            slots@.len() == n,
            0 <= j <= n,
            forall|j2: int|
                0 <= j2 < j ==> (slots@[#[trigger] results@[j2].index as int] matches Some(pp)
                    && pp@ == results@[j2].local_path@ && results@[j2].index < n),
            forall|k: int|
                0 <= k < n ==> (#[trigger] slots@[k] is Some <==> covers_index_upto(
                    results@,
                    j as int,
                    k,
                )),
            forall|j1: int, j2: int|
                0 <= j1 < j2 < j ==> results@[j1].index != results@[j2].index,
        decreases n - j,
    {
        let idx = results[j].index;
        if idx >= n {
            assert(!complete_rewrite(playlist@, results@));
            return Err(MediaError::ConcurrencyError);
        }
        let filled = match &slots[idx] {
            Option::Some(_) => true,
            Option::None => false,
        };
        if filled {
            proof {
                assert(covers_index_upto(results@, j as int, idx as int));
                let j2 = choose|j2: int|
                    0 <= j2 < j && (#[trigger] results@[j2].index) == idx as int;
                assert(results@[j2].index == results@[j as int].index);
                assert(!complete_rewrite(playlist@, results@));
            }
            return Err(MediaError::ConcurrencyError);
        }
        assert(!covers_index_upto(results@, j as int, idx as int));
        slots.set(idx, Some(results[j].local_path.clone()));
        j = j + 1;
        assert forall|k: int|
            0 <= k < n implies (#[trigger] slots@[k] is Some <==> covers_index_upto(
            results@,
            j as int,
            k,
        )) by {
            if k == idx as int {
                assert(results@[j - 1].index == k);
            } else {
                if covers_index_upto(results@, j as int, k) {
                    let j2 = choose|j2: int|
                        0 <= j2 < j && (#[trigger] results@[j2].index) == k;
                    assert(j2 < j - 1);
                    assert(covers_index_upto(results@, j - 1, k));
                }
                if covers_index_upto(results@, j - 1, k) {
                    let j2 = choose|j2: int|
                        0 <= j2 < j - 1 && (#[trigger] results@[j2].index) == k;
                    assert(covers_index_upto(results@, j as int, k));
                }
            }
        }
    }
    let mut segments: Vec<MediaSegment> = Vec::new();
    let mut i: usize = 0;
    while i < n
        invariant
            n == playlist.segments@.len() == results@.len(),
            slots@.len() == n,
            0 <= i <= n,
            segments@.len() == i,
            forall|j2: int|
                0 <= j2 < n ==> (slots@[#[trigger] results@[j2].index as int] matches Some(pp)
                    && pp@ == results@[j2].local_path@ && results@[j2].index < n),
            forall|k: int|
                0 <= k < n ==> (#[trigger] slots@[k] is Some <==> covers_index_upto(
                    results@,
                    n as int,
                    k,
                )),
            forall|j1: int, j2: int|
                0 <= j1 < j2 < n ==> results@[j1].index != results@[j2].index,
            forall|k: int| 0 <= k < i ==> #[trigger] slots@[k] is Some,
            forall|k: int|
                0 <= k < i ==> (#[trigger] slots@[k] matches Some(pp) && segments@[k]@.uri
                    == pp@),
            forall|k: int|
                0 <= k < i ==> #[trigger] segments@[k]@.duration
                    == playlist.segments@[k]@.duration,
        decreases n - i,
    {
        let present = match &slots[i] {
            Option::Some(_) => true,
            Option::None => false,
        };
        if !present {
            proof {
                assert(!covers_index_upto(results@, n as int, i as int));
                assert(!covers_index(results@, i as int)) by {
                    if covers_index(results@, i as int) {
                        let j2 = choose|j2: int|
                            0 <= j2 < results@.len() && (#[trigger] results@[j2].index)
                                == i as int;
                        assert(covers_index_upto(results@, n as int, i as int));
                    }
                }
                assert(!complete_rewrite(playlist@, results@));
            }
            return Err(MediaError::ConcurrencyError);
        }
        let path = match &slots[i] {
            Option::Some(p) => p.clone(),
            Option::None => String::new(),
        };
        let duration = playlist.segments[i].duration.clone();
        segments.push(MediaSegment { uri: path, duration });
        i = i + 1;
    }
    let out = MediaPlaylist { target_duration: playlist.target_duration, segments };
    proof {
        assert(complete_rewrite(playlist@, results@)) by {
            assert forall|k: int| 0 <= k < n implies #[trigger] covers_index(results@, k) by {
                assert(slots@[k] is Some);
                assert(covers_index_upto(results@, n as int, k));
                let j2 = choose|j2: int|
                    0 <= j2 < n && (#[trigger] results@[j2].index) == k;
                assert(covers_index(results@, k));
            }
        }
    }
    Ok(out)
}

} // verus!
