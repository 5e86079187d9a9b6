//! The templated-CMS channel adapter, shared by every site exposing the
//! common JSON API: query building, playback-field selection, and the
//! lazily cached type taxonomy that maps a raw `type_id` to a media kind.
//!
//! The HTTP round trips are performed by the shell around this crate; the
//! adapter decides what to ask, interprets what came back, and owns the
//! taxonomy cache.

use crate::errors::{ErrorView, MediaError};
use crate::protocol::MediaMetadata;
use crate::text::{dec_rep, dec_val, parse_u32, split_chars, split_str, str_eq, u32_to_string};
use vstd::prelude::*;

verus! {

/// The descriptive user agent every adapter request is sent with.
pub const REQUEST_USER_AGENT: &'static str =
    "Mozilla/5.0 (Macintosh; Intel Mac OS X 10_15_7) AppleWebKit/537.36 (KHTML, like Gecko) Chrome/127.0.0.0 Safari/537.36";

/// The HTTP protocol version an adapter speaks to its site.
pub enum HttpVersion {
    Http1,
    Http2,
}

/// A value the CMS serves either as a string or as a number.
pub enum StringOrNumber {
    String(String),
    Number(u32),
}

impl StringOrNumber {
    /// The numeric value: a number is itself; a string is read as a
    /// decimal number when it is one.
    pub fn as_u32(&self) -> (r: Option<u32>)
        ensures
            self matches StringOrNumber::Number(v) ==> r == Some(*v),
            self matches StringOrNumber::String(s) ==> r == (if s@.len() > 0
                && crate::text::all_digits(s@) && dec_val(s@) <= u32::MAX {
                Some(dec_val(s@) as u32)
            } else {
                None::<u32>
            }),
    {
        match self {
            StringOrNumber::Number(v) => Some(*v),
            StringOrNumber::String(s) => parse_u32(s.as_str()),
        }
    }
}

/// One entry of the CMS type taxonomy.
pub struct TypeItem {
    pub type_id: u32,
    pub type_pid: u32,
    pub kind_name: String,
}

/// One item of a list response.
pub struct ListItem {
    pub id: u32,
    pub name: String,
    pub type_id: u32,
    pub kind_name: String,
}

/// The full record the CMS serves for one media id.
pub struct Detail {
    pub id: u32,
    pub name: String,
    pub type_id: u32,
    pub kind_name: String,
    pub year: String,
    pub picture: String,
    pub description: String,
    pub play_url: String,
}

/// The parameters of a list request.
pub struct ListRequest {
    pub page: u32,
    pub keyword: Option<String>,
    pub type_id: Option<u32>,
}

/// The common envelope of every CMS response.
pub struct Response<T> {
    pub code: u32,
    pub msg: String,
    pub page: StringOrNumber,
    pub page_count: u32,
    pub total: u32,
    pub limit: String,
    pub list: Vec<T>,
    pub class: Option<Vec<TypeItem>>,
}

/// A list response.
pub type ListResponse = Response<ListItem>;

/// A detail response.
pub type DetailResponse = Response<Detail>;

/// The media kind an adapter derives from the taxonomy.
#[derive(PartialEq, Eq, Structural, Debug)]
pub enum MediaKind {
    Movie,
    Tv,
    Anime,
    Variety,
    Other,
}

/// One site's endpoint configuration: its API URL and the protocol
/// version to speak.
pub struct UnifiedAPI {
    pub base_url: String,
    pub http_version: HttpVersion,
}

impl UnifiedAPI {
    /// An endpoint spoken to over HTTP/2.
    pub fn new(base_url: &str) -> (api: Self)
        ensures
            api.base_url@ == base_url@,
            api.http_version is Http2,
    {
        UnifiedAPI { base_url: base_url.to_owned(), http_version: HttpVersion::Http2 }
    }

    /// An endpoint spoken to over HTTP/1.1.
    pub fn new_with_http_1(base_url: &str) -> (api: Self)
        ensures
            api.base_url@ == base_url@,
            api.http_version is Http1,
    {
        UnifiedAPI { base_url: base_url.to_owned(), http_version: HttpVersion::Http1 }
    }

    /// The query pairs of a list request: the `list` action, the page,
    /// the keyword (empty when absent) and the type filter (zero when
    /// absent).
    pub fn list_query(&self, request: &ListRequest) -> (q: Vec<(String, String)>)
        ensures
            q@.len() == 4,
            q@[0].0@ == "ac"@ && q@[0].1@ == "list"@,
            q@[1].0@ == "pg"@ && q@[1].1@ == dec_rep(request.page as nat),
            q@[2].0@ == "wd"@ && (request.keyword matches Some(k) ==> q@[2].1@ == k@) && (
            request.keyword is None ==> q@[2].1@ == Seq::<char>::empty()),
            q@[3].0@ == "t"@ && (request.type_id matches Some(t) ==> q@[3].1@ == dec_rep(
                t as nat,
            )) && (request.type_id is None ==> q@[3].1@ == dec_rep(0)),
    {
        let keyword: String = match &request.keyword {
            Option::Some(k) => k.clone(),
            Option::None => String::new(),
        };
        let type_id: u32 = match &request.type_id {
            Option::Some(t) => *t,
            Option::None => 0,
        };
        let mut q: Vec<(String, String)> = Vec::new();
        q.push((String::from_str("ac"), String::from_str("list")));
        q.push((String::from_str("pg"), u32_to_string(request.page)));
        q.push((String::from_str("wd"), keyword));
        q.push((String::from_str("t"), u32_to_string(type_id)));
        q
    }

    /// The query pairs of a detail request: the `detail` action and the
    /// requested ids joined with commas.
    pub fn detail_query(&self, ids: &Vec<String>) -> (q: Vec<(String, String)>)
        ensures
            q@.len() == 2,
            q@[0].0@ == "ac"@ && q@[0].1@ == "detail"@,
            q@[1].0@ == "ids"@ && q@[1].1@ == joined_ids(ids@),
    {
        let mut q: Vec<(String, String)> = Vec::new();
        q.push((String::from_str("ac"), String::from_str("detail")));
        q.push((String::from_str("ids"), join_ids(ids)));
        q
    }

    /// Accepts a response exactly when the CMS marks it successful; any
    /// other code is a transport-level failure carried to the caller.
    pub fn check_response_code(&self, code: u32) -> (r: Result<(), MediaError>)
        ensures
            r is Ok <==> code == 1,
            r matches Err(e) ==> e@ matches ErrorView::Parse { message: m } && m
                == "unexpected response code"@,
    {
        if code == 1 {
            Ok(())
        } else {
            Err(MediaError::parse_error("unexpected response code"))
        }
    }
}

/// The ids joined with commas, in order.
pub open spec fn joined_ids(ids: Seq<String>) -> Seq<char>
    decreases ids.len(),
{
    if ids.len() == 0 {
        Seq::empty()
    } else if ids.len() == 1 {
        ids[0]@
    } else {
        joined_ids(ids.drop_last()) + ","@ + ids.last()@
    }
}

/// Joins ids with commas, in order.
pub fn join_ids(ids: &Vec<String>) -> (r: String)
    ensures
        r@ == joined_ids(ids@),
{
    let n = ids.len();
    let mut out = String::new();
    let mut i: usize = 0;
    while i < n
        invariant
            n == ids@.len(),
            0 <= i <= n,
            out@ == joined_ids(ids@.take(i as int)),
        decreases n - i,
    {
        if i > 0 {
            out.append(",");
        }
        out.append(ids[i].as_str());
        proof {
            assert(ids@.take(i + 1).drop_last() =~= ids@.take(i as int));
            assert(ids@.take(i + 1).last() == ids@[i as int]);
            if i == 0 {
                assert(out@ =~= joined_ids(ids@.take(1)));
            } else {
                assert(out@ =~= joined_ids(ids@.take(i + 1)));
            }
        }
        i = i + 1;
    }
    assert(ids@.take(n as int) =~= ids@);
    out
}

/// The playback URL the numbered option of a playback field encodes, when
/// there is one. The field lists options separated by `#`; each option is
/// a name and a URL separated by `$`. Option numbers count from one.
pub open spec fn playback_url_of(field: Seq<char>, number: int) -> Option<Seq<char>> {
    let opts = split_chars(field, '#');
    if 1 <= number <= opts.len() {
        let parts = split_chars(opts[number - 1], '$');
        if parts.len() >= 2 {
            Some(parts[1])
        } else {
            None
        }
    } else {
        None
    }
}

/// Selects the playback URL of the numbered option from a playback
/// field. A number outside the listed options is a not-found error, and
/// an option without a `$`-separated URL is a parse error — never a
/// crash.
pub fn select_playback_url(play_url: &str, number: u32) -> (r: Result<String, MediaError>)
    ensures
        r matches Ok(u) ==> playback_url_of(play_url@, number as int) == Some(u@),
        r is Ok <==> playback_url_of(play_url@, number as int) is Some,
        r matches Err(e) ==> (if 1 <= number <= split_chars(play_url@, '#').len() {
            e@ matches ErrorView::Parse { message: m } && m == "invalid playback url format"@
        } else {
            e@ matches ErrorView::NotFound { message: m } && m == "invalid playback option number"@
        }),
{
    let opts = split_str(play_url, '#');
    if number < 1 || number as usize > opts.len() {
        return Err(MediaError::not_found("invalid playback option number"));
    }
    let idx = (number - 1) as usize;
    proof {
        assert(opts@.map_values(|t: String| t@)[idx as int] == opts@[idx as int]@);
    }
    let parts = split_str(opts[idx].as_str(), '$');
    if parts.len() < 2 {
        return Err(MediaError::parse_error("invalid playback url format"));
    }
    proof {
        assert(parts@.map_values(|t: String| t@)[1] == parts@[1]@);
    }
    Ok(parts[1].clone())
}

/// The release year a detail record carries: its `year` field read as a
/// decimal number, or zero when it is not one.
pub open spec fn release_year_of(year: Seq<char>) -> u32 {
    if year.len() > 0 && crate::text::all_digits(year) && dec_val(year) <= u32::MAX {
        dec_val(year) as u32
    } else {
        0
    }
}

/// Shapes one detail record into the metadata served to callers: the id
/// is rendered in decimal, the year is parsed (zero when malformed), and
/// name, poster and description are carried over.
pub fn metadata_from_detail(channel: &str, detail: &Detail) -> (m: MediaMetadata)
    ensures
        m.channel@ == channel@,
        m.id@ == dec_rep(detail.id as nat),
        m.name@ == detail.name@,
        m.poster_url@ == detail.picture@,
        m.release_year == release_year_of(detail.year@),
        m.description@ == detail.description@,
{
    let release_year = match parse_u32(detail.year.as_str()) {
        Option::Some(y) => y,
        Option::None => 0,
    };
    MediaMetadata {
        channel: channel.to_owned(),
        id: u32_to_string(detail.id),
        name: detail.name.clone(),
        poster_url: detail.picture.clone(),
        release_year,
        description: detail.description.clone(),
    }
}

/// The templated-CMS adapter for one configured site: its endpoint, its
/// channel name, and the lazily cached type taxonomy.
pub struct UnifiedMediaService {
    channel_name: String,
    pub api: UnifiedAPI,
    taxonomy: Option<Vec<TypeItem>>,
}

impl UnifiedMediaService {
    /// The channel name this adapter serves.
    pub closed spec fn name(&self) -> Seq<char> {
        self.channel_name@
    }

    /// The endpoint configuration this adapter speaks to.
    pub closed spec fn endpoint(&self) -> UnifiedAPI {
        self.api
    }

    /// The cached taxonomy, when one has been stored.
    pub closed spec fn cached_taxonomy(&self) -> Option<Seq<TypeItem>> {
        match self.taxonomy {
            Option::Some(items) => Some(items@),
            Option::None => None,
        }
    }

    /// A fresh adapter for a configured site: no taxonomy cached yet.
    pub fn new(channel_name: &str, base_url: &str) -> (s: Self)
        ensures
            s.name() == channel_name@,
            s.endpoint().base_url@ == base_url@,
            s.endpoint().http_version is Http2,
            s.cached_taxonomy() is None,
    {
        UnifiedMediaService {
            channel_name: channel_name.to_owned(),
            api: UnifiedAPI::new(base_url),
            taxonomy: None,
        }
    }

    /// The channel name this adapter serves.
    pub fn channel_name(&self) -> (n: String)
        ensures
            n@ == self.name(),
    {
        self.channel_name.clone()
    }

    /// Whether serving a request requires the one-time taxonomy fetch:
    /// only while nothing is cached.
    pub fn needs_taxonomy_fetch(&self) -> (r: bool)
        ensures
            r == (self.cached_taxonomy() is None),
    {
        match &self.taxonomy {
            Option::Some(_) => false,
            Option::None => true,
        }
    }

    /// Stores the fetched taxonomy; every later request finds it cached.
    pub fn store_taxonomy(&mut self, items: Vec<TypeItem>)
        ensures
            final(self).cached_taxonomy() == Some(items@),
            final(self).name() == old(self).name(),
            final(self).endpoint() == old(self).endpoint(),
    {
        self.taxonomy = Some(items);
    }

    /// The kind of a media item, derived from its `type_id` against the
    /// cached taxonomy. Without a cached taxonomy, or for an unlisted
    /// id, the kind is `Other`.
    pub fn kind_of(&self, type_id: u32) -> (k: MediaKind)
        ensures
            k == kind_of_taxonomy(self.cached_taxonomy(), type_id),
    {
        match &self.taxonomy {
            Option::None => MediaKind::Other,
            Option::Some(items) => {
                let n = items.len();
                let mut i: usize = 0;
                while i < n
                    invariant
                        n == items@.len(),
                        0 <= i <= n,
                        self.cached_taxonomy() == Some(items@),
                        forall|j: int| 0 <= j < i ==> (#[trigger] items@[j].type_id) != type_id,
                    decreases n - i,
                {
                    if items[i].type_id == type_id {
                        proof {
                            lemma_first_type_match(items@, type_id, i as int);
                            assert(self.cached_taxonomy() == Some(items@));
                        }
                        return kind_of_name(items[i].kind_name.as_str());
                    }
                    i = i + 1;
                }
                proof {
                    lemma_first_type_match_none(items@, type_id);
                    assert(self.cached_taxonomy() == Some(items@));
                }
                MediaKind::Other
            },
        }
    }
}

proof fn lemma_first_type_match_none(items: Seq<TypeItem>, type_id: u32)
    requires
        forall|j: int| 0 <= j < items.len() ==> (#[trigger] items[j].type_id) != type_id,
    ensures
        first_type_match(items, type_id) is None,
    decreases items.len(),
{
    if items.len() > 0 {
        assert(forall|j: int|
            0 <= j < items.drop_first().len() ==> (#[trigger] items.drop_first()[j].type_id)
                == items[j + 1].type_id);
        lemma_first_type_match_none(items.drop_first(), type_id);
    }
}

/// The kind a taxonomy entry's name denotes.
pub open spec fn kind_of_name_spec(name: Seq<char>) -> MediaKind {
    if name == "电影"@ {
        MediaKind::Movie
    } else if name == "电视剧"@ || name == "连续剧"@ {
        MediaKind::Tv
    } else if name == "动漫"@ {
        MediaKind::Anime
    } else if name == "综艺"@ {
        MediaKind::Variety
    } else {
        MediaKind::Other
    }
}

/// The first taxonomy entry carrying the given id, if any.
pub open spec fn first_type_match(items: Seq<TypeItem>, type_id: u32) -> Option<TypeItem>
    decreases items.len(),
{
    if items.len() == 0 {
        None
    } else if items[0].type_id == type_id {
        Some(items[0])
    } else {
        first_type_match(items.drop_first(), type_id)
    }
}

proof fn lemma_first_type_match(items: Seq<TypeItem>, type_id: u32, i: int)
    requires
        0 <= i < items.len(),
        items[i].type_id == type_id,
        forall|j: int| 0 <= j < i ==> (#[trigger] items[j].type_id) != type_id,
    ensures
        first_type_match(items, type_id) == Some(items[i]),
    decreases items.len(),
{
    if items[0].type_id != type_id {
        assert(items.drop_first()[i - 1] == items[i]);
        assert(forall|j: int|
            0 <= j < i - 1 ==> (#[trigger] items.drop_first()[j].type_id) == items[j + 1].type_id);
        lemma_first_type_match(items.drop_first(), type_id, i - 1);
    }
}

/// The kind a `type_id` maps to under a (possibly absent) taxonomy: the
/// kind named by the first matching entry, and `Other` for an unlisted
/// id or while no taxonomy is cached.
pub open spec fn kind_of_taxonomy(taxonomy: Option<Seq<TypeItem>>, type_id: u32) -> MediaKind {
    match taxonomy {
        None => MediaKind::Other,
        Some(items) => match first_type_match(items, type_id) {
            None => MediaKind::Other,
            Some(item) => kind_of_name_spec(item.kind_name@),
        },
    }
}

/// The kind a taxonomy entry's name denotes.
pub fn kind_of_name(name: &str) -> (k: MediaKind)
    ensures
        k == kind_of_name_spec(name@),
{
    if str_eq(name, "电影") {
        MediaKind::Movie
    } else if str_eq(name, "电视剧") || str_eq(name, "连续剧") {
        MediaKind::Tv
    } else if str_eq(name, "动漫") {
        MediaKind::Anime
    } else if str_eq(name, "综艺") {
        MediaKind::Variety
    } else {
        MediaKind::Other
    }
}

/// The first record of a detail response. An empty list means the id
/// named nothing: a not-found error.
pub fn first_detail(mut details: Vec<Detail>) -> (r: Result<Detail, MediaError>)
    ensures
        r is Ok <==> details@.len() > 0,
        r matches Ok(d) ==> d == details@[0],
        r matches Err(e) ==> e@ matches ErrorView::NotFound { message: m } && m
            == "invalid media id"@,
{
    if details.len() == 0 {
        Err(MediaError::not_found("invalid media id"))
    } else {
        let d = details.remove(0);
        Ok(d)
    }
}

/// Shapes a run of detail records into the metadata served for a search,
/// in order, each as [`metadata_from_detail`] shapes it.
pub fn map_details_to_metadata(channel: &str, details: &Vec<Detail>) -> (r: Vec<MediaMetadata>)
    ensures
        r@.len() == details@.len(),
        forall|i: int|
            0 <= i < details@.len() ==> {
                &&& (#[trigger] r@[i]).channel@ == channel@
                &&& r@[i].id@ == dec_rep(details@[i].id as nat)
                &&& r@[i].name@ == details@[i].name@
                &&& r@[i].poster_url@ == details@[i].picture@
                &&& r@[i].release_year == release_year_of(details@[i].year@)
                &&& r@[i].description@ == details@[i].description@
            },
{
    let n = details.len();
    let mut out: Vec<MediaMetadata> = Vec::new();
    let mut i: usize = 0;
    while i < n
        invariant
            n == details@.len(),
            0 <= i <= n,
            out@.len() == i,
            forall|j: int|
                0 <= j < i ==> {
                    &&& (#[trigger] out@[j]).channel@ == channel@
                    &&& out@[j].id@ == dec_rep(details@[j].id as nat)
                    &&& out@[j].name@ == details@[j].name@
                    &&& out@[j].poster_url@ == details@[j].picture@
                    &&& out@[j].release_year == release_year_of(details@[j].year@)
                    &&& out@[j].description@ == details@[j].description@
                },
        decreases n - i,
    {
        out.push(metadata_from_detail(channel, &details[i]));
        i = i + 1;
    }
    out
}

/// Assembles one page of search results.
pub fn search_response(
    channel: &str,
    details: &Vec<Detail>,
    total: u32,
    page: u32,
    page_size: u32,
) -> (r: crate::protocol::SearchMediaResponse)
    ensures
        r.items@.len() == details@.len(),
        forall|i: int|
            0 <= i < details@.len() ==> (#[trigger] r.items@[i]).name@ == details@[i].name@
                && r.items@[i].channel@ == channel@,
        r.total == total,
        r.page == page,
        r.page_size == page_size,
{
    crate::protocol::SearchMediaResponse {
        items: map_details_to_metadata(channel, details),
        total,
        page,
        page_size,
    }
}

} // verus!
