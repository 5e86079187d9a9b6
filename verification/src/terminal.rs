//! The terminal client's state and its API addressing. Rendering and key
//! handling stay in the excluded terminal process; the state shapes, the
//! search URL and the help layout arithmetic live here.

use crate::protocol::SearchMediaResponse;
use crate::text::{dec_rep, u32_to_string};
use vstd::prelude::*;

verus! {

/// Which view the terminal shows.
#[derive(Clone, Copy, PartialEq, Eq, Structural)]
pub enum CurrentlyView {
    Dashboard,
    Search,
}

impl Default for CurrentlyView {
    fn default() -> (r: Self)
        ensures
            r is Dashboard,
    {
        CurrentlyView::Dashboard
    }
}

/// The terminal's top-level state.
pub struct AppState {
    pub currently_view: CurrentlyView,
    pub editing: bool,
}

impl Default for AppState {
    fn default() -> (r: Self)
        ensures
            r.currently_view is Dashboard,
            !r.editing,
    {
        AppState { currently_view: CurrentlyView::Dashboard, editing: false }
    }
}

/// One step of the search view's lifecycle.
pub enum SearchAction {
    Pending,
    StartEditing,
    KeywordChanged,
    Search(String),
    Completed(SearchMediaResponse),
    Cancelled,
    Error(String),
}

/// Where the search view stands.
pub enum SearchState {
    Pending,
    Input,
    Searching,
    Completed(SearchMediaResponse),
    Error(String),
}

impl SearchState {
    /// Whether the view waits for the user to begin.
    pub fn is_pending(&self) -> (r: bool)
        ensures
            r == (*self is Pending),
    {
        match self {
            SearchState::Pending => true,
            _ => false,
        }
    }

    /// Whether the search has come to rest, with results or with an
    /// error.
    pub fn is_completed(&self) -> (r: bool)
        ensures
            r == (*self is Completed || *self is Error),
    {
        match self {
            SearchState::Completed(_) => true,
            SearchState::Error(_) => true,
            _ => false,
        }
    }
}

/// One key binding shown in the help panel.
pub struct KeyBinding {
    pub description: String,
    pub keys: Vec<String>,
}

/// The length of a run of key names joined with dashes.
pub open spec fn joined_keys_len(keys: Seq<String>) -> int
    decreases keys.len(),
{
    if keys.len() == 0 {
        0
    } else if keys.len() == 1 {
        keys[0]@.len() as int
    } else {
        joined_keys_len(keys.drop_last()) + 1 + keys.last()@.len()
    }
}

/// The largest joined-keys length over the bindings.
pub open spec fn max_joined_keys_len(bindings: Seq<KeyBinding>) -> int
    decreases bindings.len(),
{
    if bindings.len() == 0 {
        1
    } else {
        let rest = max_joined_keys_len(bindings.drop_last());
        let last = joined_keys_len(bindings.last().keys@);
        if last > rest {
            last
        } else {
            rest
        }
    }
}

/// The help panel: the bindings it lists.
pub struct HelpPanel {
    pub key_bindings: Vec<KeyBinding>,
}

impl HelpPanel {
    /// A help panel over the given bindings.
    pub fn new(key_bindings: Vec<KeyBinding>) -> (p: Self)
        ensures
            p.key_bindings == key_bindings,
    {
        HelpPanel { key_bindings }
    }

    /// The width of the key column: the largest joined key length,
    /// capped at three, plus the bracket padding.
    pub fn key_column_width(&self) -> (w: u64)
        ensures
            w == (if max_joined_keys_len(self.key_bindings@) < 3 {
                max_joined_keys_len(self.key_bindings@) + 3
            } else {
                6
            }),
    {
        let n = self.key_bindings.len();
        let mut best: u64 = 1;
        let mut i: usize = 0;
        while i < n
            invariant
                n == self.key_bindings@.len(),
                0 <= i <= n,
                best == (if max_joined_keys_len(self.key_bindings@.take(i as int)) > 6 {
                    6int
                } else {
                    max_joined_keys_len(self.key_bindings@.take(i as int))
                }),
                1 <= best <= 6,
            decreases n - i,
        {
            let kb = &self.key_bindings[i];
            let m = kb.keys.len();
            let mut len: u64 = 0;
            let mut j: usize = 0;
            while j < m
                invariant
                    m == kb.keys@.len(),
                    0 <= j <= m,
                    len == (if joined_keys_len(kb.keys@.take(j as int)) > 7 {
                        7int
                    } else {
                        joined_keys_len(kb.keys@.take(j as int))
                    }),
                    0 <= len <= 7,
                decreases m - j,
            {
                let kl = kb.keys[j].as_str().unicode_len();
                proof {
                    assert(kb.keys@.take(j + 1).drop_last() =~= kb.keys@.take(j as int));
                    assert(kb.keys@.take(j + 1).last() == kb.keys@[j as int]);
                }
                let add: u64 = if j > 0 {
                    1
                } else {
                    0
                };
                let grow: u64 = if kl > 7 {
                    7
                } else {
                    kl as u64
                };
                let next = len + add + grow;
                len = if next > 7 {
                    7
                } else {
                    next
                };
                j = j + 1;
            }
            proof {
                assert(kb.keys@.take(m as int) =~= kb.keys@);
                assert(self.key_bindings@.take(i + 1).drop_last() =~= self.key_bindings@.take(
                    i as int,
                ));
                assert(self.key_bindings@.take(i + 1).last() == self.key_bindings@[i as int]);
            }
            let cand = if len > 6 {
                6
            } else {
                len
            };
            if cand > best {
                best = cand;
            }
            i = i + 1;
        }
        proof {
            assert(self.key_bindings@.take(n as int) =~= self.key_bindings@);
        }
        if best < 3 {
            best + 3
        } else {
            6
        }
    }
}

/// The options of one search call.
pub struct SearchMediaOptions {
    pub keyword: String,
    pub page: u32,
}

/// The gateway's media API as the terminal addresses it.
pub struct MediaAPI {
    pub base_url: String,
}

impl MediaAPI {
    /// An API handle rooted at the given base URL.
    pub fn new(base_url: &str) -> (a: Self)
        ensures
            a.base_url@ == base_url@,
    {
        MediaAPI { base_url: base_url.to_owned() }
    }

    /// The search URL for the given options.
    pub fn search_url(&self, options: &SearchMediaOptions) -> (r: String)
        ensures
            r@ == self.base_url@ + "/api/v1/media/search?keyword="@ + options.keyword@ + "&page="@
                + dec_rep(options.page as nat),
    {
        let mut out = self.base_url.clone();
        out.append("/api/v1/media/search?keyword=");
        out.append(options.keyword.as_str());
        out.append("&page=");
        let p = u32_to_string(options.page);
        out.append(p.as_str());
        assert(out@ =~= self.base_url@ + "/api/v1/media/search?keyword="@ + options.keyword@
            + "&page="@ + dec_rep(options.page as nat));
        out
    }
}

/// The terminal's API surface.
pub struct API {
    pub media: MediaAPI,
}

impl API {
    /// The API surface rooted at the given base URL.
    pub fn new(base_url: &str) -> (a: Self)
        ensures
            a.media.base_url@ == base_url@,
    {
        API { media: MediaAPI::new(base_url) }
    }
}

} // verus!
