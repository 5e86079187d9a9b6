//! The channel registry: one adapter per configured source, looked up by
//! channel name, with a configured default standing in for requests that
//! name none.

use crate::configuration::Configuration;
use crate::errors::{ErrorView, MediaError};
use crate::text::dec_rep;
use crate::unified::UnifiedMediaService;
use crate::xiaobao::XiaobaoTV;
use vstd::prelude::*;

verus! {

/// Where finished downloads land.
pub const DOWNLOAD_DESTINATION_DIR: &'static str = "/downloads";

/// The options of one download request after the registry has resolved
/// its file name.
pub struct DownloadMediaOptions {
    pub media_id: String,
    pub number: Option<u32>,
    pub destination_path: String,
}

/// The capability every channel adapter offers. The network halves of
/// the calls run in the shell; what the trait pins down here is the
/// adapter's identity.
pub trait MediaChannelExt {
    /// The channel name this adapter serves.
    spec fn name_rep(&self) -> Seq<char>;

    /// The channel name this adapter serves.
    fn channel_name(&self) -> (n: String)
        ensures
            n@ == self.name_rep(),
    ;
}

impl MediaChannelExt for UnifiedMediaService {
    open spec fn name_rep(&self) -> Seq<char> {
        self.name()
    }

    fn channel_name(&self) -> (n: String) {
        UnifiedMediaService::channel_name(self)
    }
}

impl MediaChannelExt for XiaobaoTV {
    open spec fn name_rep(&self) -> Seq<char> {
        "xiaobao"@
    }

    fn channel_name(&self) -> (n: String) {
        String::from_str(XiaobaoTV::channel_name(self))
    }
}

/// One registered adapter.
pub enum ChannelAdapter {
    Unified(UnifiedMediaService),
    Scrape(XiaobaoTV),
}

impl MediaChannelExt for ChannelAdapter {
    open spec fn name_rep(&self) -> Seq<char> {
        match self {
            ChannelAdapter::Unified(s) => s.name_rep(),
            ChannelAdapter::Scrape(s) => s.name_rep(),
        }
    }

    fn channel_name(&self) -> (n: String) {
        match self {
            ChannelAdapter::Unified(s) => MediaChannelExt::channel_name(s),
            ChannelAdapter::Scrape(s) => MediaChannelExt::channel_name(s),
        }
    }
}

/// The index of the first registered channel with the given name, if
/// any.
pub open spec fn channel_lookup(cs: Seq<(String, ChannelAdapter)>, name: Seq<char>) -> Option<
    int,
>
    decreases cs.len(),
{
    if cs.len() == 0 {
        None
    } else if cs[0].0@ == name {
        Some(0)
    } else {
        match channel_lookup(cs.drop_first(), name) {
            Some(i) => Some(i + 1),
            None => None,
        }
    }
}

proof fn lemma_channel_lookup_at(cs: Seq<(String, ChannelAdapter)>, name: Seq<char>, i: int)
    requires
        0 <= i < cs.len(),
        cs[i].0@ == name,
        forall|j: int| 0 <= j < i ==> (#[trigger] cs[j].0)@ != name,
    ensures
        channel_lookup(cs, name) == Some(i),
    decreases cs.len(),
{
    if cs[0].0@ != name {
        assert(cs.drop_first()[i - 1] == cs[i]);
        assert(forall|j: int| 0 <= j < i - 1 ==> #[trigger] cs.drop_first()[j] == cs[j + 1]);
        lemma_channel_lookup_at(cs.drop_first(), name, i - 1);
    }
}

proof fn lemma_channel_lookup_none(cs: Seq<(String, ChannelAdapter)>, name: Seq<char>)
    requires
        forall|j: int| 0 <= j < cs.len() ==> (#[trigger] cs[j].0)@ != name,
    ensures
        channel_lookup(cs, name) is None,
    decreases cs.len(),
{
    if cs.len() > 0 {
        assert(forall|j: int|
            0 <= j < cs.drop_first().len() ==> #[trigger] cs.drop_first()[j] == cs[j + 1]);
        lemma_channel_lookup_none(cs.drop_first(), name);
    }
}

/// The registry of channel adapters, the configured default, and where
/// downloads land.
pub struct ChannelService {
    channels: Vec<(String, ChannelAdapter)>,
    pub default_channel: String,
    pub destination_dir: String,
}

impl ChannelService {
    /// The registered channels, in registration order.
    pub closed spec fn channels(&self) -> Seq<(String, ChannelAdapter)> {
        self.channels@
    }

    /// The configured default channel name.
    pub closed spec fn default_channel_rep(&self) -> Seq<char> {
        self.default_channel@
    }

    /// Where finished downloads land.
    pub closed spec fn destination_dir_rep(&self) -> Seq<char> {
        self.destination_dir@
    }

    /// Builds the registry from the configuration: one templated-CMS
    /// adapter per configured site, under that site's channel name, and
    /// the configured default channel. Downloads land in the preset
    /// destination directory.
    pub fn new(config: &Configuration) -> (s: Self)
        ensures
            s.channels().len() == config.unified_channels@.len(),
            forall|i: int|
                0 <= i < config.unified_channels@.len() ==> {
                    &&& (#[trigger] s.channels()[i]).0@ == config.unified_channels@[i].0@
                    &&& s.channels()[i].1 matches ChannelAdapter::Unified(u)
                    &&& u.name() == config.unified_channels@[i].0@
                    &&& u.endpoint().base_url@ == config.unified_channels@[i].1.base_url@
                    &&& u.cached_taxonomy() is None
                },
            s.default_channel_rep() == config.default_channel@,
            s.destination_dir_rep() == DOWNLOAD_DESTINATION_DIR@,
    {
        let mut channels: Vec<(String, ChannelAdapter)> = Vec::new();
        let n = config.unified_channels.len();
        let mut i: usize = 0;
        while i < n
            invariant
                n == config.unified_channels@.len(),
                0 <= i <= n,
                channels@.len() == i,
                forall|j: int|
                    0 <= j < i ==> {
                        &&& (#[trigger] channels@[j]).0@ == config.unified_channels@[j].0@
                        &&& channels@[j].1 matches ChannelAdapter::Unified(u)
                        &&& u.name() == config.unified_channels@[j].0@
                        &&& u.endpoint().base_url@ == config.unified_channels@[j].1.base_url@
                        &&& u.cached_taxonomy() is None
                    },
            decreases n - i,
        {
            let entry = &config.unified_channels[i];
            let adapter = UnifiedMediaService::new(entry.0.as_str(), entry.1.base_url.as_str());
            channels.push((entry.0.clone(), ChannelAdapter::Unified(adapter)));
            i = i + 1;
        }
        ChannelService {
            channels,
            default_channel: config.default_channel.clone(),
            destination_dir: String::from_str(DOWNLOAD_DESTINATION_DIR),
        }
    }

    /// Looks an adapter up by channel name. An unregistered name is a
    /// not-found error whose message names the channel.
    pub fn get_channel_by_name(&self, name: &str) -> (r: Result<&ChannelAdapter, MediaError>)
        ensures
            r is Ok <==> channel_lookup(self.channels(), name@) is Some,
            r matches Ok(a) ==> (channel_lookup(self.channels(), name@) matches Some(i) && *a
                == self.channels()[i].1),
            r matches Err(e) ==> (e@ matches ErrorView::NotFound { message: m } && m
                == "No channel '"@ + name@ + "' found."@),
    {
        let n = self.channels.len();
        let mut i: usize = 0;
        while i < n
            invariant
                n == self.channels@.len(),
                0 <= i <= n,
                forall|j: int| 0 <= j < i ==> (#[trigger] self.channels@[j].0)@ != name@,
            decreases n - i,
        {
            if crate::text::str_eq(self.channels[i].0.as_str(), name) {
                proof {
                    lemma_channel_lookup_at(self.channels@, name@, i as int);
                }
                return Ok(&self.channels[i].1);
            }
            i = i + 1;
        }
        proof {
            lemma_channel_lookup_none(self.channels@, name@);
        }
        let mut msg = String::from_str("No channel '");
        msg.append(name);
        msg.append("' found.");
        assert(msg@ =~= "No channel '"@ + name@ + "' found."@);
        Err(MediaError::NotFoundError { message: msg })
    }

    /// The channel a request addresses: the one it names, or the
    /// configured default when it names none.
    pub fn requested_channel(&self, requested: &Option<String>) -> (r: String)
        ensures
            requested matches Some(c) ==> r@ == c@,
            requested is None ==> r@ == self.default_channel_rep(),
    {
        match requested {
            Option::Some(c) => c.clone(),
            Option::None => self.default_channel.clone(),
        }
    }
}

/// The file name one download lands under: the media id and the episode
/// number (one when absent), in the final container.
pub fn download_file_name(media_id: &str, number: Option<u32>) -> (r: String)
    ensures
        r@ == media_id@ + "-"@ + dec_rep(
            (match number {
                Some(k) => k,
                None => 1u32,
            }) as nat,
        ) + ".mp4"@,
{
    let k: u32 = match number {
        Option::Some(k) => k,
        Option::None => 1,
    };
    let mut out = media_id.to_owned();
    out.append("-");
    let ks = crate::text::u32_to_string(k);
    out.append(ks.as_str());
    out.append(".mp4");
    assert(out@ =~= media_id@ + "-"@ + dec_rep(k as nat) + ".mp4"@);
    out
}

} // verus!
