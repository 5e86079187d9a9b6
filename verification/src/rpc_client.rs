//! The pair of RPC client handles the gateway carries: one for the
//! channel service and one for the media service, both over one shared
//! transport.

use crate::pb::{ChannelClient, MediaClient};
use vstd::prelude::*;

verus! {

/// The gateway's client handles over one transport.
pub struct RpcClient<T> {
    pub channel: ChannelClient<T>,
    pub media: MediaClient<T>,
}

impl<T: Clone> RpcClient<T> {
    /// Builds both clients over the given transport. The media client
    /// takes a clone of the transport; the channel client takes the
    /// transport itself.
    pub fn new(channel: T) -> (r: Self)
        ensures
            r.channel.inner == channel,
            r.channel.origin is None,
            r.channel.accept_compression is None,
            r.channel.send_compression is None,
            r.channel.max_decoding_size is None,
            r.channel.max_encoding_size is None,
    {
        let media = MediaClient::new(channel.clone());
        let channel = ChannelClient::new(channel);
        RpcClient { channel, media }
    }
}

} // verus!
