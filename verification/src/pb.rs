//! Client and server handles of the media RPC boundary: the transport
//! configuration each side carries. The wire plumbing itself stays in
//! the excluded gateway layer; what is modelled here is the
//! configuration the handles accumulate.

use vstd::prelude::*;

verus! {

/// A compression codec a handle may accept or send.
#[derive(Clone, Copy, PartialEq, Eq, Structural, Debug)]
pub enum CompressionEncoding {
    Gzip,
    Zstd,
}

/// A client handle over some transport, with its accumulated transport
/// configuration.
pub struct ChannelClient<T> {
    pub inner: T,
    pub origin: Option<String>,
    pub accept_compression: Option<CompressionEncoding>,
    pub send_compression: Option<CompressionEncoding>,
    pub max_decoding_size: Option<usize>,
    pub max_encoding_size: Option<usize>,
}

impl<T> ChannelClient<T> {
    /// A fresh client over the given transport, with default
    /// configuration.
    pub fn new(inner: T) -> (c: Self)
        ensures
            c.inner == inner,
            c.origin is None,
            c.accept_compression is None,
            c.send_compression is None,
            c.max_decoding_size is None,
            c.max_encoding_size is None,
    {
        ChannelClient {
            inner,
            origin: None,
            accept_compression: None,
            send_compression: None,
            max_decoding_size: None,
            max_encoding_size: None,
        }
    }

    /// A fresh client addressing the given origin.
    pub fn with_origin(inner: T, origin: String) -> (c: Self)
        ensures
            c.inner == inner,
            c.origin == Some(origin),
            c.accept_compression is None,
            c.send_compression is None,
            c.max_decoding_size is None,
            c.max_encoding_size is None,
    {
        ChannelClient {
            inner,
            origin: Some(origin),
            accept_compression: None,
            send_compression: None,
            max_decoding_size: None,
            max_encoding_size: None,
        }
    }

    /// Compresses requests with the given encoding.
    pub fn send_compressed(self, encoding: CompressionEncoding) -> (c: Self)
        ensures
            c.send_compression == Some(encoding),
            c.inner == self.inner,
            c.origin == self.origin,
            c.accept_compression == self.accept_compression,
            c.max_decoding_size == self.max_decoding_size,
            c.max_encoding_size == self.max_encoding_size,
    {
        ChannelClient { send_compression: Some(encoding), ..self }
    }

    /// Accepts responses compressed with the given encoding.
    pub fn accept_compressed(self, encoding: CompressionEncoding) -> (c: Self)
        ensures
            c.accept_compression == Some(encoding),
            c.inner == self.inner,
            c.origin == self.origin,
            c.send_compression == self.send_compression,
            c.max_decoding_size == self.max_decoding_size,
            c.max_encoding_size == self.max_encoding_size,
    {
        ChannelClient { accept_compression: Some(encoding), ..self }
    }

    /// Limits the size of a decoded response message.
    pub fn max_decoding_message_size(self, limit: usize) -> (c: Self)
        ensures
            c.max_decoding_size == Some(limit),
            c.inner == self.inner,
            c.origin == self.origin,
            c.accept_compression == self.accept_compression,
            c.send_compression == self.send_compression,
            c.max_encoding_size == self.max_encoding_size,
    {
        ChannelClient { max_decoding_size: Some(limit), ..self }
    }

    /// Limits the size of an encoded request message.
    pub fn max_encoding_message_size(self, limit: usize) -> (c: Self)
        ensures
            c.max_encoding_size == Some(limit),
            c.inner == self.inner,
            c.origin == self.origin,
            c.accept_compression == self.accept_compression,
            c.send_compression == self.send_compression,
            c.max_decoding_size == self.max_decoding_size,
    {
        ChannelClient { max_encoding_size: Some(limit), ..self }
    }
}

/// A client handle of the media service, configured the same way.
pub struct MediaClient<T> {
    pub inner: T,
}

impl<T> MediaClient<T> {
    /// A fresh media client over the given transport.
    pub fn new(inner: T) -> (c: Self)
        ensures
            c.inner == inner,
    {
        MediaClient { inner }
    }
}

/// A server handle wrapping one service implementation, with its
/// accumulated transport configuration.
pub struct ChannelServer<T> {
    pub inner: std::sync::Arc<T>,
    pub accept_compression: Option<CompressionEncoding>,
    pub send_compression: Option<CompressionEncoding>,
    pub max_decoding_size: Option<usize>,
    pub max_encoding_size: Option<usize>,
}

/// A service wrapped together with a request interceptor.
pub struct InterceptedService<S, F> {
    pub service: S,
    pub interceptor: F,
}

impl<T> ChannelServer<T> {
    /// A fresh server around the given service implementation.
    pub fn new(inner: T) -> (s: Self)
        ensures
            s.accept_compression is None,
            s.send_compression is None,
            s.max_decoding_size is None,
            s.max_encoding_size is None,
    {
        Self::from_arc(std::sync::Arc::new(inner))
    }

    /// A fresh server around an already shared service implementation.
    pub fn from_arc(inner: std::sync::Arc<T>) -> (s: Self)
        ensures
            s.inner == inner,
            s.accept_compression is None,
            s.send_compression is None,
            s.max_decoding_size is None,
            s.max_encoding_size is None,
    {
        ChannelServer {
            inner,
            accept_compression: None,
            send_compression: None,
            max_decoding_size: None,
            max_encoding_size: None,
        }
    }

    /// Wraps a fresh server together with a request interceptor.
    pub fn with_interceptor<F>(inner: T, interceptor: F) -> (r: InterceptedService<Self, F>)
        ensures
            r.service.accept_compression is None,
            r.service.send_compression is None,
            r.service.max_decoding_size is None,
            r.service.max_encoding_size is None,
            r.interceptor == interceptor,
    {
        InterceptedService { service: Self::new(inner), interceptor }
    }

    /// Accepts requests compressed with the given encoding.
    pub fn accept_compressed(self, encoding: CompressionEncoding) -> (s: Self)
        ensures
            s.accept_compression == Some(encoding),
            s.inner == self.inner,
            s.send_compression == self.send_compression,
            s.max_decoding_size == self.max_decoding_size,
            s.max_encoding_size == self.max_encoding_size,
    {
        ChannelServer { accept_compression: Some(encoding), ..self }
    }

    /// Compresses responses with the given encoding.
    pub fn send_compressed(self, encoding: CompressionEncoding) -> (s: Self)
        ensures
            s.send_compression == Some(encoding),
            s.inner == self.inner,
            s.accept_compression == self.accept_compression,
            s.max_decoding_size == self.max_decoding_size,
            s.max_encoding_size == self.max_encoding_size,
    {
        ChannelServer { send_compression: Some(encoding), ..self }
    }

    /// Limits the size of a decoded request message.
    pub fn max_decoding_message_size(self, limit: usize) -> (s: Self)
        ensures
            s.max_decoding_size == Some(limit),
            s.inner == self.inner,
            s.accept_compression == self.accept_compression,
            s.send_compression == self.send_compression,
            s.max_encoding_size == self.max_encoding_size,
    {
        ChannelServer { max_decoding_size: Some(limit), ..self }
    }

    /// Limits the size of an encoded response message.
    pub fn max_encoding_message_size(self, limit: usize) -> (s: Self)
        ensures
            s.max_encoding_size == Some(limit),
            s.inner == self.inner,
            s.accept_compression == self.accept_compression,
            s.send_compression == self.send_compression,
            s.max_decoding_size == self.max_decoding_size,
    {
        ChannelServer { max_encoding_size: Some(limit), ..self }
    }
}

} // verus!
