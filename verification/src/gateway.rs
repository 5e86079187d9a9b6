//! The HTTP gateway's error taxonomy and request shaping. The routing,
//! middleware and wire handling stay in the excluded gateway process;
//! what is decided here is which status and message every failure maps
//! to, how a search query fills its defaults, and when a request body
//! counts as JSON.

use crate::configuration::Configuration;
use crate::protocol::SearchMediaRequest;
use crate::rpc_client;
use crate::text::has_substring;
use vstd::prelude::*;

verus! {

/// The JSON body every error response carries.
pub struct AppResponse {
    pub status: u16,
    pub message: String,
}

/// The gateway's error taxonomy.
pub enum AppError {
    InternalServerError(String),
    ProxyError(String),
    DatabaseError(String),
    ValidationError(String),
    NotFound(String),
    BadRequest(String),
    Unauthorized(String),
    UnsupportedMediaType(String),
    Forbidden,
}

impl AppError {
    /// A not-found error.
    pub fn not_found(message: &str) -> (e: Self)
        ensures
            e matches AppError::NotFound(m) && m@ == message@,
    {
        AppError::NotFound(message.to_owned())
    }

    /// A validation error.
    pub fn validation_error(message: &str) -> (e: Self)
        ensures
            e matches AppError::ValidationError(m) && m@ == message@,
    {
        AppError::ValidationError(message.to_owned())
    }

    /// A bad-request error.
    pub fn bad_request(message: &str) -> (e: Self)
        ensures
            e matches AppError::BadRequest(m) && m@ == message@,
    {
        AppError::BadRequest(message.to_owned())
    }

    /// An unauthorized error.
    pub fn unauthorized(message: &str) -> (e: Self)
        ensures
            e matches AppError::Unauthorized(m) && m@ == message@,
    {
        AppError::Unauthorized(message.to_owned())
    }

    /// A forbidden error.
    pub fn forbidden() -> (e: Self)
        ensures
            e is Forbidden,
    {
        AppError::Forbidden
    }

    /// An internal server error.
    pub fn internal_server_error(message: &str) -> (e: Self)
        ensures
            e matches AppError::InternalServerError(m) && m@ == message@,
    {
        AppError::InternalServerError(message.to_owned())
    }

    /// A database error.
    pub fn database_error(message: &str) -> (e: Self)
        ensures
            e matches AppError::DatabaseError(m) && m@ == message@,
    {
        AppError::DatabaseError(message.to_owned())
    }

    /// A proxy error.
    pub fn proxy_error(message: &str) -> (e: Self)
        ensures
            e matches AppError::ProxyError(m) && m@ == message@,
    {
        AppError::ProxyError(message.to_owned())
    }

    /// An unsupported-media-type error.
    pub fn unsupported_media_type(message: &str) -> (e: Self)
        ensures
            e matches AppError::UnsupportedMediaType(m) && m@ == message@,
    {
        AppError::UnsupportedMediaType(message.to_owned())
    }

    /// The status code and body this error answers with. Internal
    /// failures hide their detail behind a fixed message; client-side
    /// failures carry their message through.
    pub fn app_response(&self) -> (r: AppResponse)
        ensures
            *self is InternalServerError ==> r.status == 500 && r.message@
                == "Internal server error"@,
            *self is DatabaseError ==> r.status == 500 && r.message@ == "Database error"@,
            *self is ProxyError ==> r.status == 502 && r.message@ == "Bad gateway"@,
            self matches AppError::UnsupportedMediaType(m) ==> r.status == 415 && r.message@
                == m@,
            self matches AppError::NotFound(m) ==> r.status == 404 && r.message@ == m@,
            self matches AppError::BadRequest(m) ==> r.status == 400 && r.message@ == m@,
            self matches AppError::Unauthorized(m) ==> r.status == 401 && r.message@ == m@,
            *self is Forbidden ==> r.status == 403 && r.message@ == "Forbidden"@,
            self matches AppError::ValidationError(m) ==> r.status == 422 && r.message@ == m@,
    {
        match self {
            AppError::InternalServerError(_) => AppResponse {
                status: 500,
                message: String::from_str("Internal server error"),
            },
            AppError::DatabaseError(_) => AppResponse {
                status: 500,
                message: String::from_str("Database error"),
            },
            AppError::ProxyError(_) => AppResponse {
                status: 502,
                message: String::from_str("Bad gateway"),
            },
            AppError::UnsupportedMediaType(m) => AppResponse { status: 415, message: m.clone() },
            AppError::NotFound(m) => AppResponse { status: 404, message: m.clone() },
            AppError::BadRequest(m) => AppResponse { status: 400, message: m.clone() },
            AppError::Unauthorized(m) => AppResponse { status: 401, message: m.clone() },
            AppError::Forbidden => AppResponse {
                status: 403,
                message: String::from_str("Forbidden"),
            },
            AppError::ValidationError(m) => AppResponse { status: 422, message: m.clone() },
        }
    }
}

/// The status classes an RPC reply can come back with.
#[derive(Clone, Copy, PartialEq, Eq, Structural)]
pub enum RpcCode {
    NotFound,
    InvalidArgument,
    PermissionDenied,
    Unauthenticated,
    Internal,
    Other,
}

/// Maps one RPC failure to the gateway's taxonomy: unknown resources,
/// bad arguments, denied permissions and failed authentication keep
/// their class; everything else is an internal error.
pub fn app_error_from_rpc(code: RpcCode, message: &str) -> (e: AppError)
    ensures
        code is NotFound ==> (e matches AppError::NotFound(m) && m@ == message@),
        code is InvalidArgument ==> (e matches AppError::BadRequest(m) && m@ == message@),
        code is PermissionDenied ==> e is Forbidden,
        code is Unauthenticated ==> (e matches AppError::Unauthorized(m) && m@ == message@),
        code is Internal || code is Other ==> (e matches AppError::InternalServerError(m) && m@
            == message@),
{
    match code {
        RpcCode::NotFound => AppError::not_found(message),
        RpcCode::InvalidArgument => AppError::bad_request(message),
        RpcCode::PermissionDenied => AppError::forbidden(),
        RpcCode::Unauthenticated => AppError::unauthorized(message),
        RpcCode::Internal => AppError::internal_server_error(message),
        RpcCode::Other => AppError::internal_server_error(message),
    }
}

/// A JSON request body, already decoded to its value.
pub struct JsonBody<T>(pub T);

/// Whether a content-type header names JSON: the decoder runs only then;
/// anything else is answered as an unsupported media type.
pub fn is_json_content_type(content_type: &str) -> (r: bool)
    ensures
        r == has_substring(content_type@, "application/json"@),
{
    crate::text::contains_substring(content_type, "application/json")
}

/// The search query as it arrives on the wire, page and size optional.
pub struct SearchMediaQuery {
    pub channel: Option<String>,
    pub keyword: String,
    pub page: Option<u32>,
    pub page_size: Option<u32>,
}

impl SearchMediaQuery {
    /// Fills the query's defaults: the first page, twenty items a page.
    pub fn into_request(self) -> (r: SearchMediaRequest)
        ensures
            r.channel == self.channel,
            r.keyword == self.keyword,
            self.page matches Some(p) ==> r.page == p,
            self.page is None ==> r.page == 1,
            self.page_size matches Some(s) ==> r.page_size == s,
            self.page_size is None ==> r.page_size == 20,
    {
        let page = match self.page {
            Option::Some(p) => p,
            Option::None => 1,
        };
        let page_size = match self.page_size {
            Option::Some(s) => s,
            Option::None => 20,
        };
        SearchMediaRequest { channel: self.channel, keyword: self.keyword, page, page_size }
    }
}

/// The RPC client handle as the request extractor hands it to a
/// handler.
pub struct RpcClient<T>(pub rpc_client::RpcClient<T>);

/// The gateway process: its RPC client and its configuration.
pub struct Gateway<T> {
    pub client: rpc_client::RpcClient<T>,
    pub config: Configuration,
}

impl<T> Gateway<T> {
    /// A gateway over the given client and configuration.
    pub fn new(client: rpc_client::RpcClient<T>, config: Configuration) -> (g: Self)
        ensures
            g.client == client,
            g.config == config,
    {
        Gateway { client, config }
    }
}

/// The state every request handler sees.
pub struct AppState<T> {
    pub rpc_client: rpc_client::RpcClient<T>,
    pub config: Configuration,
}

impl<T> AppState<T> {
    /// The handler state over the given client and configuration.
    pub fn new(rpc_client: rpc_client::RpcClient<T>, config: Configuration) -> (s: Self)
        ensures
            s.rpc_client == rpc_client,
            s.config == config,
    {
        AppState { rpc_client, config }
    }
}

} // verus!
