//! The request and response shapes of the service boundary.

use vstd::prelude::*;

verus! {

/// An empty response body.
pub struct Empty {}

/// The media metadata served to callers.
pub struct MediaMetadata {
    pub channel: String,
    pub id: String,
    pub name: String,
    pub poster_url: String,
    pub release_year: u32,
    pub description: String,
}

/// A request to start one media download.
pub struct DownloadMediaRequest {
    pub channel: String,
    pub media_id: String,
    pub number: Option<u32>,
}

/// Where a finished download landed.
pub struct DownloadMediaResponse {
    pub destination_path: String,
}

/// A request for one media item's metadata.
pub struct GetMediaMetadataRequest {
    pub channel: String,
    pub media_id: String,
}

/// A request to search a channel's catalogue.
pub struct SearchMediaRequest {
    pub channel: Option<String>,
    pub keyword: String,
    pub page: u32,
    pub page_size: u32,
}

/// One page of search results.
pub struct SearchMediaResponse {
    pub items: Vec<MediaMetadata>,
    pub total: u32,
    pub page: u32,
    pub page_size: u32,
}

/// A request to download a run of episodes.
pub struct BatchDownloadMediaRequest {
    pub channel: String,
    pub media_id: String,
    pub start_number: u32,
    pub count: u8,
}

/// The metadata of one scraped show.
pub struct TVShowMetadata {
    pub channel: String,
    pub id: String,
    pub name: String,
    pub year: u32,
    pub total_episodes: u32,
}

} // verus!
