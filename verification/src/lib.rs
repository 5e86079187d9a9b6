//! A media acquisition engine: it resolves a playable URL out of a tree of
//! HLS manifests, schedules bounded-concurrency segment downloads, drives an
//! external remux step, and broadcasts live progress to any number of
//! independent observers.
//!
//! The decision logic is verified; network transfers, process spawning and
//! the async runtime live in a thin shell around this crate.

pub mod channel_service;
pub mod configuration;
pub mod downloader;
pub mod errors;
pub mod gateway;
pub mod media_service;
pub mod models;
pub mod playlist;
pub mod pb;
pub mod progress;
pub mod protocol;
pub mod remux;
pub mod rpc_client;
pub mod stream;
pub mod terminal;
pub mod text;
pub mod unified;
pub mod xiaobao;
