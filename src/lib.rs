//! Retrieval and reassembly of HTTP Live Streaming assets: playlist
//! resolution, key resolution, segment decoding, retry and dispatch
//! decisions, and ordered reassembly of the segment payloads.

pub mod naming;
pub mod error;
pub mod urls;
pub mod playlist;
pub mod keys;
pub mod assembly;
pub mod retry;
pub mod window;
pub mod backend;
pub mod options;
pub mod workdir;
