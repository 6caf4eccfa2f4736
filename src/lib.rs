//! Content-addressed asset storage: blobs are stored under the SHA-256 digest
//! of their content, manifests map each version's logical paths to blobs, and
//! streamed uploads are checked against their declared digest before they
//! are allowed to stand.

pub mod api;
pub mod auth;
pub mod digest;
pub mod error;
pub mod fs;
pub mod laws;
pub mod manifest;
pub mod memory;
pub mod operator;
pub mod pipeline;
pub mod s3;
pub mod steps;
pub mod server;
pub mod storage;
