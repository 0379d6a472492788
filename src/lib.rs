//! An edge gateway for an S3-compatible object store: it classifies raw HTTP
//! requests into protocol operations and buffers object writes in a local
//! write-ahead queue that is drained toward the remote store.

// Request classification.
pub mod bucket;
pub mod object;
pub mod ops;
pub mod request;
pub mod resources;
pub mod service;
mod uri;

// The write-ahead queue.
pub mod encoding;
pub mod flush;
pub mod write_queue;

// Dispatch, configuration and the command-line client.
pub mod cli;
pub mod conf;
pub mod daemon;
pub mod utils;

// Shared text helpers, and identifier helpers for the protocol model.
pub mod naming;
pub mod text;
