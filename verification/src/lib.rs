//! Core of a segmented (multi-connection) HTTP file downloader.
//!
//! The engine plans a transfer (resolving the output name, the effective
//! worker count and the byte ranges of the chunk workers), tracks shared
//! progress state, models the single-writer file actor that serializes
//! offset writes into one output file, and drives the per-chunk retry and
//! resume protocol.  The surrounding process performs the actual network
//! and filesystem calls and feeds their outcomes to the decision functions
//! defined here.

pub mod error;
pub mod file_save;
pub mod numparse;
pub mod pathutil;
pub mod plan;
pub mod session;
pub mod status;
pub mod urlname;
pub mod worker;
