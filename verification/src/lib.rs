//! Composable archiving pipeline: chunked authenticated encryption, compression
//! and signing layered over byte sinks and sources.
pub mod cli;
pub mod compression;
pub mod directory;
pub mod encryption;
pub mod error;
pub mod internal;
pub mod password;
pub mod pipeline;
pub mod signing;
pub mod stream;
pub mod util;
