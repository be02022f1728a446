//! Searches for a variant of a commit whose identifier starts with a chosen
//! hexadecimal prefix. The variant differs from the given commit only by a run of
//! blank-looking characters appended to the message.
//!
//! The library holds the search itself: the prefix matcher, the commit
//! serialiser, the nonce encoder, one worker's search loop and the
//! coordinator's decisions. Reading the repository, threads and printing are
//! left to the caller.

pub mod clock;
pub mod commit;
pub mod config;
pub mod consistency;
pub mod coordinator;
pub mod hex_codec;
pub mod nonce;
pub mod prefix;
pub mod search;
pub mod sha;
pub mod text;
