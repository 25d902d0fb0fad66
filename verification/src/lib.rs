//! Client-side core of an artifact repository: resolves artifact identifiers
//! to repository URLs, models the streaming download and upload protocols, and
//! renders transfer progress.
pub mod checksum;
pub mod client;
pub mod errors;
pub mod ident;
pub mod progress;
pub mod strutil;
pub mod transfer;
pub mod urls;
