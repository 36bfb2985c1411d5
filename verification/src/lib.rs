//! Resolution of a pipe reference: deciding whether the reference is a URL or
//! a local path, turning a GitHub page URL into the raw-content URL behind it,
//! admitting only the raw-content host, and choosing the extension under which
//! the downloaded script is stored.
//!
//! Nothing here touches the network or the disk. The functions decide; the
//! program around them fetches and writes, and hands back what it got.

pub mod error;
pub mod parsed;
pub mod normalize;
pub mod extension;
pub mod fetch;
pub mod classify;
