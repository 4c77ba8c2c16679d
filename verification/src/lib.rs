//! A read-only virtual filesystem over a remote user-profile service.
//!
//! Every filesystem entry has a semantic identity, a [`codec::Resource`],
//! carried across the callback boundary as a 64-bit handle. Profile data is
//! fetched lazily, cached for the lifetime of the filesystem, and rendered
//! into small text files. The four callback operations (name resolution,
//! attribute query, file read, directory listing) are answered purely from
//! the cached state; the caller performs the remote fetches the library asks
//! for and hands the results back.

pub mod codec;
pub mod numfmt;
pub mod profile;
pub mod registry;
pub mod render;
pub mod responder;
