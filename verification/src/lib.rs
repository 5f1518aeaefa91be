//! Verified core of a release-asset installer: platform-alias resolution,
//! asset selection, resumable-fetch decisions, archive-member bookkeeping,
//! binary-link decisions, and the install pipeline that sequences them.
//! All I/O (release lookup, download, extraction, linking) is performed by a
//! thin driver outside this crate, which feeds results back as plain values.

pub mod archive;
pub mod error;
pub mod fetch;
pub mod install;
pub mod link;
pub mod pipeline;
pub mod platform;
pub mod select;
pub mod text;
