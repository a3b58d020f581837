//! Verified core of a tool that enriches numerically named audio files with
//! metadata fetched from a remote lookup service, and that can wipe it again.
//!
//! Everything that touches the file system, the network or the tag codec's
//! on-disk format lives outside this library; the library decides which files
//! need work, what each lookup outcome means, what the merged tag is, and how
//! a run is summarised.
pub mod classify;
pub mod ingest;
pub mod tag;
pub mod text;
pub mod track;
pub mod wipe;
