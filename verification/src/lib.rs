//! Reconstruction of playlist-mutation events from the commit history of an
//! append-only audit-log repository, and shaping of those events into rows
//! for three analytical warehouse tables.
//!
//! The verified core covers the commit-message classifier, the playlist
//! snapshot parser, the playlist differ, the event reconstructor, and the row
//! shaper. Network I/O (listing commits, fetching file contents, inserting
//! rows) lives outside the library and hands it plain values.

pub mod classify;
pub mod commit;
pub mod differ;
pub mod playlist;
pub mod reconstruct;
pub mod rows;
pub mod snapshot;
pub mod strutil;
