//! Client-side logic of a theme-sharing service: building the request each
//! server operation sends, reading the status code it answers with, keeping
//! the signed-in session and the per-theme metadata on disk, and driving the
//! download and upload pipelines step by step.  Everything that decides is
//! here and verified; the surrounding binary only moves bytes between this
//! crate, the network, the console and the filesystem.

pub mod bytes;
pub mod status;
pub mod outcomes;
pub mod session;
pub mod request;
pub mod metadata;
pub mod download;
pub mod upload;
pub mod ops;
pub mod archive;
