//! Orchestration of a decode-and-count media pipeline.
//!
//! The crate holds the decisions of a tool that reads one media file, links
//! the first video stream it discovers to a frame-counting sink and watches
//! the status channel until the run ends. The media runtime itself stays
//! outside: callers hand its notifications in as plain values and carry the
//! returned actions out.

pub mod caps;
pub mod controller;
pub mod error;
pub mod graph;
pub mod lifecycle;
pub mod linking;
pub mod model;
pub mod sink;
pub mod state;
pub mod text;

