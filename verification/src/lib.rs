//! Static-site core for a single-page personal profile.
//!
//! The library turns a small content model (site identity, grouped outbound
//! links) into one self-contained HTML document carrying three parallel
//! semantic encodings: JSON-LD structured data, Microformats2 classes and
//! Schema.org microdata. Every renderer is a pure function from content-model
//! values to a markup string, with its output pinned down by a contract.

pub mod app;
pub mod cli;
pub mod config;
pub mod escape;
pub mod head;
pub mod link_list;
pub mod model;
pub mod profile_card;
pub mod roundtrip;
pub mod substring;

pub use app::App;
