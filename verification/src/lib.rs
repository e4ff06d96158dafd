//! Weather-data aggregation and narrative generation.
//!
//! The library geocodes a place name, fetches forecast data from a public
//! weather API, assembles the results into one normalized snapshot (a
//! `FeaturePack`), and produces either raw data or a structured "weather
//! story" narrative, with a deterministic synthetic fallback for offline
//! use. A TTL-keyed persistent cache fronts the network calls, and user
//! profiles carry preferences. HTTP and terminal I/O live outside the
//! library; everything here is plain logic over plain values.

use vstd::prelude::*;

pub mod api;
pub mod cache;
pub mod clock;
pub mod config;
pub mod coords;
pub mod errors;
pub mod fetchers;
pub mod json;
pub mod profile;
pub mod story;
pub mod text;

verus! {

} // verus!
