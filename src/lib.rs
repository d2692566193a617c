//! Hourly capybara poster: the decisions of the posting pipeline, verified.
//!
//! The library computes the cooldown before the first post, checks the image
//! service's content type, builds every request sent to the platform, and
//! drives one posting cycle (fetch, three-phase media upload, post) as a
//! state machine. The caller performs the network calls and hands back what
//! came of them.
use vstd::prelude::*;

pub mod capylol;
pub mod cycle;
pub mod error;
pub mod http;
pub mod media;
pub mod schedule;
pub mod twitter;

verus! {

/// Seconds between two posts: both the cooldown after the last post and the
/// period of the posting clock.
pub const POST_INTERVAL_SECS: i64 = 3600;

} // verus!
