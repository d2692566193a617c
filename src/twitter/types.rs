//! What the platform sends and receives.
use vstd::prelude::*;

verus! {

/// The authenticated user.
pub struct MeUser {
    pub id: String,
    pub username: String,
}

/// The envelope around the platform's payloads.
pub struct BaseResponse<T> {
    pub data: T,
}

/// A post of the timeline: its id and when it was created, in seconds since
/// the epoch.
pub struct Tweet {
    pub id: String,
    pub created_at: i64,
}

/// The answer to the INIT phase of the media upload.
pub struct InitMediaResponse {
    pub media_id: String,
    pub expires_after_secs: u64,
}

/// The body of a post creation.
pub struct TweetRequest {
    pub text: String,
    pub media: TweetMedia,
}

/// The media a post refers to.
pub struct TweetMedia {
    pub media_ids: Vec<String>,
}

/// The created post.
pub struct TweetResponse {
    pub id: String,
}

} // verus!
