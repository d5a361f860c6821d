use vstd::prelude::*;

verus! {

/// A piece of media on the source platform: where it lives, and its type as announced.
#[derive(Clone, Debug)]
pub struct MediaRef {
    pub url: String,
    pub mime: String,
}

/// Platform-agnostic content of a fetched post: its text and its media, in order.
#[derive(Clone, Debug)]
pub struct NormalizedPost {
    pub body: String,
    pub media: Vec<MediaRef>,
}

/// Reference to media uploaded to the home platform.
#[derive(Clone, Debug)]
pub struct MediaHandle {
    pub id: String,
}

/// Reference to a post created on the home platform.
#[derive(Clone, Debug)]
pub struct PostRef {
    pub uri: String,
}

/// Why fetching a source post failed.
#[derive(Clone, Copy, Debug, PartialEq, Eq, Structural)]
pub enum FetchError {
    AuthFailure,
    NotFound,
    RateLimited,
    Transport,
    ParseFailure,
}

/// Why publishing on the home platform failed.
#[derive(Clone, Copy, Debug, PartialEq, Eq, Structural)]
pub enum PublishError {
    Rejected,
    Transport,
}

/// The error kind that an HTTP status of a read endpoint stands for; `None` for success.
pub open spec fn status_error_spec(status: u16) -> Option<FetchError> {
    if 200 <= status < 300 {
        None
    } else if status == 401 || status == 403 {
        Some(FetchError::AuthFailure)
    } else if status == 404 || status == 410 {
        Some(FetchError::NotFound)
    } else if status == 429 {
        Some(FetchError::RateLimited)
    } else {
        Some(FetchError::Transport)
    }
}

/// Maps an HTTP status of a source platform's read endpoint to a fetch error.
pub fn status_error(status: u16) -> (r: Option<FetchError>)
    ensures
        r == status_error_spec(status),
{
    if 200 <= status && status < 300 {
        None
    } else if status == 401 || status == 403 {
        Some(FetchError::AuthFailure)
    } else if status == 404 || status == 410 {
        Some(FetchError::NotFound)
    } else if status == 429 {
        Some(FetchError::RateLimited)
    } else {
        Some(FetchError::Transport)
    }
}

} // verus!
