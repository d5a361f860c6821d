use vstd::prelude::*;
use crate::link::{extract, extracted_as, has_no_url};
use crate::model::{FetchError, MediaHandle, MediaRef, NormalizedPost, PostRef, PublishError};
use crate::platform::{
    host_end, host_start, no_post_id_in, platform_of_host, post_id_in, resolve, Platform,
};
use crate::upload::{UploadCause, UploadError, UploadJob};

verus! {

/// Why a qualifying mention was passed over before anything was fetched.
#[derive(Clone, Copy, Debug, PartialEq, Eq, Structural)]
pub enum SkipReason {
    NoLink,
    UnknownPlatform,
    NoPostId,
}

/// How the handling of one mention ended.
#[derive(Clone, Debug)]
pub enum Outcome {
    Published(PostRef),
    Skipped(SkipReason),
    FetchFailed(FetchError),
    UploadFailed(UploadError),
    PublishFailed(PublishError),
}

impl Outcome {
    /// A rate limit on the source platform ends the current cycle.
    pub fn stops_cycle(&self) -> (r: bool)
        ensures
            r == (self matches Outcome::FetchFailed(FetchError::RateLimited)),
    {
        match self {
            Outcome::FetchFailed(FetchError::RateLimited) => true,
            _ => false,
        }
    }
}

/// Where the relay of one mention stands. Each state but `Done` names the
/// outside work to do next; its result is handed back to the matching method.
pub enum Relay {
    /// Fetch this post from the source platform.
    Fetching { platform: Platform, post_id: String },
    /// Carry the job's next media item over to the home platform.
    Uploading { body: String, job: UploadJob },
    /// Create the post on the home platform.
    Publishing { body: String, media: Vec<MediaHandle> },
    Done(Outcome),
}

/// What the relay starts from, for a mention whose link is `u` and whose host ends at `e`.
pub open spec fn started_from_link(u: Seq<char>, e: int, r: Relay) -> bool {
    let p = platform_of_host(u.subrange(host_start(u), e));
    if p == Platform::Unknown {
        r == Relay::Done(Outcome::Skipped(SkipReason::UnknownPlatform))
    } else if no_post_id_in(u, e) {
        r == Relay::Done(Outcome::Skipped(SkipReason::NoPostId))
    } else {
        r matches Relay::Fetching { platform, post_id } && platform == p && post_id_in(
            u,
            e,
            post_id@,
        )
    }
}

/// What the relay starts from, for a mention with text `t`.
pub open spec fn started_from_text(t: Seq<char>, r: Relay) -> bool {
    if has_no_url(t) {
        r == Relay::Done(Outcome::Skipped(SkipReason::NoLink))
    } else {
        exists|u: Seq<char>, e: int|
            extracted_as(t, u) && #[trigger] host_end(u, host_start(u), e) && started_from_link(
                u,
                e,
                r,
            )
    }
}

impl Relay {
    /// An upload in progress always has an item left.
    pub open spec fn wf(&self) -> bool {
        self matches Relay::Uploading { job, .. } ==> job.wf() && !job.is_done()
    }

    /// Starts relaying a mention's text: takes out its link, classifies it and
    /// names the post to fetch, or ends at once with the reason to skip.
    pub fn start(text: &str) -> (r: Relay)
        ensures
            r.wf(),
            started_from_text(text@, r),
    {
        match extract(text) {
            None => Relay::Done(Outcome::Skipped(SkipReason::NoLink)),
            Some(u) => {
                let (p, id) = resolve(u.as_str());
                let ghost e = choose|e: int|
                    #[trigger] host_end(u@, host_start(u@), e) && crate::platform::resolved_as(
                        u@,
                        e,
                        (p, id),
                    );
                let r = if p == Platform::Unknown {
                    Relay::Done(Outcome::Skipped(SkipReason::UnknownPlatform))
                } else {
                    match id {
                        None => Relay::Done(Outcome::Skipped(SkipReason::NoPostId)),
                        Some(post_id) => Relay::Fetching { platform: p, post_id },
                    }
                };
                assert(started_from_link(u@, e, r));
                r
            },
        }
    }

    /// Takes the result of fetching the post.
    pub fn on_fetched(self, fetched: Result<NormalizedPost, FetchError>) -> (r: Relay)
        requires
            self is Fetching,
        ensures
            r.wf(),
            match fetched {
                Err(e) => r == Relay::Done(Outcome::FetchFailed(e)),
                Ok(post) => if post.media@.len() == 0 {
                    r matches Relay::Publishing { body, media } && body == post.body
                        && media@.len() == 0
                } else {
                    r matches Relay::Uploading { body, job } && body == post.body && job.refs()
                        == post.media@ && job.handles().len() == 0 && job.failure() is None
                },
            },
    {
        match fetched {
            Err(e) => Relay::Done(Outcome::FetchFailed(e)),
            Ok(post) => {
                if post.media.len() == 0 {
                    Relay::Publishing { body: post.body, media: Vec::new() }
                } else {
                    Relay::Uploading { body: post.body, job: UploadJob::new(post.media) }
                }
            },
        }
    }

    /// The media item to carry over next, with its position, while uploading.
    pub fn pending_media(&self) -> (r: Option<(usize, &MediaRef)>)
        requires
            self.wf(),
        ensures
            match self {
                Relay::Uploading { job, .. } => r matches Some(p) && p.0 == job.handles().len()
                    && *p.1 == job.refs()[p.0 as int],
                _ => r is None,
            },
    {
        match self {
            Relay::Uploading { job, .. } => job.next_ref(),
            _ => None,
        }
    }

    /// Takes what came of carrying the pending media item over. The first
    /// failure ends the relay; the last handle moves it on to publishing.
    pub fn on_transferred(self, outcome: Result<MediaHandle, UploadCause>) -> (r: Relay)
        requires
            self.wf(),
            self is Uploading,
        ensures
            r.wf(),
            match self {
                Relay::Uploading { body, job } => match outcome {
                    Err(c) => r == Relay::Done(
                        Outcome::UploadFailed(
                            UploadError { index: job.handles().len() as usize, cause: c },
                        ),
                    ),
                    Ok(h) => if job.handles().len() + 1 == job.refs().len() {
                        r matches Relay::Publishing { body: b, media } && b == body && media@
                            == job.handles().push(h)
                    } else {
                        r matches Relay::Uploading { body: b, job: j } && b == body && j.refs()
                            == job.refs() && j.handles() == job.handles().push(h)
                            && j.failure() is None
                    },
                },
                _ => false,
            },
    {
        match self {
            Relay::Uploading { body, mut job } => {
                job.record(outcome);
                if !job.is_finished() {
                    Relay::Uploading { body, job }
                } else {
                    match job.into_result() {
                        Ok(media) => Relay::Publishing { body, media },
                        Err(e) => Relay::Done(Outcome::UploadFailed(e)),
                    }
                }
            },
            _ => self,
        }
    }

    /// Takes the result of creating the post on the home platform.
    pub fn on_published(self, published: Result<PostRef, PublishError>) -> (r: Relay)
        requires
            self is Publishing,
        ensures
            r.wf(),
            match published {
                Ok(p) => r == Relay::Done(Outcome::Published(p)),
                Err(e) => r == Relay::Done(Outcome::PublishFailed(e)),
            },
    {
        match published {
            Ok(p) => Relay::Done(Outcome::Published(p)),
            Err(e) => Relay::Done(Outcome::PublishFailed(e)),
        }
    }
}

} // verus!
