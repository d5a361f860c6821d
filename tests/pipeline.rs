use copypost::link::extract;
use copypost::model::{
    status_error, FetchError, MediaHandle, MediaRef, NormalizedPost, PostRef, PublishError,
};
use copypost::platform::{resolve, Platform};
use copypost::poller::{has_trigger, Mention, MentionPoller, ProcessedSet};
use copypost::relay::{Outcome, Relay, SkipReason};
use copypost::upload::{UploadCause, UploadJob};

fn mention(id: &str, text: &str) -> Mention {
    Mention {
        id: id.to_string(),
        author: "someone.bsky.social".to_string(),
        text: text.to_string(),
        timestamp: "2024-01-01T00:00:00Z".to_string(),
    }
}

fn media(url: &str) -> MediaRef {
    MediaRef { url: url.to_string(), mime: "image/jpeg".to_string() }
}

fn handle(id: &str) -> MediaHandle {
    MediaHandle { id: id.to_string() }
}

fn poller() -> MentionPoller {
    MentionPoller::new("@copypost".to_string())
}

#[test]
fn extract_takes_first_link_up_to_whitespace() {
    let r = extract("see http://a.com/x and https://b.com/y");
    assert_eq!(r.as_deref(), Some("http://a.com/x"));
}

#[test]
fn extract_takes_link_at_end_of_text() {
    assert_eq!(extract("https://x.com/u/posts/1").as_deref(), Some("https://x.com/u/posts/1"));
}

#[test]
fn extract_none_without_link() {
    assert_eq!(extract("no links here"), None);
    assert_eq!(extract(""), None);
    assert_eq!(extract("ftp://files.example/a"), None);
}

#[test]
fn extract_needs_something_after_scheme() {
    assert_eq!(extract("http:// x"), None);
    assert_eq!(extract("https://"), None);
    assert_eq!(extract("https:// then http://ok.com"), Some("http://ok.com".to_string()));
}

#[test]
fn extract_keeps_non_ascii_text() {
    assert_eq!(extract("héllo https://x.com/ü"), Some("https://x.com/ü".to_string()));
}

#[test]
fn resolve_x_host() {
    let (p, id) = resolve("https://x.com/u/posts/12345");
    assert_eq!(p, Platform::X);
    assert_eq!(id.as_deref(), Some("12345"));
}

#[test]
fn resolve_host_containing_x_com() {
    assert_eq!(resolve("https://www.x.com/a").0, Platform::X);
    assert_eq!(resolve("https://mobile.x.com/u/posts/9").1.as_deref(), Some("9"));
}

#[test]
fn resolve_threads_hosts() {
    assert_eq!(resolve("https://threads.net/@u/posts/abc").0, Platform::Threads);
    assert_eq!(resolve("https://www.threads.com/@u/posts/abc").0, Platform::Threads);
}

#[test]
fn resolve_unknown_host_has_no_id() {
    let (p, id) = resolve("https://example.org/u/posts/123");
    assert_eq!(p, Platform::Unknown);
    assert_eq!(id, None);
}

#[test]
fn resolve_looks_at_host_only() {
    assert_eq!(resolve("https://example.org/x.com/posts/1").0, Platform::Unknown);
}

#[test]
fn resolve_without_marker_has_no_id() {
    let (p, id) = resolve("https://x.com/u/status/123");
    assert_eq!(p, Platform::X);
    assert_eq!(id, None);
    assert_eq!(resolve("https://x.com/u/posts/").1, None);
}

#[test]
fn resolve_id_stops_at_non_word_character() {
    assert_eq!(resolve("https://x.com/u/posts/ab_9-rest?q=1").1.as_deref(), Some("ab_9"));
}

#[test]
fn resolve_extracted_round_trip() {
    let u = extract("@copypost check this https://x.com/u/posts/12345").unwrap();
    let (p, id) = resolve(&u);
    assert_eq!(p, Platform::X);
    assert_eq!(id, Some("12345".to_string()));
}

#[test]
fn threads_mention_runs_whole_pipeline() {
    let text = "hello @copypost see https://threads.net/@u/posts/abcXYZ";
    assert_eq!(extract(text).as_deref(), Some("https://threads.net/@u/posts/abcXYZ"));
    let mut poller = poller();
    let relay = poller.begin(&mention("m1", text)).unwrap();
    match &relay {
        Relay::Fetching { platform, post_id } => {
            assert_eq!(*platform, Platform::Threads);
            assert_eq!(post_id, "abcXYZ");
        }
        _ => panic!("expected a fetch"),
    }
    let post = NormalizedPost { body: "hi".to_string(), media: vec![media("m1"), media("m2")] };
    let mut relay = relay.on_fetched(Ok(post));
    let mut asked = Vec::new();
    let given = ["h1", "h2"];
    while let Some((i, m)) = relay.pending_media() {
        asked.push((i, m.url.clone()));
        relay = relay.on_transferred(Ok(handle(given[i])));
    }
    assert_eq!(asked, vec![(0, "m1".to_string()), (1, "m2".to_string())]);
    match &relay {
        Relay::Publishing { body, media } => {
            assert_eq!(body, "hi");
            let ids: Vec<&str> = media.iter().map(|h| h.id.as_str()).collect();
            assert_eq!(ids, vec!["h1", "h2"]);
        }
        _ => panic!("expected publishing"),
    }
    let relay = relay.on_published(Ok(PostRef { uri: "at://post/1".to_string() }));
    assert!(matches!(relay, Relay::Done(Outcome::Published(ref p)) if p.uri == "at://post/1"));
    assert!(poller.is_processed(&"m1".to_string()));
}

#[test]
fn untriggered_mention_never_fetches() {
    let mut poller = poller();
    let m = mention("m1", "hello see https://x.com/u/posts/1");
    assert!(poller.begin(&m).is_none());
    assert!(!poller.is_processed(&m.id));
}

#[test]
fn trigger_is_case_sensitive() {
    let mut poller = poller();
    assert!(poller.begin(&mention("m1", "@CopyPost https://x.com/u/posts/1")).is_none());
    assert!(has_trigger("a @copypost b", "@copypost"));
    assert!(!has_trigger("a @copypos", "@copypost"));
    assert!(has_trigger("anything", ""));
}

#[test]
fn not_found_marks_processed_and_skips_publish() {
    let mut poller = poller();
    let first = mention("m1", "@copypost https://x.com/u/posts/1");
    let second = mention("m2", "@copypost https://x.com/u/posts/2");
    let relay = poller.begin(&first).unwrap();
    assert!(matches!(relay, Relay::Fetching { .. }));
    let relay = relay.on_fetched(Err(FetchError::NotFound));
    assert!(matches!(relay, Relay::Done(Outcome::FetchFailed(FetchError::NotFound))));
    assert!(relay.pending_media().is_none());
    assert!(poller.is_processed(&first.id));
    let next = poller.begin(&second).unwrap();
    assert!(matches!(next, Relay::Fetching { ref post_id, .. } if post_id == "2"));
}

#[test]
fn same_mention_twice_is_taken_up_once() {
    let mut poller = poller();
    let m = mention("m1", "@copypost https://x.com/u/posts/1");
    assert!(poller.begin(&m).is_some());
    assert!(poller.begin(&m).is_none());
    let same_id = mention("m1", "@copypost https://threads.net/@u/posts/2");
    assert!(poller.begin(&same_id).is_none());
}

#[test]
fn qualifying_mention_without_usable_link_is_skipped() {
    let mut poller = poller();
    let r = poller.begin(&mention("a", "@copypost no link")).unwrap();
    assert!(matches!(r, Relay::Done(Outcome::Skipped(SkipReason::NoLink))));
    let r = poller.begin(&mention("b", "@copypost https://example.org/posts/1")).unwrap();
    assert!(matches!(r, Relay::Done(Outcome::Skipped(SkipReason::UnknownPlatform))));
    let r = poller.begin(&mention("c", "@copypost https://x.com/home")).unwrap();
    assert!(matches!(r, Relay::Done(Outcome::Skipped(SkipReason::NoPostId))));
    assert!(poller.is_processed(&"c".to_string()));
}

#[test]
fn post_without_media_goes_straight_to_publishing() {
    let relay = Relay::Fetching { platform: Platform::X, post_id: "1".to_string() };
    let relay = relay.on_fetched(Ok(NormalizedPost { body: "b".to_string(), media: vec![] }));
    assert!(matches!(relay, Relay::Publishing { ref media, .. } if media.is_empty()));
    let relay = relay.on_published(Err(PublishError::Rejected));
    assert!(matches!(relay, Relay::Done(Outcome::PublishFailed(PublishError::Rejected))));
}

#[test]
fn upload_failure_names_first_failing_item() {
    let relay = Relay::Fetching { platform: Platform::X, post_id: "1".to_string() };
    let post = NormalizedPost {
        body: "b".to_string(),
        media: vec![media("a"), media("b"), media("c")],
    };
    let mut relay = relay.on_fetched(Ok(post));
    relay = relay.on_transferred(Ok(handle("h0")));
    assert_eq!(relay.pending_media().map(|(i, m)| (i, m.url.clone())), Some((1, "b".to_string())));
    relay = relay.on_transferred(Err(UploadCause::DownloadFailed));
    match relay {
        Relay::Done(Outcome::UploadFailed(e)) => {
            assert_eq!(e.index, 1);
            assert_eq!(e.cause, UploadCause::DownloadFailed);
        }
        _ => panic!("expected an upload failure"),
    }
}

#[test]
fn upload_job_collects_every_handle_in_order() {
    let mut job = UploadJob::new(vec![media("a"), media("b")]);
    assert!(!job.is_finished());
    job.record(Ok(handle("x")));
    job.record(Ok(handle("y")));
    assert!(job.is_finished());
    assert!(job.next_ref().is_none());
    let hs = job.into_result().unwrap();
    let ids: Vec<&str> = hs.iter().map(|h| h.id.as_str()).collect();
    assert_eq!(ids, vec!["x", "y"]);
}

#[test]
fn upload_job_stops_at_first_rejection() {
    let mut job = UploadJob::new(vec![media("a"), media("b")]);
    job.record(Err(UploadCause::PlatformRejected));
    assert!(job.is_finished());
    let e = job.into_result().unwrap_err();
    assert_eq!(e.index, 0);
    assert_eq!(e.cause, UploadCause::PlatformRejected);
}

#[test]
fn empty_upload_job_is_finished_at_once() {
    let job = UploadJob::new(vec![]);
    assert!(job.is_finished());
    assert_eq!(job.into_result().unwrap().len(), 0);
}

#[test]
fn status_maps_to_fetch_error() {
    assert_eq!(status_error(200), None);
    assert_eq!(status_error(204), None);
    assert_eq!(status_error(401), Some(FetchError::AuthFailure));
    assert_eq!(status_error(403), Some(FetchError::AuthFailure));
    assert_eq!(status_error(404), Some(FetchError::NotFound));
    assert_eq!(status_error(410), Some(FetchError::NotFound));
    assert_eq!(status_error(429), Some(FetchError::RateLimited));
    assert_eq!(status_error(500), Some(FetchError::Transport));
    assert_eq!(status_error(302), Some(FetchError::Transport));
}

#[test]
fn rate_limit_stops_cycle() {
    assert!(Outcome::FetchFailed(FetchError::RateLimited).stops_cycle());
    assert!(!Outcome::FetchFailed(FetchError::NotFound).stops_cycle());
    assert!(!Outcome::Skipped(SkipReason::NoLink).stops_cycle());
}

#[test]
fn processed_set_remembers_ids() {
    let mut s = ProcessedSet::new();
    assert!(!s.contains(&"a".to_string()));
    s.insert("a".to_string());
    assert!(s.contains(&"a".to_string()));
    assert!(!s.contains(&"b".to_string()));
}

fn keyed(key: &str, url: Option<&str>) -> copypost::source::KeyedMedia {
    copypost::source::KeyedMedia {
        key: key.to_string(),
        url: url.map(|u| u.to_string()),
        mime: "photo".to_string(),
    }
}

#[test]
fn media_follows_attachment_key_order() {
    let keys = vec!["k2".to_string(), "k1".to_string()];
    let found = vec![keyed("k1", Some("u1")), keyed("k2", Some("u2"))];
    let media = copypost::source::media_by_keys(&keys, &found);
    let urls: Vec<&str> = media.iter().map(|m| m.url.as_str()).collect();
    assert_eq!(urls, vec!["u2", "u1"]);
    assert_eq!(media[0].mime, "photo");
}

#[test]
fn media_skips_missing_keys_and_urls() {
    let keys = vec!["a".to_string(), "b".to_string(), "c".to_string(), "a".to_string()];
    let found = vec![keyed("a", Some("ua")), keyed("b", None), keyed("a", Some("other"))];
    let media = copypost::source::media_by_keys(&keys, &found);
    let urls: Vec<&str> = media.iter().map(|m| m.url.as_str()).collect();
    assert_eq!(urls, vec!["ua", "ua"]);
    assert!(copypost::source::media_by_keys(&vec![], &found).is_empty());
}
