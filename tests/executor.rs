use aggrivator::artifact::{artifact_content, artifact_key, artifact_path, Namespace};
use aggrivator::config::PollConfig;
use aggrivator::executor::{
    classify_response, classify_status, connection_failure_outcome, download_failure_outcome,
    reads_body, request_headers, FeedRecord, StatusClass,
};
use aggrivator::validators::ResponseHeader;

fn config() -> PollConfig {
    PollConfig::new("Aggrivator (PodcastIndex.org)/v0.1.0".to_string())
}

fn feed() -> FeedRecord {
    FeedRecord {
        id: 1,
        url: "https://x/feed.xml".to_string(),
        title: "X".to_string(),
        last_modified: 1700000000,
        etag: "abc".to_string(),
    }
}

fn header(name: &str, value: &str) -> ResponseHeader {
    ResponseHeader { name: name.to_string(), value: Some(value.to_string()) }
}

#[test]
fn not_modified_example() {
    let r = classify_response(
        &config(),
        &feed(),
        "https://x/feed.xml".to_string(),
        304,
        &vec![header("ETag", "abc")],
        vec![],
        1700000100,
    );
    assert!(!r.updated);
    assert_eq!(r.class, StatusClass::NotModified);
    assert_eq!(r.outcome.status_code, 304);
    assert!(r.outcome.body.is_empty());
    assert_eq!(r.outcome.last_modified, 1700000000);
    assert_eq!(r.outcome.etag, "abc");
    let content = artifact_content(&config(), &r.outcome);
    assert_eq!(content, b"1700000000\nabc\nhttps://x/feed.xml\n1700000100\n".to_vec());
}

#[test]
fn updated_example() {
    let body = b"0123456789".to_vec();
    let r = classify_response(
        &config(),
        &feed(),
        "https://x/feed.xml".to_string(),
        200,
        &vec![header("ETag", "zzz")],
        body.clone(),
        5,
    );
    assert!(r.updated);
    assert_eq!(r.outcome.status_code, 200);
    assert_eq!(r.outcome.etag, "zzz");
    assert_eq!(r.outcome.body, body);
    assert_eq!(r.outcome.last_modified, 1700000000);
    let content = artifact_content(&config(), &r.outcome);
    assert_eq!(content, b"1700000000\nzzz\nhttps://x/feed.xml\n5\n0123456789".to_vec());
}

#[test]
fn body_at_ceiling_is_accepted() {
    let body = vec![b'a'; 40971520];
    let r = classify_response(&config(), &feed(), "u".to_string(), 200, &vec![], body, 0);
    assert!(r.updated);
    assert_eq!(r.outcome.status_code, 200);
    assert_eq!(r.outcome.body.len(), 40971520);
    let key = artifact_key(&config(), &r.outcome);
    assert_eq!(key.status_code, 200);
}

#[test]
fn body_over_ceiling_is_rejected() {
    let body = vec![b'a'; 40971521];
    let r = classify_response(&config(), &feed(), "u".to_string(), 200, &vec![], body, 0);
    assert!(!r.updated);
    assert_eq!(r.outcome.status_code, 668);
    assert!(r.outcome.body.is_empty());
    let key = artifact_key(&config(), &r.outcome);
    assert_eq!(key.status_code, 668);
    assert_eq!(key.namespace, Namespace::Feeds);
    let content = artifact_content(&config(), &r.outcome);
    assert_eq!(content, b"1700000000\nabc\nu\n0\n".to_vec());
}

#[test]
fn no_content_is_updated_without_body() {
    let r = classify_response(&config(), &feed(), "u".to_string(), 204, &vec![], b"x".to_vec(), 0);
    assert!(r.updated);
    assert!(r.outcome.body.is_empty());
    assert_eq!(r.outcome.status_code, 204);
}

#[test]
fn error_statuses_are_not_updated() {
    for status in [404u16, 410, 500, 503, 999, 302, 100, 1000] {
        let r = classify_response(&config(), &feed(), "u".to_string(), status, &vec![], b"x".to_vec(), 0);
        assert!(!r.updated);
        assert!(r.outcome.body.is_empty());
        assert_eq!(r.outcome.status_code, status);
    }
}

#[test]
fn status_classes() {
    assert_eq!(classify_status(203), StatusClass::Content);
    assert_eq!(classify_status(214), StatusClass::Content);
    assert_eq!(classify_status(204), StatusClass::NoContent);
    assert_eq!(classify_status(400), StatusClass::ClientError);
    assert_eq!(classify_status(499), StatusClass::ClientError);
    assert_eq!(classify_status(500), StatusClass::ServerError);
    assert_eq!(classify_status(999), StatusClass::ServerError);
    assert_eq!(classify_status(201), StatusClass::Unhandled);
    assert!(reads_body(200));
    assert!(!reads_body(304));
}

#[test]
fn outcome_keeps_final_url_and_new_validators() {
    let r = classify_response(
        &config(),
        &feed(),
        "https://y/moved.xml".to_string(),
        200,
        &vec![header("Last-Modified", "Thu, 01 Jan 1970 00:01:40 GMT")],
        vec![],
        0,
    );
    assert_eq!(r.outcome.effective_url, "https://y/moved.xml");
    assert_eq!(r.outcome.last_modified, 100);
    assert_eq!(r.outcome.etag, "abc");
}

#[test]
fn repeat_poll_gives_same_status_and_key() {
    let a = classify_response(&config(), &feed(), "u".to_string(), 404, &vec![], vec![], 1);
    let b = classify_response(&config(), &feed(), "u".to_string(), 404, &vec![], vec![], 2);
    assert_eq!(a.outcome.status_code, b.outcome.status_code);
    assert_eq!(artifact_key(&config(), &a.outcome), artifact_key(&config(), &b.outcome));
}

#[test]
fn request_headers_start_with_user_agent() {
    let h = request_headers(&config(), &feed());
    assert_eq!(h.len(), 3);
    assert_eq!(h[0].name, "User-Agent");
    assert_eq!(h[0].value, "Aggrivator (PodcastIndex.org)/v0.1.0");
    assert_eq!(h[1].value, "Tue, 14 Nov 2023 22:13:20 GMT");
    assert_eq!(h[2].value, "abc");
}

#[test]
fn failure_outcomes() {
    let c = connection_failure_outcome(&config(), &feed(), 9);
    assert_eq!(c.status_code, 666);
    assert_eq!(c.last_modified, 1700000000);
    assert_eq!(c.etag, "abc");
    let mut untagged = feed();
    untagged.etag = String::new();
    assert_eq!(connection_failure_outcome(&config(), &untagged, 9).etag, "[[NO_ETAG]]");
    assert_eq!(c.effective_url, "https://x/feed.xml");
    assert!(c.body.is_empty());
    let d = download_failure_outcome(&config(), &feed(), 9);
    assert_eq!(d.status_code, 667);
    assert_eq!(d.last_modified, 0);
    assert_eq!(d.etag, "");
    assert_eq!(String::from_utf8(artifact_path(&artifact_key(&config(), &d))).unwrap(), "feeds/1_667.txt");
}

#[test]
fn not_modified_without_validator_headers_keeps_stored_validators() {
    let r = classify_response(
        &config(),
        &feed(),
        "https://x/feed.xml".to_string(),
        304,
        &vec![],
        vec![],
        1700000100,
    );
    assert!(!r.updated);
    assert_eq!(r.outcome.status_code, 304);
    assert!(r.outcome.body.is_empty());
    assert_eq!(r.outcome.last_modified, 1700000000);
    assert_eq!(r.outcome.etag, "abc");
    let content = artifact_content(&config(), &r.outcome);
    assert_eq!(content, b"1700000000\nabc\nhttps://x/feed.xml\n1700000100\n".to_vec());
}

#[test]
fn untagged_feed_without_response_tag_gets_marker() {
    let mut f = feed();
    f.etag = String::new();
    let r = classify_response(&config(), &f, "u".to_string(), 200, &vec![], b"x".to_vec(), 0);
    assert_eq!(r.outcome.etag, "[[NO_ETAG]]");
}
