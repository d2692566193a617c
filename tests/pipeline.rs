use capyhourly::capylol::check_image;
use capyhourly::cycle::{Action, Cycle, Event, Payload};
use capyhourly::error::Error;
use capyhourly::http::{has_prefix, is_success, read_response, resolve_url, Body, Expect, Method};
use capyhourly::media::{extension_for, file_name};
use capyhourly::schedule::{cooldown_secs, last_post_secs, wait_before_first_cycle};
use capyhourly::twitter::types::{BaseResponse, InitMediaResponse, Tweet, TweetRequest, TweetResponse};
use capyhourly::twitter::{
    append_request, finalize_request, init_request, me_request, newest_post_time, post_request,
    timeline_request,
};
use capyhourly::POST_INTERVAL_SECS;

const NOW: i64 = 1_700_000_000;

fn pairs(v: &[(&str, &str)]) -> Vec<(String, String)> {
    v.iter().map(|(k, v)| (k.to_string(), v.to_string())).collect()
}

fn init_reply(id: &str) -> Event {
    Event::Reply {
        status: 200,
        body: format!("{{\"media_id_string\":\"{id}\",\"expires_after_secs\":86400}}").into_bytes(),
        payload: Some(Payload::InitMedia(InitMediaResponse {
            media_id: id.to_string(),
            expires_after_secs: 86400,
        })),
    }
}

fn image(status: u16, content_type: Option<&str>) -> Event {
    Event::Image {
        status,
        content_type: content_type.map(|c| c.to_string()),
        bytes: vec![1, 2, 3, 4, 5],
    }
}

fn expect_send(a: Action) -> capyhourly::http::ApiRequest {
    match a {
        Action::Send(r) => r,
        other => panic!("expected a request, got {other:?}"),
    }
}

#[test]
fn cooldown_ten_minutes_after_post_waits_fifty_minutes() {
    assert_eq!(cooldown_secs(NOW - 600, NOW, 3600), 3000);
}

#[test]
fn cooldown_after_full_interval_is_zero() {
    assert_eq!(cooldown_secs(NOW - 3600, NOW, 3600), 0);
    assert_eq!(cooldown_secs(NOW - 7200, NOW, 3600), 0);
}

#[test]
fn cooldown_just_before_interval_is_one_second() {
    assert_eq!(cooldown_secs(NOW - 3599, NOW, 3600), 1);
}

#[test]
fn cooldown_extremes_do_not_overflow() {
    assert_eq!(cooldown_secs(i64::MAX, i64::MIN, i64::MAX), u64::MAX as u128 + i64::MAX as u128);
    assert_eq!(cooldown_secs(i64::MIN, i64::MAX, 0), 0);
}

#[test]
fn empty_timeline_defaults_to_one_interval_ago() {
    let newest = newest_post_time(&None);
    assert_eq!(newest, None);
    let last = last_post_secs(newest, NOW, POST_INTERVAL_SECS);
    assert_eq!(last, NOW - 3600);
    assert_eq!(cooldown_secs(last, NOW, POST_INTERVAL_SECS), 0);
    assert_eq!(wait_before_first_cycle(None, POST_INTERVAL_SECS).1, 0);
    assert_eq!(newest_post_time(&Some(vec![])), None);
}

#[test]
fn newest_post_is_first_of_timeline() {
    let tweets = vec![
        Tweet { id: "2".to_string(), created_at: NOW - 600 },
        Tweet { id: "1".to_string(), created_at: NOW - 9000 },
    ];
    let newest = newest_post_time(&Some(tweets));
    assert_eq!(newest, Some(NOW - 600));
    assert_eq!(last_post_secs(newest, NOW, 3600), NOW - 600);
    assert_eq!(cooldown_secs(NOW - 600, NOW, 3600), 3000);
}

#[test]
fn wait_with_recent_post_is_bounded_by_interval() {
    let (now, wait) = wait_before_first_cycle(Some(NOW), 3600);
    assert!(now >= NOW);
    assert!(wait <= 3600);
}

#[test]
fn extensions_of_allow_list() {
    assert_eq!(extension_for("image/jpeg").unwrap(), "jpg");
    assert_eq!(extension_for("image/png").unwrap(), "png");
    assert_eq!(file_name("png"), "capybara.png");
}

#[test]
fn other_types_are_unsupported() {
    for ct in ["image/gif", "image/jpg", "IMAGE/PNG", "", "image/png; charset=x"] {
        match extension_for(ct) {
            Err(Error::UnsupportedMedia { content_type }) => assert_eq!(content_type, ct),
            other => panic!("unexpected {other:?}"),
        }
    }
}

#[test]
fn urls_resolve_against_api_host() {
    assert!(has_prefix("https://x", "http"));
    assert!(!has_prefix("htt", "http"));
    assert_eq!(resolve_url("/2/tweets"), "https://api.twitter.com/2/tweets");
    assert_eq!(
        resolve_url("https://upload.twitter.com/1.1/media/upload.json"),
        "https://upload.twitter.com/1.1/media/upload.json"
    );
}

#[test]
fn success_range() {
    assert!(!is_success(199));
    assert!(is_success(200));
    assert!(is_success(299));
    assert!(!is_success(300));
    assert!(!is_success(401));
}

#[test]
fn responses_are_classified() {
    match read_response::<u8>(401, b"Unauthorized", Some(1)) {
        Err(Error::Api { status, body }) => {
            assert_eq!(status, 401);
            assert_eq!(body, "Unauthorized");
        }
        other => panic!("unexpected {other:?}"),
    }
    match read_response::<u8>(200, b"not json\xff", None) {
        Err(Error::Decode { raw_body }) => assert_eq!(raw_body, "not json\u{fffd}"),
        other => panic!("unexpected {other:?}"),
    }
    assert_eq!(read_response::<u8>(200, b"7", Some(7)).unwrap(), 7);
}

#[test]
fn profile_and_timeline_requests() {
    let me = me_request();
    assert_eq!(me.method, Method::Get);
    assert_eq!(me.url, "https://api.twitter.com/2/users/me");
    assert_eq!(me.query, pairs(&[("user.fields", "id,username")]));
    assert_eq!(me.expect, Expect::Me);
    let tl = timeline_request("42");
    assert_eq!(tl.url, "https://api.twitter.com/2/users/42/tweets");
    assert_eq!(tl.query, pairs(&[("tweet.fields", "created_at")]));
    assert_eq!(tl.expect, Expect::Timeline);
}

#[test]
fn upload_requests() {
    let init = init_request("image/png", 1234);
    assert_eq!(init.method, Method::Post);
    assert_eq!(init.url, "https://upload.twitter.com/1.1/media/upload.json");
    assert_eq!(
        init.query,
        pairs(&[("command", "INIT"), ("total_bytes", "1234"), ("media_type", "image/png")])
    );
    let append = append_request("123", "capybara.png".to_string(), vec![9, 8]);
    assert_eq!(
        append.url,
        "https://upload.twitter.com/1.1/media/upload.json?command=APPEND&media_id=123&segment_index=0"
    );
    assert!(append.query.is_empty());
    match append.body {
        Body::Media { file_name, bytes } => {
            assert_eq!(file_name, "capybara.png");
            assert_eq!(bytes, vec![9, 8]);
        }
        other => panic!("unexpected {other:?}"),
    }
    let fin = finalize_request("123");
    assert_eq!(fin.url, "https://upload.twitter.com/1.1/media/upload.json?command=FINALIZE&media_id=123");
}

#[test]
fn post_request_body_is_json() {
    let post = post_request("123");
    assert_eq!(post.url, "https://api.twitter.com/2/tweets");
    match post.body {
        Body::Json(s) => assert_eq!(s, r##"{"text":"#capybara","media":{"media_ids":["123"]}}"##),
        other => panic!("unexpected {other:?}"),
    }
}

#[test]
fn tweet_request_json_escapes_and_lists() {
    let mut t = TweetRequest::new("1");
    t.media.media_ids.push("a\"b".to_string());
    assert_eq!(t.to_json(), r##"{"text":"#capybara","media":{"media_ids":["1","a\"b"]}}"##);
    t.media.media_ids.clear();
    assert_eq!(t.to_json(), r##"{"text":"#capybara","media":{"media_ids":[]}}"##);
}

#[test]
fn image_answers_are_checked() {
    match check_image(200, Some("image/jpeg".to_string()), b"x") {
        Ok((c, ext)) => {
            assert_eq!(c, "image/jpeg");
            assert_eq!(ext, "jpg");
        }
        other => panic!("unexpected {other:?}"),
    }
    assert!(matches!(check_image(200, None, b"x"), Err(Error::MissingContentType)));
    assert!(matches!(check_image(503, Some("image/png".to_string()), b"down"),
        Err(Error::Api { status: 503, ref body }) if body == "down"));
}

#[test]
fn full_cycle_posts_media_from_init() {
    let (mut cycle, first) = Cycle::new();
    assert!(matches!(first, Action::FetchImage));
    assert!(cycle.awaits_image());
    assert!(cycle.accepts(&image(200, Some("image/png"))));
    assert!(!cycle.accepts(&init_reply("1")));
    let init = expect_send(cycle.step(image(200, Some("image/png"))));
    assert_eq!(init.query[1], ("total_bytes".to_string(), "5".to_string()));
    assert_eq!(init.query[2], ("media_type".to_string(), "image/png".to_string()));
    let append = expect_send(cycle.step(init_reply("123")));
    assert!(append.url.ends_with("command=APPEND&media_id=123&segment_index=0"));
    match &append.body {
        Body::Media { file_name, bytes } => {
            assert_eq!(file_name, "capybara.png");
            assert_eq!(bytes, &vec![1, 2, 3, 4, 5]);
        }
        other => panic!("unexpected {other:?}"),
    }
    let fin = expect_send(cycle.step(Event::Reply { status: 200, body: vec![], payload: None }));
    assert!(fin.url.ends_with("command=FINALIZE&media_id=123"));
    let post = expect_send(cycle.step(init_reply("123")));
    match &post.body {
        Body::Json(s) => assert_eq!(s, r##"{"text":"#capybara","media":{"media_ids":["123"]}}"##),
        other => panic!("unexpected {other:?}"),
    }
    let done = cycle.step(Event::Reply {
        status: 201,
        body: b"{\"data\":{\"id\":\"999\"}}".to_vec(),
        payload: Some(Payload::Tweet(BaseResponse { data: TweetResponse { id: "999".to_string() } })),
    });
    assert!(matches!(done, Action::Finished { ref tweet_id } if tweet_id == "999"));
    assert!(cycle.is_over());
}

#[test]
fn gif_aborts_before_upload() {
    let (mut cycle, _) = Cycle::new();
    match cycle.step(image(200, Some("image/gif"))) {
        Action::Abort(Error::UnsupportedMedia { content_type }) => assert_eq!(content_type, "image/gif"),
        other => panic!("unexpected {other:?}"),
    }
    assert!(cycle.is_over());
    assert!(!cycle.accepts(&image(200, Some("image/png"))));
}

#[test]
fn unauthorized_propagates_as_api_error() {
    let (mut cycle, _) = Cycle::new();
    expect_send(cycle.step(image(200, Some("image/jpeg"))));
    match cycle.step(Event::Reply { status: 401, body: b"Unauthorized".to_vec(), payload: None }) {
        Action::Abort(Error::Api { status, body }) => {
            assert_eq!(status, 401);
            assert_eq!(body, "Unauthorized");
        }
        other => panic!("unexpected {other:?}"),
    }
    assert!(cycle.is_over());

    let (mut cycle, _) = Cycle::new();
    assert!(matches!(cycle.step(image(401, Some("image/jpeg"))), Action::Abort(Error::Api { status: 401, .. })));
}

#[test]
fn unauthorized_post_propagates_as_api_error() {
    let (mut cycle, _) = Cycle::new();
    expect_send(cycle.step(image(200, Some("image/jpeg"))));
    expect_send(cycle.step(init_reply("7")));
    expect_send(cycle.step(Event::Reply { status: 204, body: vec![], payload: None }));
    expect_send(cycle.step(init_reply("7")));
    assert!(matches!(
        cycle.step(Event::Reply { status: 401, body: vec![], payload: None }),
        Action::Abort(Error::Api { status: 401, .. })
    ));
}

#[test]
fn failed_append_is_upload_phase_error() {
    let (mut cycle, _) = Cycle::new();
    expect_send(cycle.step(image(200, Some("image/jpeg"))));
    expect_send(cycle.step(init_reply("123")));
    assert!(matches!(
        cycle.step(Event::Reply { status: 400, body: vec![], payload: None }),
        Action::Abort(Error::UploadPhase { status: 400 })
    ));
}

#[test]
fn undecodable_init_is_decode_error() {
    let (mut cycle, _) = Cycle::new();
    expect_send(cycle.step(image(200, Some("image/jpeg"))));
    match cycle.step(Event::Reply { status: 200, body: b"{}".to_vec(), payload: None }) {
        Action::Abort(Error::Decode { raw_body }) => assert_eq!(raw_body, "{}"),
        other => panic!("unexpected {other:?}"),
    }
}

#[test]
fn transport_failure_ends_cycle_unchanged() {
    let (mut cycle, _) = Cycle::new();
    match cycle.step(Event::Failed(Error::Transport { message: "reset".to_string() })) {
        Action::Abort(Error::Transport { message }) => assert_eq!(message, "reset"),
        other => panic!("unexpected {other:?}"),
    }
    assert!(cycle.is_over());
}

#[test]
fn error_messages() {
    assert_eq!(Error::UnsupportedMedia { content_type: "image/gif".to_string() }.message(), "unsupported media type: image/gif");
    assert_eq!(Error::Api { status: 401, body: "no".to_string() }.message(), "API error: 401 no");
    assert_eq!(Error::UploadPhase { status: 413 }.message(), "media upload failed with status 413");
    assert_eq!(Error::MissingContentType.message(), "missing content-type header");
}
