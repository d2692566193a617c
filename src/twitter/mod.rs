//! The platform's requests, and the reading of its timeline.
use vstd::prelude::*;

pub mod types;

use crate::http::{
    decimal, resolve_url, spec_decimal, spec_resolve, ApiRequest, ApiRequestView, Body, BodyView,
    Expect, Method,
};

use self::types::{Tweet, TweetMedia, TweetRequest};

verus! {

/// The endpoint of the media upload protocol.
pub open spec fn spec_media_url() -> Seq<char> {
    "https://upload.twitter.com/1.1/media/upload.json"@
}

/// The text of every post.
pub open spec fn spec_post_text() -> Seq<char> {
    "#capybara"@
}

/// The JSON string literal (quotes and escapes included) that holds `s`.
pub uninterp spec fn json_string_of(s: Seq<char>) -> Seq<char>;

/// The JSON array of the string literals of `ids`, in order.
pub open spec fn spec_json_array(ids: Seq<Seq<char>>) -> Seq<char>
    decreases ids.len(),
{
    if ids.len() == 0 {
        "[]"@
    } else {
        "["@ + spec_json_items(ids) + "]"@
    }
}

/// The string literals of `ids` separated by commas.
pub open spec fn spec_json_items(ids: Seq<Seq<char>>) -> Seq<char>
    decreases ids.len(),
{
    if ids.len() == 0 {
        Seq::empty()
    } else if ids.len() == 1 {
        json_string_of(ids[0])
    } else {
        spec_json_items(ids.drop_last()) + ","@ + json_string_of(ids.last())
    }
}

/// The compact JSON document of a post creation.
pub open spec fn spec_tweet_json(text: Seq<char>, ids: Seq<Seq<char>>) -> Seq<char> {
    "{\"text\":"@ + json_string_of(text) + ",\"media\":{\"media_ids\":"@ + spec_json_array(ids)
        + "}}"@
}

/// The texts of a list of strings.
pub open spec fn spec_texts(v: Seq<String>) -> Seq<Seq<char>> {
    v.map_values(|s: String| s@)
}

/// Relies on serde_json::to_string on a `str`: the JSON string literal that
/// holds it. Writing a `str` into a `Vec` cannot fail, so the error arm is
/// never taken.
#[verifier::external_body]
fn json_string(s: &str) -> (r: String)
    ensures
        r@ == json_string_of(s@),
{
    match serde_json::to_string(s) {
        Ok(t) => t,
        Err(_) => String::new(),
    }
}

impl TweetRequest {
    /// A post with the fixed text and the one media given.
    pub fn new(media_id: &str) -> (r: TweetRequest)
        ensures
            r.text@ == spec_post_text(),
            spec_texts(r.media.media_ids@) == seq![media_id@],
    {
        let mut ids: Vec<String> = Vec::new();
        ids.push(String::from_str(media_id));
        let r = TweetRequest { text: String::from_str("#capybara"), media: TweetMedia { media_ids: ids } };
        assert(spec_texts(r.media.media_ids@) =~= seq![media_id@]);
        r
    }

    /// The compact JSON document of this post, fields in declaration order.
    pub fn to_json(&self) -> (r: String)
        ensures
            r@ == spec_tweet_json(self.text@, spec_texts(self.media.media_ids@)),
    {
        let ids = &self.media.media_ids;
        let ghost texts = spec_texts(ids@);
        let mut items = String::new();
        let mut i: usize = 0;
        while i < ids.len()
            invariant
                i <= ids@.len(),
                texts == spec_texts(ids@),
                items@ == spec_json_items(texts.subrange(0, i as int)),
            decreases ids@.len() - i,
        {
            let q = json_string(ids[i].as_str());
            proof {
                let pre = texts.subrange(0, i as int);
                let next = texts.subrange(0, i + 1);
                assert(next.drop_last() =~= pre);
                assert(next.last() == ids@[i as int]@);
            }
            if i > 0 {
                items.append(",");
            }
            items.append(q.as_str());
            i += 1;
        }
        assert(texts.subrange(0, ids@.len() as int) =~= texts);
        let array = if ids.len() == 0 {
            String::from_str("[]")
        } else {
            String::from_str("[").concat(items.as_str()).concat("]")
        };
        String::from_str("{\"text\":").concat(json_string(self.text.as_str()).as_str()).concat(
            ",\"media\":{\"media_ids\":",
        ).concat(array.as_str()).concat("}}")
    }
}

/// The request for the authenticated user's profile.
pub open spec fn spec_me_request() -> ApiRequestView {
    ApiRequestView {
        method: Method::Get,
        url: spec_resolve("/2/users/me"@),
        query: seq![("user.fields"@, "id,username"@)],
        body: BodyView::Empty,
        expect: Expect::Me,
    }
}

/// The request for a user's posts, newest first.
pub open spec fn spec_timeline_request(user_id: Seq<char>) -> ApiRequestView {
    ApiRequestView {
        method: Method::Get,
        url: spec_resolve("/2/users/"@ + user_id + "/tweets"@),
        query: seq![("tweet.fields"@, "created_at"@)],
        body: BodyView::Empty,
        expect: Expect::Timeline,
    }
}

/// The INIT phase: announces the size and type of the media.
pub open spec fn spec_init_request(content_type: Seq<char>, total_bytes: nat) -> ApiRequestView {
    ApiRequestView {
        method: Method::Post,
        url: spec_resolve(spec_media_url()),
        query: seq![
            ("command"@, "INIT"@),
            ("total_bytes"@, spec_decimal(total_bytes)),
            ("media_type"@, content_type),
        ],
        body: BodyView::Empty,
        expect: Expect::InitMedia,
    }
}

/// The APPEND phase: the whole media as segment 0 of the given handle.
pub open spec fn spec_append_request(media_id: Seq<char>, file_name: Seq<char>, bytes: Seq<u8>) -> ApiRequestView {
    ApiRequestView {
        method: Method::Post,
        url: spec_resolve(
            spec_media_url() + "?command=APPEND&media_id="@ + media_id + "&segment_index=0"@,
        ),
        query: seq![],
        body: BodyView::Media { file_name, bytes },
        expect: Expect::Status,
    }
}

/// The FINALIZE phase of the given handle.
pub open spec fn spec_finalize_request(media_id: Seq<char>) -> ApiRequestView {
    ApiRequestView {
        method: Method::Post,
        url: spec_resolve(spec_media_url() + "?command=FINALIZE&media_id="@ + media_id),
        query: seq![],
        body: BodyView::Empty,
        expect: Expect::InitMedia,
    }
}

/// The creation of a post that shows the given media.
pub open spec fn spec_post_request(media_id: Seq<char>) -> ApiRequestView {
    ApiRequestView {
        method: Method::Post,
        url: spec_resolve("/2/tweets"@),
        query: seq![],
        body: BodyView::Json(spec_tweet_json(spec_post_text(), seq![media_id])),
        expect: Expect::Tweet,
    }
}

/// A query pair of two literals.
fn pair(k: &str, v: &str) -> (r: (String, String))
    ensures
        r.0@ == k@,
        r.1@ == v@,
{
    (String::from_str(k), String::from_str(v))
}

/// The request for the authenticated user's profile.
pub fn me_request() -> (r: ApiRequest)
    ensures
        r@ == spec_me_request(),
{
    let mut query: Vec<(String, String)> = Vec::new();
    query.push(pair("user.fields", "id,username"));
    let r = ApiRequest {
        method: Method::Get,
        url: resolve_url("/2/users/me"),
        query,
        body: Body::Empty,
        expect: Expect::Me,
    };
    assert(r@.query =~= spec_me_request().query);
    r
}

/// The request for a user's posts.
pub fn timeline_request(user_id: &str) -> (r: ApiRequest)
    ensures
        r@ == spec_timeline_request(user_id@),
{
    let mut query: Vec<(String, String)> = Vec::new();
    query.push(pair("tweet.fields", "created_at"));
    let path = String::from_str("/2/users/").concat(user_id).concat("/tweets");
    let r = ApiRequest {
        method: Method::Get,
        url: resolve_url(path.as_str()),
        query,
        body: Body::Empty,
        expect: Expect::Timeline,
    };
    assert(r@.query =~= spec_timeline_request(user_id@).query);
    r
}

/// The INIT phase of the media upload.
pub fn init_request(content_type: &str, total_bytes: u64) -> (r: ApiRequest)
    ensures
        r@ == spec_init_request(content_type@, total_bytes as nat),
{
    let mut query: Vec<(String, String)> = Vec::new();
    query.push(pair("command", "INIT"));
    query.push((String::from_str("total_bytes"), decimal(total_bytes)));
    query.push(pair("media_type", content_type));
    let r = ApiRequest {
        method: Method::Post,
        url: resolve_url("https://upload.twitter.com/1.1/media/upload.json"),
        query,
        body: Body::Empty,
        expect: Expect::InitMedia,
    };
    assert(r@.query =~= spec_init_request(content_type@, total_bytes as nat).query);
    r
}

/// The APPEND phase of the media upload: the whole media in one segment.
pub fn append_request(media_id: &str, file_name: String, bytes: Vec<u8>) -> (r: ApiRequest)
    ensures
        r@ == spec_append_request(media_id@, file_name@, bytes@),
{
    let url = String::from_str("https://upload.twitter.com/1.1/media/upload.json").concat(
        "?command=APPEND&media_id=",
    ).concat(media_id).concat("&segment_index=0");
    let r = ApiRequest {
        method: Method::Post,
        url: resolve_url(url.as_str()),
        query: Vec::new(),
        body: Body::Media { file_name, bytes },
        expect: Expect::Status,
    };
    assert(r@.query =~= seq![]);
    r
}

/// The FINALIZE phase of the media upload.
pub fn finalize_request(media_id: &str) -> (r: ApiRequest)
    ensures
        r@ == spec_finalize_request(media_id@),
{
    let url = String::from_str("https://upload.twitter.com/1.1/media/upload.json").concat(
        "?command=FINALIZE&media_id=",
    ).concat(media_id);
    let r = ApiRequest {
        method: Method::Post,
        url: resolve_url(url.as_str()),
        query: Vec::new(),
        body: Body::Empty,
        expect: Expect::InitMedia,
    };
    assert(r@.query =~= seq![]);
    r
}

/// The creation of a post that shows the given media.
pub fn post_request(media_id: &str) -> (r: ApiRequest)
    ensures
        r@ == spec_post_request(media_id@),
{
    let body = TweetRequest::new(media_id).to_json();
    let r = ApiRequest {
        method: Method::Post,
        url: resolve_url("/2/tweets"),
        query: Vec::new(),
        body: Body::Json(body),
        expect: Expect::Tweet,
    };
    assert(r@.query =~= seq![]);
    r
}

/// The creation time of the newest post: the first of the timeline, which
/// the platform lists newest first; `None` where the timeline is empty or null.
pub fn newest_post_time(data: &Option<Vec<Tweet>>) -> (r: Option<i64>)
    ensures
        r == match data {
            Some(v) => if v@.len() > 0 {
                Some(v@[0].created_at)
            } else {
                None
            },
            None => None,
        },
{
    match data {
        Some(v) => if v.len() > 0 {
            Some(v[0].created_at)
        } else {
            None
        },
        None => None,
    }
}

} // verus!
