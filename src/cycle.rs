//! One posting cycle as a state machine: fetch an image, check its type,
//! upload it in the three phases INIT, APPEND and FINALIZE, and post it.
//!
//! The machine performs no I/O. Each step takes what came of the last action
//! (an image, a response, a failure) and returns the next action.
use vstd::prelude::*;

use crate::capylol::{check_image, spec_image_check};
use crate::error::{Error, ErrorView};
use crate::media::spec_allowed;
use crate::http::{
    is_success, lossy_text, spec_opt_text, spec_success, utf8_lossy_of, ApiRequest,
    ApiRequestView,
};
use crate::media::file_name;
use crate::twitter::types::{BaseResponse, InitMediaResponse, TweetResponse};
use crate::twitter::{
    append_request, finalize_request, init_request, post_request, spec_append_request,
    spec_finalize_request, spec_init_request, spec_post_request,
};

verus! {

/// Where a cycle stands.
pub enum Phase {
    /// The image is being fetched.
    FetchImage,
    /// INIT was sent; the image waits to be appended.
    AwaitInit { file_name: String, bytes: Vec<u8> },
    /// APPEND was sent for this media handle.
    AwaitAppend { media_id: String },
    /// FINALIZE was sent for this media handle.
    AwaitFinalize { media_id: String },
    /// The post that shows this media was sent.
    AwaitPost { media_id: String },
    /// The post was created.
    Done { tweet_id: String },
    /// The cycle was aborted.
    Failed,
}

pub enum PhaseView {
    FetchImage,
    AwaitInit { file_name: Seq<char>, bytes: Seq<u8> },
    AwaitAppend { media_id: Seq<char> },
    AwaitFinalize { media_id: Seq<char> },
    AwaitPost { media_id: Seq<char> },
    Done { tweet_id: Seq<char> },
    Failed,
}

impl View for Phase {
    type V = PhaseView;

    open spec fn view(&self) -> PhaseView {
        match self {
            Phase::FetchImage => PhaseView::FetchImage,
            Phase::AwaitInit { file_name, bytes } => PhaseView::AwaitInit {
                file_name: file_name@,
                bytes: bytes@,
            },
            Phase::AwaitAppend { media_id } => PhaseView::AwaitAppend { media_id: media_id@ },
            Phase::AwaitFinalize { media_id } => PhaseView::AwaitFinalize { media_id: media_id@ },
            Phase::AwaitPost { media_id } => PhaseView::AwaitPost { media_id: media_id@ },
            Phase::Done { tweet_id } => PhaseView::Done { tweet_id: tweet_id@ },
            Phase::Failed => PhaseView::Failed,
        }
    }
}

/// A decoded response body.
pub enum Payload {
    /// The answer to INIT or FINALIZE.
    InitMedia(InitMediaResponse),
    /// The answer to a post creation.
    Tweet(BaseResponse<TweetResponse>),
}

pub enum PayloadView {
    InitMedia { media_id: Seq<char> },
    Tweet { id: Seq<char> },
}

impl View for Payload {
    type V = PayloadView;

    open spec fn view(&self) -> PayloadView {
        match self {
            Payload::InitMedia(r) => PayloadView::InitMedia { media_id: r.media_id@ },
            Payload::Tweet(r) => PayloadView::Tweet { id: r.data.id@ },
        }
    }
}

/// What came of the last action.
pub enum Event {
    /// The image service answered.
    Image { status: u16, content_type: Option<String>, bytes: Vec<u8> },
    /// The platform answered; `payload` is the body decoded as the request
    /// expected, `None` where it did not decode or nothing was expected.
    Reply { status: u16, body: Vec<u8>, payload: Option<Payload> },
    /// The call could not be made.
    Failed(Error),
}

pub enum EventView {
    Image { status: u16, content_type: Option<Seq<char>>, bytes: Seq<u8> },
    Reply { status: u16, body: Seq<u8>, payload: Option<PayloadView> },
    Failed(ErrorView),
}

impl View for Event {
    type V = EventView;

    open spec fn view(&self) -> EventView {
        match self {
            Event::Image { status, content_type, bytes } => EventView::Image {
                status: *status,
                content_type: spec_opt_text(*content_type),
                bytes: bytes@,
            },
            Event::Reply { status, body, payload } => EventView::Reply {
                status: *status,
                body: body@,
                payload: match payload {
                    Some(p) => Some(p@),
                    None => None,
                },
            },
            Event::Failed(e) => EventView::Failed(e@),
        }
    }
}

/// What the caller is to do next.
#[derive(Debug)]
pub enum Action {
    /// Fetch one image from the image service.
    FetchImage,
    /// Send this request to the platform.
    Send(ApiRequest),
    /// The cycle is over: the post with this id was created.
    Finished { tweet_id: String },
    /// The cycle is over: it failed with this error.
    Abort(Error),
}

pub enum ActionView {
    FetchImage,
    Send(ApiRequestView),
    Finished { tweet_id: Seq<char> },
    Abort(ErrorView),
}

impl View for Action {
    type V = ActionView;

    open spec fn view(&self) -> ActionView {
        match self {
            Action::FetchImage => ActionView::FetchImage,
            Action::Send(r) => ActionView::Send(r@),
            Action::Finished { tweet_id } => ActionView::Finished { tweet_id: tweet_id@ },
            Action::Abort(e) => ActionView::Abort(e@),
        }
    }
}

/// Whether a phase is one of the two final ones.
pub open spec fn spec_is_over(p: PhaseView) -> bool {
    p is Done || p is Failed
}

/// Whether a phase takes an event: the image service's answer while the
/// image is fetched, the platform's while a request is out, a failure in
/// either case, and nothing once the cycle is over.
pub open spec fn spec_accepts(p: PhaseView, e: EventView) -> bool {
    match e {
        EventView::Image { .. } => p is FetchImage,
        EventView::Reply { .. } => !(p is FetchImage) && !spec_is_over(p),
        EventView::Failed(_) => !spec_is_over(p),
    }
}

/// A step that fails: the cycle ends with the error.
pub open spec fn spec_abort(e: ErrorView) -> (PhaseView, ActionView) {
    (PhaseView::Failed, ActionView::Abort(e))
}

/// One step of the cycle: the next phase and the next action.
pub open spec fn spec_next(p: PhaseView, e: EventView) -> (PhaseView, ActionView) {
    match e {
        EventView::Failed(err) => spec_abort(err),
        EventView::Image { status, content_type, bytes } => match spec_image_check(
            status,
            content_type,
            bytes,
        ) {
            Err(err) => spec_abort(err),
            Ok((c, ext)) => (
                PhaseView::AwaitInit { file_name: "capybara."@ + ext, bytes },
                ActionView::Send(spec_init_request(c, bytes.len())),
            ),
        },
        EventView::Reply { status, body, payload } => match p {
            PhaseView::AwaitAppend { media_id } => if spec_success(status) {
                (
                    PhaseView::AwaitFinalize { media_id },
                    ActionView::Send(spec_finalize_request(media_id)),
                )
            } else {
                spec_abort(ErrorView::UploadPhase { status })
            },
            _ => if !spec_success(status) {
                spec_abort(ErrorView::Api { status, body: utf8_lossy_of(body) })
            } else {
                match (p, payload) {
                    (
                        PhaseView::AwaitInit { file_name, bytes },
                        Some(PayloadView::InitMedia { media_id }),
                    ) => (
                        PhaseView::AwaitAppend { media_id },
                        ActionView::Send(spec_append_request(media_id, file_name, bytes)),
                    ),
                    (PhaseView::AwaitFinalize { media_id }, Some(PayloadView::InitMedia { .. })) => (
                        PhaseView::AwaitPost { media_id },
                        ActionView::Send(spec_post_request(media_id)),
                    ),
                    (PhaseView::AwaitPost { .. }, Some(PayloadView::Tweet { id })) => (
                        PhaseView::Done { tweet_id: id },
                        ActionView::Finished { tweet_id: id },
                    ),
                    _ => spec_abort(ErrorView::Decode { raw_body: utf8_lossy_of(body) }),
                }
            },
        },
    }
}

/// One posting cycle.
pub struct Cycle {
    phase: Phase,
}

impl View for Cycle {
    type V = PhaseView;

    closed spec fn view(&self) -> PhaseView {
        self.phase@
    }
}

impl Cycle {
    /// A cycle that starts by fetching an image.
    pub fn new() -> (r: (Cycle, Action))
        ensures
            r.0@ == PhaseView::FetchImage,
            r.1@ == ActionView::FetchImage,
    {
        (Cycle { phase: Phase::FetchImage }, Action::FetchImage)
    }

    /// Whether the cycle has finished or failed.
    pub fn is_over(&self) -> (r: bool)
        ensures
            r == spec_is_over(self@),
    {
        match self.phase {
            Phase::Done { .. } | Phase::Failed => true,
            _ => false,
        }
    }

    /// Whether the cycle waits for the image service's answer.
    pub fn awaits_image(&self) -> (r: bool)
        ensures
            r == (self@ is FetchImage),
    {
        match self.phase {
            Phase::FetchImage => true,
            _ => false,
        }
    }

    /// Whether the cycle, where it stands, takes this event.
    pub fn accepts(&self, event: &Event) -> (r: bool)
        ensures
            r == spec_accepts(self@, event@),
    {
        let over = self.is_over();
        match event {
            Event::Image { .. } => self.awaits_image(),
            Event::Reply { .. } => !self.awaits_image() && !over,
            Event::Failed(_) => !over,
        }
    }

    /// Takes what came of the last action and returns the next one.
    pub fn step(&mut self, event: Event) -> (r: Action)
        requires
            spec_accepts(old(self)@, event@),
        ensures
            (final(self)@, r@) == spec_next(old(self)@, event@),
    {
        let mut cur = Phase::Failed;
        std::mem::swap(&mut self.phase, &mut cur);
        match event {
            Event::Failed(err) => Action::Abort(err),
            Event::Image { status, content_type, bytes } => {
                match check_image(status, content_type, bytes.as_slice()) {
                    Err(err) => Action::Abort(err),
                    Ok((c, ext)) => {
                        let req = init_request(c.as_str(), bytes.len() as u64);
                        self.phase = Phase::AwaitInit { file_name: file_name(ext.as_str()), bytes };
                        Action::Send(req)
                    },
                }
            },
            Event::Reply { status, body, payload } => {
                match cur {
                    Phase::AwaitAppend { media_id } => {
                        if is_success(status) {
                            let req = finalize_request(media_id.as_str());
                            self.phase = Phase::AwaitFinalize { media_id };
                            Action::Send(req)
                        } else {
                            Action::Abort(Error::UploadPhase { status })
                        }
                    },
                    cur => {
                        if !is_success(status) {
                            Action::Abort(Error::Api { status, body: lossy_text(body.as_slice()) })
                        } else {
                            match (cur, payload) {
                                (
                                    Phase::AwaitInit { file_name, bytes },
                                    Some(Payload::InitMedia(init)),
                                ) => {
                                    let req = append_request(init.media_id.as_str(), file_name, bytes);
                                    self.phase = Phase::AwaitAppend { media_id: init.media_id };
                                    Action::Send(req)
                                },
                                (Phase::AwaitFinalize { media_id }, Some(Payload::InitMedia(_))) => {
                                    let req = post_request(media_id.as_str());
                                    self.phase = Phase::AwaitPost { media_id };
                                    Action::Send(req)
                                },
                                (Phase::AwaitPost { .. }, Some(Payload::Tweet(t))) => {
                                    let id = t.data.id;
                                    let done = id.clone();
                                    self.phase = Phase::Done { tweet_id: done };
                                    Action::Finished { tweet_id: id }
                                },
                                _ => Action::Abort(
                                    Error::Decode { raw_body: lossy_text(body.as_slice()) },
                                ),
                            }
                        }
                    },
                }
            },
        }
    }
}

/// The upload phases come in the order INIT, APPEND, FINALIZE and then the
/// post, each only after the one before it succeeded: from each phase the only
/// request that can follow is the next phase's. APPEND and FINALIZE, and the
/// post, carry the media handle that INIT returned. A step that sends nothing
/// ends the cycle.
pub proof fn lemma_upload_phases_in_order(p: PhaseView, e: EventView)
    requires
        spec_accepts(p, e),
    ensures
        ({
            let (q, a) = spec_next(p, e);
            &&& a is Send ==> match p {
                PhaseView::FetchImage => match e {
                    EventView::Image { content_type: Some(c), bytes, .. } => q is AwaitInit
                        && a == ActionView::Send(spec_init_request(c, bytes.len())),
                    _ => false,
                },
                PhaseView::AwaitInit { file_name, bytes } => match e {
                    EventView::Reply { payload: Some(PayloadView::InitMedia { media_id }), .. } => q
                        == PhaseView::AwaitAppend { media_id } && a == ActionView::Send(
                        spec_append_request(media_id, file_name, bytes),
                    ),
                    _ => false,
                },
                PhaseView::AwaitAppend { media_id } => q == PhaseView::AwaitFinalize { media_id }
                    && a == ActionView::Send(spec_finalize_request(media_id)),
                PhaseView::AwaitFinalize { media_id } => q == PhaseView::AwaitPost { media_id }
                    && a == ActionView::Send(spec_post_request(media_id)),
                _ => false,
            }
            &&& !(a is Send) ==> spec_is_over(q)
        }),
{
}

/// An image whose type is not on the allow-list ends the cycle with
/// `UnsupportedMedia` naming the type, before any upload request.
pub proof fn lemma_unsupported_type_aborts(status: u16, content_type: Seq<char>, bytes: Seq<u8>)
    requires
        spec_success(status),
        !spec_allowed(content_type),
    ensures
        spec_next(
            PhaseView::FetchImage,
            EventView::Image { status, content_type: Some(content_type), bytes },
        ) == spec_abort(ErrorView::UnsupportedMedia { content_type }),
        !spec_accepts(PhaseView::Failed, EventView::Image { status, content_type: Some(content_type), bytes }),
{
}

/// A failure is never retried: the cycle ends with it as it came. A status
/// outside the success range ends the cycle with an `Api` error that carries
/// that status, except on APPEND, which ends it with `UploadPhase`.
pub proof fn lemma_errors_end_the_cycle(p: PhaseView, e: EventView)
    requires
        spec_accepts(p, e),
    ensures
        spec_is_over(spec_next(p, e).0) <==> spec_next(p, e).1 is Abort || spec_next(p, e).1 is Finished,
        match e {
            EventView::Failed(err) => spec_next(p, e) == spec_abort(err),
            EventView::Image { status, bytes, .. } => !spec_success(status) ==> spec_next(p, e)
                == spec_abort(ErrorView::Api { status, body: utf8_lossy_of(bytes) }),
            EventView::Reply { status, body, .. } => !spec_success(status) ==> spec_next(p, e)
                == spec_abort(
                if p is AwaitAppend {
                    ErrorView::UploadPhase { status }
                } else {
                    ErrorView::Api { status, body: utf8_lossy_of(body) }
                },
            ),
        },
{
}

} // verus!
