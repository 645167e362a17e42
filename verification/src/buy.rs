//! Issuing access keys.
//!
//! One purchase is a short conversation with the outside world: the request
//! is put into JSON, sent to the authorization service, and the response is
//! read and decoded. [`buy_get_handler`] decides each move of it; the caller
//! performs the action it names and reports the result as the next event.
//! The gateway's settings say where the authorization service is found.

use crate::api::{
    unexpected_event, Accesskey, AccesskeyRequest, AccesskeyRequestView, AccesskeyView, Status,
    StatusView, INTERNAL_ERROR,
};
use crate::auth::{
    body_failure, decode_failure, is_success, post_of, request_failure, status_outcome, AuthError,
    AuthOp, AuthPost, AuthPostView,
};
use crate::cfg::{Cfg, CfgView};
use vstd::prelude::*;

verus! {

/// Query parameters of a request for an access key.
#[derive(Clone, Copy, Debug, PartialEq, Eq, Structural)]
pub struct BuyParams {
    pub quantity: u64,
}

/// Lifetime in seconds of every access key that is asked for.
pub const ACCESSKEY_DURATION: u64 = 600;

/// The tag under which every access key is asked for.
pub open spec fn pof_type() -> Seq<char> {
    "test"@
}

/// The request sent for `quantity` operations: the quantity as given, the
/// fixed tag and the fixed lifetime.
pub open spec fn accesskey_request(quantity: u64) -> AccesskeyRequestView {
    AccesskeyRequestView { quantity, pof_type: pof_type(), duration: ACCESSKEY_DURATION }
}

/// The failure with which a purchase ends.
pub open spec fn issue_failure(desc: Seq<char>) -> StatusView {
    StatusView { code: INTERNAL_ERROR, desc }
}

/// How far a purchase has come.
#[derive(Debug, PartialEq, Eq)]
pub enum BuyState {
    /// Nothing has happened yet.
    Idle,
    /// The request is being put into JSON.
    Serializing,
    /// The request is on its way to the authorization service.
    Requesting,
    /// The response has arrived and its body is being read.
    ReadingBody,
    /// The body is being decoded.
    Decoding { body: String },
    /// The purchase has ended.
    Done,
}

/// What a [`BuyState`] holds.
pub enum BuyStateView {
    Idle,
    Serializing,
    Requesting,
    ReadingBody,
    Decoding { body: Seq<char> },
    Done,
}

impl View for BuyState {
    type V = BuyStateView;

    open spec fn view(&self) -> BuyStateView {
        match self {
            BuyState::Idle => BuyStateView::Idle,
            BuyState::Serializing => BuyStateView::Serializing,
            BuyState::Requesting => BuyStateView::Requesting,
            BuyState::ReadingBody => BuyStateView::ReadingBody,
            BuyState::Decoding { body } => BuyStateView::Decoding { body: body@ },
            BuyState::Done => BuyStateView::Done,
        }
    }
}

/// What the outside world reports to a purchase.
#[derive(Debug, PartialEq, Eq)]
pub enum BuyEvent {
    /// A caller asks for a key.
    Query(BuyParams),
    /// The request in JSON.
    Serialized(String),
    /// The request could not be put into JSON; the reason.
    SerializeFailed(String),
    /// The authorization service answered; the status of its response.
    Replied(u16),
    /// No response came; the reason.
    SendFailed(String),
    /// The body of the response.
    Body(String),
    /// The body could not be read; the reason.
    BodyFailed(String),
    /// The access key found in the body.
    Decoded(Accesskey),
    /// The body holds no access key; the reason.
    DecodeFailed(String),
}

/// What a [`BuyEvent`] holds.
pub enum BuyEventView {
    Query(BuyParams),
    Serialized(Seq<char>),
    SerializeFailed(Seq<char>),
    Replied(u16),
    SendFailed(Seq<char>),
    Body(Seq<char>),
    BodyFailed(Seq<char>),
    Decoded(AccesskeyView),
    DecodeFailed(Seq<char>),
}

impl View for BuyEvent {
    type V = BuyEventView;

    open spec fn view(&self) -> BuyEventView {
        match self {
            BuyEvent::Query(params) => BuyEventView::Query(*params),
            BuyEvent::Serialized(json) => BuyEventView::Serialized(json@),
            BuyEvent::SerializeFailed(detail) => BuyEventView::SerializeFailed(detail@),
            BuyEvent::Replied(code) => BuyEventView::Replied(*code),
            BuyEvent::SendFailed(detail) => BuyEventView::SendFailed(detail@),
            BuyEvent::Body(body) => BuyEventView::Body(body@),
            BuyEvent::BodyFailed(detail) => BuyEventView::BodyFailed(detail@),
            BuyEvent::Decoded(key) => BuyEventView::Decoded(key@),
            BuyEvent::DecodeFailed(detail) => BuyEventView::DecodeFailed(detail@),
        }
    }
}

/// What a purchase asks of the outside world next.
#[derive(Debug, PartialEq, Eq)]
pub enum BuyAction {
    /// Put this request into JSON.
    Serialize(AccesskeyRequest),
    /// Send this to the authorization service.
    Send(AuthPost),
    /// Read the body of the response.
    ReadBody,
    /// Decode this body into an access key.
    Decode(String),
    /// Answer the caller with this.
    Finish(Result<Accesskey, Status>),
}

/// What a [`BuyAction`] holds.
pub enum BuyActionView {
    Serialize(AccesskeyRequestView),
    Send(AuthPostView),
    ReadBody,
    Decode(Seq<char>),
    Finish(Result<AccesskeyView, StatusView>),
}

impl View for BuyAction {
    type V = BuyActionView;

    open spec fn view(&self) -> BuyActionView {
        match self {
            BuyAction::Serialize(request) => BuyActionView::Serialize(request@),
            BuyAction::Send(post) => BuyActionView::Send(post@),
            BuyAction::ReadBody => BuyActionView::ReadBody,
            BuyAction::Decode(body) => BuyActionView::Decode(body@),
            BuyAction::Finish(Ok(key)) => BuyActionView::Finish(Ok(key@)),
            BuyAction::Finish(Err(status)) => BuyActionView::Finish(Err(status@)),
        }
    }
}

/// The end of a purchase in failure.
pub open spec fn buy_failed(desc: Seq<char>) -> (BuyStateView, BuyActionView) {
    (BuyStateView::Done, BuyActionView::Finish(Err(issue_failure(desc))))
}

/// The move of a purchase: the state after `event` and the action to take.
///
/// A purchase that runs well goes from `Idle` through `Serializing`,
/// `Requesting`, `ReadingBody` and `Decoding` to `Done` and ends with the
/// decoded key. The failure of any step ends it at once, and so does an
/// event that the state does not await.
pub open spec fn buy_step(cfg: CfgView, state: BuyStateView, event: BuyEventView) -> (
    BuyStateView,
    BuyActionView,
) {
    match (state, event) {
        (BuyStateView::Idle, BuyEventView::Query(params)) => (
            BuyStateView::Serializing,
            BuyActionView::Serialize(accesskey_request(params.quantity)),
        ),
        (BuyStateView::Serializing, BuyEventView::Serialized(json)) => (
            BuyStateView::Requesting,
            BuyActionView::Send(post_of(cfg.auth_endpoint, AuthOp::IssueAccesskeys, json)),
        ),
        (BuyStateView::Serializing, BuyEventView::SerializeFailed(detail)) => buy_failed(detail),
        (BuyStateView::Requesting, BuyEventView::Replied(code)) => match status_outcome(
            AuthOp::IssueAccesskeys,
            code,
        ) {
            Ok(_) => (BuyStateView::ReadingBody, BuyActionView::ReadBody),
            Err(message) => buy_failed(message),
        },
        (BuyStateView::Requesting, BuyEventView::SendFailed(detail)) => buy_failed(
            request_failure(AuthOp::IssueAccesskeys, detail),
        ),
        (BuyStateView::ReadingBody, BuyEventView::Body(body)) => (
            BuyStateView::Decoding { body },
            BuyActionView::Decode(body),
        ),
        (BuyStateView::ReadingBody, BuyEventView::BodyFailed(detail)) => buy_failed(
            body_failure(detail),
        ),
        (BuyStateView::Decoding { body }, BuyEventView::Decoded(key)) => (
            BuyStateView::Done,
            BuyActionView::Finish(Ok(key)),
        ),
        (BuyStateView::Decoding { body }, BuyEventView::DecodeFailed(detail)) => buy_failed(
            decode_failure(body, detail),
        ),
        _ => buy_failed(unexpected_event()),
    }
}

/// The state of a purchase after the first `k` of `events`, begun at `Idle`.
pub open spec fn buy_state_at(cfg: CfgView, events: Seq<BuyEventView>, k: nat) -> BuyStateView
    decreases k,
{
    if k == 0 {
        BuyStateView::Idle
    } else {
        buy_step(cfg, buy_state_at(cfg, events, (k - 1) as nat), events[k - 1]).0
    }
}

/// The action that answers the event at index `k` of `events`.
pub open spec fn buy_action_at(cfg: CfgView, events: Seq<BuyEventView>, k: nat) -> BuyActionView {
    buy_step(cfg, buy_state_at(cfg, events, k), events[k as int]).1
}

/// The events still needed at most before a purchase has ended.
pub open spec fn buy_steps_left(state: BuyStateView) -> nat {
    match state {
        BuyStateView::Idle => 5,
        BuyStateView::Serializing => 4,
        BuyStateView::Requesting => 3,
        BuyStateView::ReadingBody => 2,
        BuyStateView::Decoding { .. } => 1,
        BuyStateView::Done => 0,
    }
}

/// Whether an action answers the caller, with a key or with a failure of the
/// code `INTERNAL_ERROR`.
pub open spec fn answers_with_key_or_failure(action: BuyActionView) -> bool {
    match action {
        BuyActionView::Finish(Ok(_)) => true,
        BuyActionView::Finish(Err(status)) => status.code == INTERNAL_ERROR,
        _ => false,
    }
}

/// Whatever the state and the event, a purchase answers its caller exactly
/// when it ends, and then with a key or with a failure of the code
/// `INTERNAL_ERROR`.
pub proof fn lemma_buy_ends_with_key_or_failure(
    cfg: CfgView,
    state: BuyStateView,
    event: BuyEventView,
)
    ensures
        buy_step(cfg, state, event).1 is Finish <==> buy_step(cfg, state, event).0 is Done,
        buy_step(cfg, state, event).1 is Finish <==> answers_with_key_or_failure(
            buy_step(cfg, state, event).1,
        ),
{
}

/// Whatever the event, a purchase that has not ended comes closer to its
/// end, and one that has ended stays so.
pub proof fn lemma_buy_advances(cfg: CfgView, state: BuyStateView, event: BuyEventView)
    ensures
        state is Done ==> buy_step(cfg, state, event).0 is Done,
        !(state is Done) ==> buy_steps_left(buy_step(cfg, state, event).0) < buy_steps_left(state),
{
}

/// A purchase has ended after five events, whatever they are.
pub proof fn lemma_buy_ends_within_five_events(cfg: CfgView, events: Seq<BuyEventView>, k: nat)
    requires
        k <= events.len(),
    ensures
        buy_steps_left(buy_state_at(cfg, events, k)) + k <= 5 || buy_state_at(cfg, events, k)
            is Done,
        k >= 5 ==> buy_state_at(cfg, events, k) is Done,
    decreases k,
{
    if k > 0 {
        lemma_buy_ends_within_five_events(cfg, events, (k - 1) as nat);
        lemma_buy_advances(cfg, buy_state_at(cfg, events, (k - 1) as nat), events[k - 1]);
    }
}

/// Every purchase answers its caller within five events, whatever they are,
/// with a key or with a failure of the code `INTERNAL_ERROR`.
pub proof fn lemma_buy_answers_within_five_events(cfg: CfgView, events: Seq<BuyEventView>)
    requires
        events.len() >= 5,
    ensures
        exists|k: nat|
            k < 5 && answers_with_key_or_failure(#[trigger] buy_action_at(cfg, events, k)),
{
    lemma_buy_ends_within_five_events(cfg, events, 5);
    lemma_buy_answered_before(cfg, events, 5);
}

/// A purchase that has ended after `k` events has answered one of them.
proof fn lemma_buy_answered_before(cfg: CfgView, events: Seq<BuyEventView>, k: nat)
    requires
        k <= events.len(),
        buy_state_at(cfg, events, k) is Done,
    ensures
        exists|j: nat|
            j < k && answers_with_key_or_failure(#[trigger] buy_action_at(cfg, events, j)),
    decreases k,
{
    let before = buy_state_at(cfg, events, (k - 1) as nat);
    if before is Done {
        lemma_buy_answered_before(cfg, events, (k - 1) as nat);
    } else {
        lemma_buy_ends_with_key_or_failure(cfg, before, events[k - 1]);
        assert(answers_with_key_or_failure(buy_action_at(cfg, events, (k - 1) as nat)));
    }
}

/// A purchase sends one request at most, the one that answers the second
/// event: the JSON which that event reports, as JSON, to the path
/// `issue-accesskeys` at the base URL that the gateway is set to.
pub proof fn lemma_buy_sends_once(
    cfg: CfgView,
    events: Seq<BuyEventView>,
    k: nat,
    post: AuthPostView,
)
    requires
        k < events.len(),
        buy_action_at(cfg, events, k) == BuyActionView::Send(post),
    ensures
        k == 1,
        post.uri == cfg.auth_endpoint + "issue-accesskeys"@,
        post.content_type == "application/json"@,
        events[1] == BuyEventView::Serialized(post.body),
{
    lemma_buy_state_tells_the_time(cfg, events, k);
    reveal_with_fuel(buy_state_at, 2);
}

/// While a purchase runs, its state tells how many events have come.
proof fn lemma_buy_state_tells_the_time(cfg: CfgView, events: Seq<BuyEventView>, k: nat)
    ensures
        buy_state_at(cfg, events, k) is Done || buy_steps_left(buy_state_at(cfg, events, k)) + k
            == 5,
    decreases k,
{
    if k > 0 {
        lemma_buy_state_tells_the_time(cfg, events, (k - 1) as nat);
    }
}

/// Every key that a purchase ends with, in whatever run, is the key that was
/// decoded from the body of a successful response: it answers the fifth
/// event, after a query, a serialization, a response with a status of
/// success and its body.
pub proof fn lemma_every_key_is_decoded(
    cfg: CfgView,
    events: Seq<BuyEventView>,
    k: nat,
    key: AccesskeyView,
)
    requires
        k < events.len(),
        buy_action_at(cfg, events, k) == BuyActionView::Finish(Ok(key)),
    ensures
        k == 4,
        events[0] is Query,
        events[1] is Serialized,
        events[2] matches BuyEventView::Replied(code) && is_success(code),
        events[3] is Body,
        events[4] == BuyEventView::Decoded(key),
{
    lemma_buy_state_tells_the_time(cfg, events, k);
    reveal_with_fuel(buy_state_at, 5);
}

/// A purchase in which every step succeeds asks for `quantity` operations
/// under the fixed tag and lifetime, posts the JSON it is given to the
/// authorization service, and ends with the key that was decoded.
pub proof fn lemma_buy_issues_the_decoded_key(
    cfg: CfgView,
    quantity: u64,
    json: Seq<char>,
    code: u16,
    body: Seq<char>,
    key: AccesskeyView,
)
    requires
        is_success(code),
    ensures
        ({
            let events = seq![
                BuyEventView::Query(BuyParams { quantity }),
                BuyEventView::Serialized(json),
                BuyEventView::Replied(code),
                BuyEventView::Body(body),
                BuyEventView::Decoded(key),
            ];
            &&& buy_action_at(cfg, events, 0) == BuyActionView::Serialize(
                accesskey_request(quantity),
            )
            &&& buy_action_at(cfg, events, 1) == BuyActionView::Send(
                post_of(cfg.auth_endpoint, AuthOp::IssueAccesskeys, json),
            )
            &&& buy_action_at(cfg, events, 2) == BuyActionView::ReadBody
            &&& buy_action_at(cfg, events, 3) == BuyActionView::Decode(body)
            &&& buy_action_at(cfg, events, 4) == BuyActionView::Finish(Ok(key))
        }),
{
    reveal_with_fuel(buy_state_at, 6);
}

/// Ends a purchase with the failure that `desc` describes.
fn fail(desc: String) -> (end: (BuyState, BuyAction))
    ensures
        (end.0@, end.1@) == buy_failed(desc@),
{
    (BuyState::Done, BuyAction::Finish(Err(Status { code: INTERNAL_ERROR, desc })))
}

/// Ends a purchase over an event that its state does not await.
fn reject() -> (end: (BuyState, BuyAction))
    ensures
        (end.0@, end.1@) == buy_failed(unexpected_event()),
{
    fail(String::from_str("unexpected event"))
}

/// Decides the next move of a purchase.
pub fn buy_get_handler(cfg: &Cfg, state: BuyState, event: BuyEvent) -> (next: (
    BuyState,
    BuyAction,
))
    ensures
        (next.0@, next.1@) == buy_step(cfg@, state@, event@),
{
    match state {
        BuyState::Idle => match event {
            BuyEvent::Query(params) => {
                let request = AccesskeyRequest {
                    quantity: params.quantity,
                    pof_type: String::from_str("test"),
                    duration: ACCESSKEY_DURATION,
                };
                (BuyState::Serializing, BuyAction::Serialize(request))
            },
            _ => reject(),
        },
        BuyState::Serializing => match event {
            BuyEvent::Serialized(json) => (
                BuyState::Requesting,
                BuyAction::Send(AuthOp::IssueAccesskeys.post(cfg.auth_endpoint.as_str(), json)),
            ),
            BuyEvent::SerializeFailed(detail) => fail(detail),
            _ => reject(),
        },
        BuyState::Requesting => match event {
            BuyEvent::Replied(code) => match AuthOp::IssueAccesskeys.check_status(code) {
                Ok(_) => (BuyState::ReadingBody, BuyAction::ReadBody),
                Err(error) => fail(error.message),
            },
            BuyEvent::SendFailed(detail) => fail(
                AuthOp::IssueAccesskeys.request_failed(detail.as_str()).message,
            ),
            _ => reject(),
        },
        BuyState::ReadingBody => match event {
            BuyEvent::Body(body) => {
                let copy = body.clone();
                (BuyState::Decoding { body }, BuyAction::Decode(copy))
            },
            BuyEvent::BodyFailed(detail) => fail(AuthError::body_failed(detail.as_str()).message),
            _ => reject(),
        },
        BuyState::Decoding { body } => match event {
            BuyEvent::Decoded(key) => (BuyState::Done, BuyAction::Finish(Ok(key))),
            BuyEvent::DecodeFailed(detail) => fail(
                AuthError::decode_failed(body.as_str(), detail.as_str()).message,
            ),
            _ => reject(),
        },
        BuyState::Done => reject(),
    }
}

} // verus!
