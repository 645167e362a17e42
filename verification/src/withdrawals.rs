//! Processing withdrawals and reporting on them.
//!
//! A withdrawal request is put into JSON and shown to the authorization
//! service. Once the service has accepted it, its destination decides what
//! becomes of it: two destinations are reserved to ask for a failure or for a
//! withdrawal that stays pending; every other one is worked on for a moment
//! and completed. [`withdrawals_post_handler`] decides each move; the caller
//! performs the action it names and reports the result as the next event.
//! The gateway's settings say where the authorization service is found.

use crate::api::{
    unexpected_event, Status, StatusView, Withdrawal, WithdrawalRequest, WithdrawalRequestView,
    WithdrawalState, WithdrawalStateData, WithdrawalView, BAD_REQUEST, INTERNAL_ERROR,
};
use crate::auth::{
    is_success, post_of, request_failure, status_detail, status_outcome, AuthOp, AuthPost,
    AuthPostView,
};
use crate::cfg::{Cfg, CfgView};
use crate::nonce::{hex_of, lemma_hex_injective, mk_nonce, NONCE_BYTES};
use vstd::prelude::*;

verus! {

/// Seconds of work on a withdrawal before it is complete.
pub const PROCESSING_SECONDS: u64 = 1;

/// What the destination of an accepted request asks for.
#[derive(Clone, Copy, Debug, PartialEq, Eq, Structural)]
pub enum Decision {
    /// Fail the request.
    Fail,
    /// Record the withdrawal in this state.
    Record(WithdrawalState),
}

/// The destination that asks for a failure.
pub open spec fn want_error() -> Seq<char> {
    "want_error"@
}

/// The destination that asks for a pending withdrawal.
pub open spec fn want_pending() -> Seq<char> {
    "want_pending"@
}

/// The description of the failure that was asked for.
pub open spec fn failed_as_requested() -> Seq<char> {
    "as requested, withdrawal failed with error!"@
}

/// The receipt of every withdrawal.
pub open spec fn receipt() -> Seq<char> {
    "RECEIPT"@
}

/// What a destination asks for.
pub open spec fn decide(destination: Seq<char>) -> Decision {
    if destination == want_error() {
        Decision::Fail
    } else if destination == want_pending() {
        Decision::Record(WithdrawalState::Pending)
    } else {
        Decision::Record(WithdrawalState::Complete)
    }
}

/// The record of a withdrawal: an identifier made of `entropy`, the state
/// with the time it was entered, the request as it came, and the receipt.
pub open spec fn withdrawal_of(
    request: WithdrawalRequestView,
    state: WithdrawalState,
    entropy: Seq<u8>,
    now: u64,
) -> WithdrawalView {
    WithdrawalView {
        id: hex_of(entropy),
        state_data: WithdrawalStateData { state, state_changed: now },
        withdrawal_request: request,
        receipt: receipt(),
    }
}

/// How far the processing of a withdrawal has come.
#[derive(Debug, PartialEq, Eq)]
pub enum ProcessState {
    /// Nothing has happened yet.
    Idle,
    /// The request is being put into JSON.
    Serializing { request: WithdrawalRequest },
    /// The request is with the authorization service.
    Verifying { request: WithdrawalRequest },
    /// The withdrawal is being worked on.
    Working { request: WithdrawalRequest },
    /// The record awaits its identifier and its time.
    Stamping { request: WithdrawalRequest, state: WithdrawalState },
    /// The processing has ended.
    Done,
}

/// What a [`ProcessState`] holds.
pub enum ProcessStateView {
    Idle,
    Serializing { request: WithdrawalRequestView },
    Verifying { request: WithdrawalRequestView },
    Working { request: WithdrawalRequestView },
    Stamping { request: WithdrawalRequestView, state: WithdrawalState },
    Done,
}

impl View for ProcessState {
    type V = ProcessStateView;

    open spec fn view(&self) -> ProcessStateView {
        match self {
            ProcessState::Idle => ProcessStateView::Idle,
            ProcessState::Serializing { request } => ProcessStateView::Serializing {
                request: request@,
            },
            ProcessState::Verifying { request } => ProcessStateView::Verifying {
                request: request@,
            },
            ProcessState::Working { request } => ProcessStateView::Working { request: request@ },
            ProcessState::Stamping { request, state } => ProcessStateView::Stamping {
                request: request@,
                state: *state,
            },
            ProcessState::Done => ProcessStateView::Done,
        }
    }
}

/// What the outside world reports to the processing of a withdrawal.
#[derive(Debug, PartialEq, Eq)]
pub enum ProcessEvent {
    /// A caller's request.
    Request(WithdrawalRequest),
    /// A caller sent what is no request; the parser's message.
    Malformed(String),
    /// The request in JSON.
    Serialized(String),
    /// The request could not be put into JSON; the reason.
    SerializeFailed(String),
    /// The authorization service answered; the status of its response.
    Replied(u16),
    /// No response came; the reason.
    SendFailed(String),
    /// The time of work has passed.
    Worked,
    /// Fresh random bytes and the time in seconds since the Unix epoch.
    Stamped { entropy: [u8; NONCE_BYTES], now: u64 },
}

/// What a [`ProcessEvent`] holds.
pub enum ProcessEventView {
    Request(WithdrawalRequestView),
    Malformed(Seq<char>),
    Serialized(Seq<char>),
    SerializeFailed(Seq<char>),
    Replied(u16),
    SendFailed(Seq<char>),
    Worked,
    Stamped { entropy: Seq<u8>, now: u64 },
}

impl View for ProcessEvent {
    type V = ProcessEventView;

    open spec fn view(&self) -> ProcessEventView {
        match self {
            ProcessEvent::Request(request) => ProcessEventView::Request(request@),
            ProcessEvent::Malformed(detail) => ProcessEventView::Malformed(detail@),
            ProcessEvent::Serialized(json) => ProcessEventView::Serialized(json@),
            ProcessEvent::SerializeFailed(detail) => ProcessEventView::SerializeFailed(detail@),
            ProcessEvent::Replied(code) => ProcessEventView::Replied(*code),
            ProcessEvent::SendFailed(detail) => ProcessEventView::SendFailed(detail@),
            ProcessEvent::Worked => ProcessEventView::Worked,
            ProcessEvent::Stamped { entropy, now } => ProcessEventView::Stamped {
                entropy: entropy@,
                now: *now,
            },
        }
    }
}

/// What the processing of a withdrawal asks of the outside world next.
#[derive(Debug, PartialEq, Eq)]
pub enum ProcessAction {
    /// Put this request into JSON.
    Serialize(WithdrawalRequest),
    /// Send this to the authorization service.
    Send(AuthPost),
    /// Let this many seconds pass.
    Work { seconds: u64 },
    /// Draw fresh random bytes and read the clock.
    Stamp,
    /// Answer the caller with this.
    Finish(Result<Withdrawal, Status>),
}

/// What a [`ProcessAction`] holds.
pub enum ProcessActionView {
    Serialize(WithdrawalRequestView),
    Send(AuthPostView),
    Work { seconds: u64 },
    Stamp,
    Finish(Result<WithdrawalView, StatusView>),
}

impl View for ProcessAction {
    type V = ProcessActionView;

    open spec fn view(&self) -> ProcessActionView {
        match self {
            ProcessAction::Serialize(request) => ProcessActionView::Serialize(request@),
            ProcessAction::Send(post) => ProcessActionView::Send(post@),
            ProcessAction::Work { seconds } => ProcessActionView::Work { seconds: *seconds },
            ProcessAction::Stamp => ProcessActionView::Stamp,
            ProcessAction::Finish(Ok(withdrawal)) => ProcessActionView::Finish(Ok(withdrawal@)),
            ProcessAction::Finish(Err(status)) => ProcessActionView::Finish(Err(status@)),
        }
    }
}

/// The answer that refuses the caller with a code and a description.
pub open spec fn refusal(code: u16, desc: Seq<char>) -> ProcessActionView {
    ProcessActionView::Finish(Err(StatusView { code, desc }))
}

/// The end of the processing in failure.
pub open spec fn process_failed(code: u16, desc: Seq<char>) -> (
    ProcessStateView,
    ProcessActionView,
) {
    (ProcessStateView::Done, refusal(code, desc))
}

/// The move after the authorization service has accepted `request`.
pub open spec fn process_accepted(request: WithdrawalRequestView) -> (
    ProcessStateView,
    ProcessActionView,
) {
    match decide(request.destination) {
        Decision::Fail => process_failed(BAD_REQUEST, failed_as_requested()),
        Decision::Record(WithdrawalState::Pending) => (
            ProcessStateView::Stamping { request, state: WithdrawalState::Pending },
            ProcessActionView::Stamp,
        ),
        Decision::Record(WithdrawalState::Complete) => (
            ProcessStateView::Working { request },
            ProcessActionView::Work { seconds: PROCESSING_SECONDS },
        ),
    }
}

/// The move of the processing: the state after `event` and the action to
/// take.
///
/// What is no request fails with [`BAD_REQUEST`] and the parser's message. A
/// request that cannot be put into JSON, or that the authorization service
/// does not accept with a successful response, fails with
/// [`INTERNAL_ERROR`]. An accepted request goes the way its destination asks
/// for. An event that the state does not await fails with [`INTERNAL_ERROR`].
pub open spec fn process_step(cfg: CfgView, state: ProcessStateView, event: ProcessEventView) -> (
    ProcessStateView,
    ProcessActionView,
) {
    match (state, event) {
        (ProcessStateView::Idle, ProcessEventView::Request(request)) => (
            ProcessStateView::Serializing { request },
            ProcessActionView::Serialize(request),
        ),
        (ProcessStateView::Idle, ProcessEventView::Malformed(detail)) => process_failed(
            BAD_REQUEST,
            detail,
        ),
        (ProcessStateView::Serializing { request }, ProcessEventView::Serialized(json)) => (
            ProcessStateView::Verifying { request },
            ProcessActionView::Send(post_of(cfg.auth_endpoint, AuthOp::VerifyWithdrawal, json)),
        ),
        (
            ProcessStateView::Serializing { request },
            ProcessEventView::SerializeFailed(detail),
        ) => process_failed(INTERNAL_ERROR, detail),
        (ProcessStateView::Verifying { request }, ProcessEventView::Replied(code)) => {
            match status_outcome(AuthOp::VerifyWithdrawal, code) {
                Ok(_) => process_accepted(request),
                Err(message) => process_failed(INTERNAL_ERROR, message),
            }
        },
        (ProcessStateView::Verifying { request }, ProcessEventView::SendFailed(detail)) => {
            process_failed(INTERNAL_ERROR, request_failure(AuthOp::VerifyWithdrawal, detail))
        },
        (ProcessStateView::Working { request }, ProcessEventView::Worked) => (
            ProcessStateView::Stamping { request, state: WithdrawalState::Complete },
            ProcessActionView::Stamp,
        ),
        (
            ProcessStateView::Stamping { request, state },
            ProcessEventView::Stamped { entropy, now },
        ) => (
            ProcessStateView::Done,
            ProcessActionView::Finish(Ok(withdrawal_of(request, state, entropy, now))),
        ),
        _ => process_failed(INTERNAL_ERROR, unexpected_event()),
    }
}

/// The state of the processing after the first `k` of `events`, begun at
/// `Idle`.
pub open spec fn process_state_at(
    cfg: CfgView,
    events: Seq<ProcessEventView>,
    k: nat,
) -> ProcessStateView
    decreases k,
{
    if k == 0 {
        ProcessStateView::Idle
    } else {
        process_step(cfg, process_state_at(cfg, events, (k - 1) as nat), events[k - 1]).0
    }
}

/// The action that answers the event at index `k` of `events`.
pub open spec fn process_action_at(
    cfg: CfgView,
    events: Seq<ProcessEventView>,
    k: nat,
) -> ProcessActionView {
    process_step(cfg, process_state_at(cfg, events, k), events[k as int]).1
}

/// The events still needed at most before the processing has ended.
pub open spec fn process_steps_left(state: ProcessStateView) -> nat {
    match state {
        ProcessStateView::Idle => 5,
        ProcessStateView::Serializing { .. } => 4,
        ProcessStateView::Verifying { .. } => 3,
        ProcessStateView::Working { .. } => 2,
        ProcessStateView::Stamping { .. } => 1,
        ProcessStateView::Done => 0,
    }
}

/// Whether an action answers the caller, with a record or with a failure of
/// the code `BAD_REQUEST` or `INTERNAL_ERROR`.
pub open spec fn answers_with_record_or_failure(action: ProcessActionView) -> bool {
    match action {
        ProcessActionView::Finish(Ok(_)) => true,
        ProcessActionView::Finish(Err(status)) => status.code == BAD_REQUEST || status.code
            == INTERNAL_ERROR,
        _ => false,
    }
}

/// Whatever the state and the event, the processing answers its caller
/// exactly when it ends, and then with a record or with a failure of the
/// code `BAD_REQUEST` or `INTERNAL_ERROR`.
pub proof fn lemma_process_ends_with_record_or_failure(
    cfg: CfgView,
    state: ProcessStateView,
    event: ProcessEventView,
)
    ensures
        process_step(cfg, state, event).1 is Finish <==> process_step(cfg, state, event).0 is Done,
        process_step(cfg, state, event).1 is Finish <==> answers_with_record_or_failure(
            process_step(cfg, state, event).1,
        ),
{
}

/// Whatever the event, processing that has not ended comes closer to its
/// end, and processing that has ended stays so.
pub proof fn lemma_process_advances(cfg: CfgView, state: ProcessStateView, event: ProcessEventView)
    ensures
        state is Done ==> process_step(cfg, state, event).0 is Done,
        !(state is Done) ==> process_steps_left(process_step(cfg, state, event).0)
            < process_steps_left(state),
{
}

/// The processing has ended after five events, whatever they are.
pub proof fn lemma_process_ends_within_five_events(
    cfg: CfgView,
    events: Seq<ProcessEventView>,
    k: nat,
)
    requires
        k <= events.len(),
    ensures
        process_steps_left(process_state_at(cfg, events, k)) + k <= 5 || process_state_at(
            cfg,
            events,
            k,
        ) is Done,
        k >= 5 ==> process_state_at(cfg, events, k) is Done,
    decreases k,
{
    if k > 0 {
        lemma_process_ends_within_five_events(cfg, events, (k - 1) as nat);
        lemma_process_advances(cfg, process_state_at(cfg, events, (k - 1) as nat), events[k - 1]);
    }
}

/// The processing answers its caller within five events, whatever they are,
/// with a record or with a failure of the code `BAD_REQUEST` or
/// `INTERNAL_ERROR`.
pub proof fn lemma_process_answers_within_five_events(cfg: CfgView, events: Seq<ProcessEventView>)
    requires
        events.len() >= 5,
    ensures
        exists|k: nat|
            k < 5 && answers_with_record_or_failure(#[trigger] process_action_at(cfg, events, k)),
{
    lemma_process_ends_within_five_events(cfg, events, 5);
    lemma_process_answered_before(cfg, events, 5);
}

/// Processing that has ended after `k` events has answered one of them.
proof fn lemma_process_answered_before(cfg: CfgView, events: Seq<ProcessEventView>, k: nat)
    requires
        k <= events.len(),
        process_state_at(cfg, events, k) is Done,
    ensures
        exists|j: nat|
            j < k && answers_with_record_or_failure(#[trigger] process_action_at(cfg, events, j)),
    decreases k,
{
    let before = process_state_at(cfg, events, (k - 1) as nat);
    if before is Done {
        lemma_process_answered_before(cfg, events, (k - 1) as nat);
    } else {
        lemma_process_ends_with_record_or_failure(cfg, before, events[k - 1]);
        assert(answers_with_record_or_failure(process_action_at(cfg, events, (k - 1) as nat)));
    }
}

/// A record is made in one way only: of the request and the state that
/// await their stamp, and of the random bytes and the time that arrive.
pub proof fn lemma_record_is_stamped(
    cfg: CfgView,
    state: ProcessStateView,
    event: ProcessEventView,
    withdrawal: WithdrawalView,
)
    requires
        process_step(cfg, state, event).1 == ProcessActionView::Finish(Ok(withdrawal)),
    ensures
        ({
            &&& state matches ProcessStateView::Stamping { request, state: entered }
            &&& event matches ProcessEventView::Stamped { entropy, now }
            &&& withdrawal == withdrawal_of(request, entered, entropy, now)
        }),
{
}

/// A request comes to await its stamp in two ways only: as pending, when the
/// authorization service accepts a request whose destination asks for that;
/// as complete, when the work on it has been done.
pub proof fn lemma_stamp_is_earned(
    cfg: CfgView,
    state: ProcessStateView,
    event: ProcessEventView,
    request: WithdrawalRequestView,
    entered: WithdrawalState,
)
    requires
        process_step(cfg, state, event).0 == (ProcessStateView::Stamping {
            request,
            state: entered,
        }),
    ensures
        process_step(cfg, state, event).1 == ProcessActionView::Stamp,
        entered == WithdrawalState::Pending ==> ({
            &&& state == (ProcessStateView::Verifying { request })
            &&& event matches ProcessEventView::Replied(code) && is_success(code)
            &&& decide(request.destination) == Decision::Record(WithdrawalState::Pending)
        }),
        entered == WithdrawalState::Complete ==> ({
            &&& state == (ProcessStateView::Working { request })
            &&& event == ProcessEventView::Worked
        }),
{
}

/// Work begins in one way only: when the authorization service accepts a
/// request whose destination asks for nothing else. It lasts
/// `PROCESSING_SECONDS`.
pub proof fn lemma_work_is_ordered(
    cfg: CfgView,
    state: ProcessStateView,
    event: ProcessEventView,
    request: WithdrawalRequestView,
)
    requires
        process_step(cfg, state, event).0 == (ProcessStateView::Working { request }),
    ensures
        process_step(cfg, state, event).1 == (ProcessActionView::Work {
            seconds: PROCESSING_SECONDS,
        }),
        state == (ProcessStateView::Verifying { request }),
        event matches ProcessEventView::Replied(code) && is_success(code),
        decide(request.destination) == Decision::Record(WithdrawalState::Complete),
{
}

/// What is no request is refused with `BAD_REQUEST` and the parser's message,
/// at once.
pub proof fn lemma_malformed_request_is_refused(
    cfg: CfgView,
    events: Seq<ProcessEventView>,
    detail: Seq<char>,
)
    requires
        events.len() >= 1,
        events[0] == ProcessEventView::Malformed(detail),
    ensures
        process_action_at(cfg, events, 0) == refusal(BAD_REQUEST, detail),
{
}

/// How the failure reads when the authorization service does not accept a
/// request: for want of a successful response, or of any.
pub open spec fn verification_failure(event: ProcessEventView) -> Seq<char> {
    match event {
        ProcessEventView::Replied(code) => request_failure(
            AuthOp::VerifyWithdrawal,
            status_detail(code),
        ),
        ProcessEventView::SendFailed(detail) => request_failure(AuthOp::VerifyWithdrawal, detail),
        _ => unexpected_event(),
    }
}

/// A request that the authorization service does not accept, for want of a
/// response or of a successful one, fails with `INTERNAL_ERROR`, whatever
/// its destination.
pub proof fn lemma_unverified_request_fails(
    cfg: CfgView,
    events: Seq<ProcessEventView>,
    request: WithdrawalRequestView,
    json: Seq<char>,
)
    requires
        events.len() >= 3,
        events[0] == ProcessEventView::Request(request),
        events[1] == ProcessEventView::Serialized(json),
        events[2] matches ProcessEventView::Replied(code) ==> !is_success(code),
        events[2] is Replied || events[2] is SendFailed,
    ensures
        process_action_at(cfg, events, 2) == refusal(
            INTERNAL_ERROR,
            verification_failure(events[2]),
        ),
{
    reveal_with_fuel(process_state_at, 3);
}

/// An accepted request whose destination asks for a failure fails with
/// `BAD_REQUEST` and the fixed description.
pub proof fn lemma_error_request_fails(
    cfg: CfgView,
    events: Seq<ProcessEventView>,
    request: WithdrawalRequestView,
    json: Seq<char>,
    code: u16,
)
    requires
        request.destination == want_error(),
        is_success(code),
        events.len() >= 3,
        events[0] == ProcessEventView::Request(request),
        events[1] == ProcessEventView::Serialized(json),
        events[2] == ProcessEventView::Replied(code),
    ensures
        process_action_at(cfg, events, 0) == ProcessActionView::Serialize(request),
        process_action_at(cfg, events, 1) == ProcessActionView::Send(
            post_of(cfg.auth_endpoint, AuthOp::VerifyWithdrawal, json),
        ),
        process_action_at(cfg, events, 2) == refusal(BAD_REQUEST, failed_as_requested()),
{
    reveal_with_fuel(process_state_at, 3);
}

/// A request whose destination asks for a failure never yields a record,
/// whatever events follow it.
pub proof fn lemma_error_request_is_never_recorded(
    cfg: CfgView,
    events: Seq<ProcessEventView>,
    request: WithdrawalRequestView,
    k: nat,
)
    requires
        request.destination == want_error(),
        k < events.len(),
        events[0] == ProcessEventView::Request(request),
    ensures
        !(process_action_at(cfg, events, k) matches ProcessActionView::Finish(Ok(_))),
{
    lemma_error_request_stays_unstamped(cfg, events, request, k);
}

/// The states that a request which asks for a failure can be in.
proof fn lemma_error_request_stays_unstamped(
    cfg: CfgView,
    events: Seq<ProcessEventView>,
    request: WithdrawalRequestView,
    k: nat,
)
    requires
        request.destination == want_error(),
        k <= events.len(),
        events[0] == ProcessEventView::Request(request),
    ensures
        ({
            let state = process_state_at(cfg, events, k);
            ||| state is Idle && k == 0
            ||| state == (ProcessStateView::Serializing { request })
            ||| state == (ProcessStateView::Verifying { request })
            ||| state is Done
        }),
    decreases k,
{
    if k > 0 {
        lemma_error_request_stays_unstamped(cfg, events, request, (k - 1) as nat);
    }
}

/// An accepted request whose destination asks for a pending withdrawal is
/// recorded as pending with no work in between: the stamp is asked for as
/// soon as the authorization service has answered.
pub proof fn lemma_pending_request_is_recorded_at_once(
    cfg: CfgView,
    events: Seq<ProcessEventView>,
    request: WithdrawalRequestView,
    json: Seq<char>,
    code: u16,
    entropy: Seq<u8>,
    now: u64,
)
    requires
        request.destination == want_pending(),
        is_success(code),
        events.len() >= 4,
        events[0] == ProcessEventView::Request(request),
        events[1] == ProcessEventView::Serialized(json),
        events[2] == ProcessEventView::Replied(code),
        events[3] == (ProcessEventView::Stamped { entropy, now }),
    ensures
        process_action_at(cfg, events, 0) == ProcessActionView::Serialize(request),
        process_action_at(cfg, events, 1) == ProcessActionView::Send(
            post_of(cfg.auth_endpoint, AuthOp::VerifyWithdrawal, json),
        ),
        process_action_at(cfg, events, 2) == ProcessActionView::Stamp,
        process_action_at(cfg, events, 3) == ProcessActionView::Finish(
            Ok(withdrawal_of(request, WithdrawalState::Pending, entropy, now)),
        ),
{
    reveal_with_fuel(process_state_at, 4);
    lemma_reserved_destinations_differ();
}

/// An accepted request with any other destination is worked on for
/// `PROCESSING_SECONDS` and then recorded as complete, as of the time read
/// after the work.
pub proof fn lemma_other_request_is_completed_after_work(
    cfg: CfgView,
    events: Seq<ProcessEventView>,
    request: WithdrawalRequestView,
    json: Seq<char>,
    code: u16,
    entropy: Seq<u8>,
    now: u64,
)
    requires
        request.destination != want_error(),
        request.destination != want_pending(),
        is_success(code),
        events.len() >= 5,
        events[0] == ProcessEventView::Request(request),
        events[1] == ProcessEventView::Serialized(json),
        events[2] == ProcessEventView::Replied(code),
        events[3] == ProcessEventView::Worked,
        events[4] == (ProcessEventView::Stamped { entropy, now }),
    ensures
        process_action_at(cfg, events, 0) == ProcessActionView::Serialize(request),
        process_action_at(cfg, events, 1) == ProcessActionView::Send(
            post_of(cfg.auth_endpoint, AuthOp::VerifyWithdrawal, json),
        ),
        process_action_at(cfg, events, 2) == (ProcessActionView::Work {
            seconds: PROCESSING_SECONDS,
        }),
        process_action_at(cfg, events, 3) == ProcessActionView::Stamp,
        process_action_at(cfg, events, 4) == ProcessActionView::Finish(
            Ok(withdrawal_of(request, WithdrawalState::Complete, entropy, now)),
        ),
{
    reveal_with_fuel(process_state_at, 5);
}

/// The two reserved destinations are different texts.
pub proof fn lemma_reserved_destinations_differ()
    ensures
        want_error() != want_pending(),
{
    reveal_strlit("want_error");
    reveal_strlit("want_pending");
    assert(want_error().len() != want_pending().len());
}

/// Every record, in whatever run it is made, is the record of the request
/// that began the run, made after the authorization service accepted it, in
/// the state its destination asks for, and stamped with the random bytes and
/// the time that came last. A pending one answers the fourth event: its
/// stamp was asked for as soon as the request was accepted, with no work in
/// between. A complete one answers the fifth, after the work was ordered and
/// reported done.
pub proof fn lemma_every_record_is_earned(
    cfg: CfgView,
    events: Seq<ProcessEventView>,
    k: nat,
    withdrawal: WithdrawalView,
)
    requires
        k < events.len(),
        process_action_at(cfg, events, k) == ProcessActionView::Finish(Ok(withdrawal)),
    ensures
        events[0] == ProcessEventView::Request(withdrawal.withdrawal_request),
        events[1] is Serialized,
        events[2] matches ProcessEventView::Replied(code) && is_success(code),
        decide(withdrawal.withdrawal_request.destination) == Decision::Record(
            withdrawal.state_data.state,
        ),
        ({
            &&& events[k as int] matches ProcessEventView::Stamped { entropy, now }
            &&& withdrawal == withdrawal_of(
                withdrawal.withdrawal_request,
                withdrawal.state_data.state,
                entropy,
                now,
            )
        }),
        withdrawal.state_data.state == WithdrawalState::Pending ==> ({
            &&& k == 3
            &&& process_action_at(cfg, events, 2) == ProcessActionView::Stamp
        }),
        withdrawal.state_data.state == WithdrawalState::Complete ==> ({
            &&& k == 4
            &&& process_action_at(cfg, events, 2) == (ProcessActionView::Work {
                seconds: PROCESSING_SECONDS,
            })
            &&& events[3] == ProcessEventView::Worked
        }),
{
    lemma_process_state_tells_the_time(cfg, events, k);
    reveal_with_fuel(process_state_at, 5);
}

/// While the processing runs, its state tells how many events have come, but
/// for the work that a pending withdrawal skips.
proof fn lemma_process_state_tells_the_time(cfg: CfgView, events: Seq<ProcessEventView>, k: nat)
    ensures
        ({
            let state = process_state_at(cfg, events, k);
            ||| state is Done
            ||| process_steps_left(state) + k == 5
            ||| state matches ProcessStateView::Stamping { state: WithdrawalState::Pending, .. }
                && k == 3
        }),
    decreases k,
{
    if k > 0 {
        lemma_process_state_tells_the_time(cfg, events, (k - 1) as nat);
    }
}

/// The processing sends one request at most, the one that answers the
/// second event: the JSON which that event reports, as JSON, to the path
/// `verify-withdrawal-request` at the base URL that the gateway is set to.
pub proof fn lemma_process_sends_once(
    cfg: CfgView,
    events: Seq<ProcessEventView>,
    k: nat,
    post: AuthPostView,
)
    requires
        k < events.len(),
        process_action_at(cfg, events, k) == ProcessActionView::Send(post),
    ensures
        k == 1,
        post.uri == cfg.auth_endpoint + "verify-withdrawal-request"@,
        post.content_type == "application/json"@,
        events[1] == ProcessEventView::Serialized(post.body),
{
    lemma_process_state_tells_the_time(cfg, events, k);
    reveal_with_fuel(process_state_at, 2);
}

/// Records made of different random bytes have different identifiers.
pub proof fn lemma_fresh_entropy_gives_fresh_id(
    first: WithdrawalView,
    second: WithdrawalView,
    request1: WithdrawalRequestView,
    state1: WithdrawalState,
    entropy1: Seq<u8>,
    now1: u64,
    request2: WithdrawalRequestView,
    state2: WithdrawalState,
    entropy2: Seq<u8>,
    now2: u64,
)
    requires
        first == withdrawal_of(request1, state1, entropy1, now1),
        second == withdrawal_of(request2, state2, entropy2, now2),
        entropy1 != entropy2,
    ensures
        first.id != second.id,
{
    if first.id == second.id {
        lemma_hex_injective(entropy1, entropy2);
    }
}

/// Reads what a destination asks for.
pub fn decision(destination: &String) -> (asked: Decision)
    ensures
        asked == decide(destination@),
{
    if *destination == String::from_str("want_error") {
        Decision::Fail
    } else if *destination == String::from_str("want_pending") {
        Decision::Record(WithdrawalState::Pending)
    } else {
        Decision::Record(WithdrawalState::Complete)
    }
}

/// Builds the record of a withdrawal.
pub fn record(
    request: WithdrawalRequest,
    state: WithdrawalState,
    entropy: &[u8; NONCE_BYTES],
    now: u64,
) -> (withdrawal: Withdrawal)
    ensures
        withdrawal@ == withdrawal_of(request@, state, entropy@, now),
{
    Withdrawal {
        id: mk_nonce(entropy.as_slice()),
        state_data: WithdrawalStateData { state, state_changed: now },
        withdrawal_request: request,
        receipt: String::from_str("RECEIPT"),
    }
}

/// Ends the processing with a failure.
fn fail(code: u16, desc: String) -> (end: (ProcessState, ProcessAction))
    ensures
        (end.0@, end.1@) == process_failed(code, desc@),
{
    (ProcessState::Done, ProcessAction::Finish(Err(Status { code, desc })))
}

/// Ends the processing over an event that its state does not await.
fn reject() -> (end: (ProcessState, ProcessAction))
    ensures
        (end.0@, end.1@) == process_failed(INTERNAL_ERROR, unexpected_event()),
{
    fail(INTERNAL_ERROR, String::from_str("unexpected event"))
}

/// Moves on with a request that the authorization service has accepted.
fn accept(request: WithdrawalRequest) -> (next: (ProcessState, ProcessAction))
    ensures
        (next.0@, next.1@) == process_accepted(request@),
{
    match decision(&request.destination) {
        Decision::Fail => fail(
            BAD_REQUEST,
            String::from_str("as requested, withdrawal failed with error!"),
        ),
        Decision::Record(WithdrawalState::Pending) => (
            ProcessState::Stamping { request, state: WithdrawalState::Pending },
            ProcessAction::Stamp,
        ),
        Decision::Record(WithdrawalState::Complete) => (
            ProcessState::Working { request },
            ProcessAction::Work { seconds: PROCESSING_SECONDS },
        ),
    }
}

/// Decides the next move of the processing of a withdrawal.
pub fn withdrawals_post_handler(cfg: &Cfg, state: ProcessState, event: ProcessEvent) -> (next: (
    ProcessState,
    ProcessAction,
))
    ensures
        (next.0@, next.1@) == process_step(cfg@, state@, event@),
{
    match state {
        ProcessState::Idle => match event {
            ProcessEvent::Request(request) => {
                let copy = request.clone();
                (ProcessState::Serializing { request }, ProcessAction::Serialize(copy))
            },
            ProcessEvent::Malformed(detail) => fail(BAD_REQUEST, detail),
            _ => reject(),
        },
        ProcessState::Serializing { request } => match event {
            ProcessEvent::Serialized(json) => (
                ProcessState::Verifying { request },
                ProcessAction::Send(
                    AuthOp::VerifyWithdrawal.post(cfg.auth_endpoint.as_str(), json),
                ),
            ),
            ProcessEvent::SerializeFailed(detail) => fail(INTERNAL_ERROR, detail),
            _ => reject(),
        },
        ProcessState::Verifying { request } => match event {
            ProcessEvent::Replied(code) => match AuthOp::VerifyWithdrawal.check_status(code) {
                Ok(_) => accept(request),
                Err(error) => fail(INTERNAL_ERROR, error.message),
            },
            ProcessEvent::SendFailed(detail) => fail(
                INTERNAL_ERROR,
                AuthOp::VerifyWithdrawal.request_failed(detail.as_str()).message,
            ),
            _ => reject(),
        },
        ProcessState::Working { request } => match event {
            ProcessEvent::Worked => (
                ProcessState::Stamping { request, state: WithdrawalState::Complete },
                ProcessAction::Stamp,
            ),
            _ => reject(),
        },
        ProcessState::Stamping { request, state } => match event {
            ProcessEvent::Stamped { entropy, now } => (
                ProcessState::Done,
                ProcessAction::Finish(Ok(record(request, state, &entropy, now))),
            ),
            _ => reject(),
        },
        ProcessState::Done => reject(),
    }
}

/// The state of every withdrawal that is asked about at the time `now`:
/// complete, as of that time, whatever the identifier.
pub open spec fn status_at(now: u64) -> WithdrawalStateData {
    WithdrawalStateData { state: WithdrawalState::Complete, state_changed: now }
}

/// Reports the state of the withdrawal `id` at the time `now`, in seconds
/// since the Unix epoch. No withdrawal is looked up.
pub fn withdrawals_get_handler(id: &str, now: u64) -> (data: WithdrawalStateData)
    ensures
        data == status_at(now),
{
    WithdrawalStateData { state: WithdrawalState::Complete, state_changed: now }
}

} // verus!
