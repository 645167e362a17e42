use std::collections::HashSet;
use withdrawal_gateway::api::{
    Status, Withdrawal, WithdrawalRequest, WithdrawalState, WithdrawalStateData, BAD_REQUEST,
    INTERNAL_ERROR,
};
use withdrawal_gateway::auth::AuthPost;
use withdrawal_gateway::withdrawals::{
    decision, record, Decision, ProcessAction, ProcessEvent, ProcessState, PROCESSING_SECONDS,
};
use withdrawal_gateway::{withdrawals_get_handler, withdrawals_post_handler, Cfg};

fn drive_process(events: Vec<ProcessEvent>) -> (ProcessState, Vec<ProcessAction>) {
    drive_process_at(&Cfg::default(), events)
}

fn drive_process_at(cfg: &Cfg, events: Vec<ProcessEvent>) -> (ProcessState, Vec<ProcessAction>) {
    let mut state = ProcessState::Idle;
    let mut actions = Vec::new();
    for event in events {
        let (next, action) = withdrawals_post_handler(cfg, state, event);
        state = next;
        actions.push(action);
    }
    (state, actions)
}

fn request_to(destination: &str) -> WithdrawalRequest {
    WithdrawalRequest {
        destination: destination.to_string(),
        amount: 250,
        metadata: "invoice 17".to_string(),
    }
}

fn refused(code: u16, desc: &str) -> ProcessAction {
    ProcessAction::Finish(Err(Status { code, desc: desc.to_string() }))
}

fn counting_entropy() -> [u8; 32] {
    let mut entropy = [0u8; 32];
    for (i, byte) in entropy.iter_mut().enumerate() {
        *byte = i as u8;
    }
    entropy
}

const COUNTING_ID: &str = "000102030405060708090a0b0c0d0e0f101112131415161718191a1b1c1d1e1f";

#[test]
fn process_constants_have_their_values() {
    assert_eq!(BAD_REQUEST, 400);
    assert_eq!(INTERNAL_ERROR, 500);
    assert_eq!(PROCESSING_SECONDS, 1);
}

#[test]
fn destination_decides_three_ways() {
    assert_eq!(decision(&"want_error".to_string()), Decision::Fail);
    assert_eq!(decision(&"want_pending".to_string()), Decision::Record(WithdrawalState::Pending));
    assert_eq!(decision(&"bank:1234".to_string()), Decision::Record(WithdrawalState::Complete));
    assert_eq!(decision(&"".to_string()), Decision::Record(WithdrawalState::Complete));
    assert_eq!(decision(&"want_error ".to_string()), Decision::Record(WithdrawalState::Complete));
    assert_eq!(decision(&"WANT_PENDING".to_string()), Decision::Record(WithdrawalState::Complete));
}

#[test]
fn post_of_an_error_request_yields_400_with_a_description() {
    let (state, actions) = drive_process(vec![
        ProcessEvent::Request(request_to("want_error")),
        ProcessEvent::Serialized("{\"destination\":\"want_error\"}".to_string()),
        ProcessEvent::Replied(200),
    ]);
    assert_eq!(state, ProcessState::Done);
    assert_eq!(actions[0], ProcessAction::Serialize(request_to("want_error")));
    assert_eq!(
        actions[1],
        ProcessAction::Send(AuthPost {
            uri: "http://localhost:8081/verify-withdrawal-request".to_string(),
            content_type: "application/json".to_string(),
            body: "{\"destination\":\"want_error\"}".to_string(),
        })
    );
    match &actions[2] {
        ProcessAction::Finish(Err(status)) => {
            assert_eq!(status.code, 400);
            assert!(!status.desc.is_empty());
        }
        other => panic!("no failure: {:?}", other),
    }
    assert_eq!(actions[2], refused(400, "as requested, withdrawal failed with error!"));
}

#[test]
fn post_of_an_error_request_never_yields_a_record() {
    let (_, actions) = drive_process(vec![
        ProcessEvent::Request(request_to("want_error")),
        ProcessEvent::Serialized("{}".to_string()),
        ProcessEvent::Replied(200),
        ProcessEvent::Worked,
        ProcessEvent::Stamped { entropy: counting_entropy(), now: 5 },
    ]);
    for action in &actions {
        assert!(!matches!(action, ProcessAction::Finish(Ok(_))));
    }
}

#[test]
fn post_of_a_malformed_body_yields_400_with_the_parser_message() {
    let message =
        serde_json::from_str::<serde_json::Value>("{\"destination\":").unwrap_err().to_string();
    assert_eq!(message, "EOF while parsing a value at line 1 column 15");
    let (state, action) =
        withdrawals_post_handler(
            &Cfg::default(),
            ProcessState::Idle,
            ProcessEvent::Malformed(message.clone()),
        );
    assert_eq!(state, ProcessState::Done);
    assert_eq!(action, refused(400, "EOF while parsing a value at line 1 column 15"));
}

#[test]
fn pending_request_is_recorded_without_work() {
    let (state, actions) = drive_process(vec![
        ProcessEvent::Request(request_to("want_pending")),
        ProcessEvent::Serialized("{}".to_string()),
        ProcessEvent::Replied(200),
        ProcessEvent::Stamped { entropy: counting_entropy(), now: 1_700_000_000 },
    ]);
    assert_eq!(state, ProcessState::Done);
    assert_eq!(actions.len(), 4);
    assert_eq!(actions[2], ProcessAction::Stamp);
    assert!(actions.iter().all(|action| !matches!(action, ProcessAction::Work { .. })));
    assert_eq!(
        actions[3],
        ProcessAction::Finish(Ok(Withdrawal {
            id: COUNTING_ID.to_string(),
            state_data: WithdrawalStateData {
                state: WithdrawalState::Pending,
                state_changed: 1_700_000_000,
            },
            withdrawal_request: request_to("want_pending"),
            receipt: "RECEIPT".to_string(),
        }))
    );
}

#[test]
fn other_request_is_completed_after_one_second_of_work() {
    let (state, actions) = drive_process(vec![
        ProcessEvent::Request(request_to("bank:1234")),
        ProcessEvent::Serialized("{}".to_string()),
        ProcessEvent::Replied(204),
        ProcessEvent::Worked,
        ProcessEvent::Stamped { entropy: [0xab; 32], now: 1_700_000_001 },
    ]);
    assert_eq!(state, ProcessState::Done);
    assert_eq!(actions[2], ProcessAction::Work { seconds: 1 });
    assert_eq!(actions[3], ProcessAction::Stamp);
    assert_eq!(
        actions[4],
        ProcessAction::Finish(Ok(Withdrawal {
            id: "ab".repeat(32),
            state_data: WithdrawalStateData {
                state: WithdrawalState::Complete,
                state_changed: 1_700_000_001,
            },
            withdrawal_request: request_to("bank:1234"),
            receipt: "RECEIPT".to_string(),
        }))
    );
}

#[test]
fn other_request_is_not_recorded_before_the_work_is_done() {
    let (state, actions) = drive_process(vec![
        ProcessEvent::Request(request_to("bank:1234")),
        ProcessEvent::Serialized("{}".to_string()),
        ProcessEvent::Replied(200),
        ProcessEvent::Stamped { entropy: [1; 32], now: 3 },
    ]);
    assert_eq!(state, ProcessState::Done);
    assert_eq!(actions[2], ProcessAction::Work { seconds: 1 });
    assert_eq!(actions[3], refused(500, "unexpected event"));
}

#[test]
fn unverified_request_fails_with_500_whatever_its_destination() {
    for destination in ["want_error", "want_pending", "bank:1234"] {
        let (state, actions) = drive_process(vec![
            ProcessEvent::Request(request_to(destination)),
            ProcessEvent::Serialized("{}".to_string()),
            ProcessEvent::Replied(403),
        ]);
        assert_eq!(state, ProcessState::Done);
        assert_eq!(
            actions[2],
            refused(
                500,
                "could not perform auth request to verify withdrawal: \
                 unexpected response status 403"
            )
        );

        let (state, actions) = drive_process(vec![
            ProcessEvent::Request(request_to(destination)),
            ProcessEvent::Serialized("{}".to_string()),
            ProcessEvent::SendFailed("connection refused".to_string()),
        ]);
        assert_eq!(state, ProcessState::Done);
        assert_eq!(
            actions[2],
            refused(500, "could not perform auth request to verify withdrawal: connection refused")
        );
    }
}

#[test]
fn request_that_cannot_be_serialized_fails_with_500() {
    let (state, actions) = drive_process(vec![
        ProcessEvent::Request(request_to("bank:1234")),
        ProcessEvent::SerializeFailed("out of memory".to_string()),
    ]);
    assert_eq!(state, ProcessState::Done);
    assert_eq!(actions[1], refused(500, "out of memory"));
}

#[test]
fn process_fails_on_an_event_it_does_not_await() {
    let (state, action) = withdrawals_post_handler(
        &Cfg::default(),
        ProcessState::Idle,
        ProcessEvent::Worked,
    );
    assert_eq!(state, ProcessState::Done);
    assert_eq!(action, refused(500, "unexpected event"));

    let (state, action) = withdrawals_post_handler(
        &Cfg::default(),
        ProcessState::Working { request: request_to("bank:1234") },
        ProcessEvent::Replied(200),
    );
    assert_eq!(state, ProcessState::Done);
    assert_eq!(action, refused(500, "unexpected event"));

    let (state, action) =
        withdrawals_post_handler(
            &Cfg::default(),
            ProcessState::Done,
            ProcessEvent::Request(request_to("x")),
        );
    assert_eq!(state, ProcessState::Done);
    assert_eq!(action, refused(500, "unexpected event"));
}

#[test]
fn process_answers_within_five_events() {
    let (state, actions) = drive_process(vec![
        ProcessEvent::Worked,
        ProcessEvent::Worked,
        ProcessEvent::Worked,
        ProcessEvent::Worked,
        ProcessEvent::Worked,
    ]);
    assert_eq!(state, ProcessState::Done);
    assert!(actions.iter().any(|action| matches!(action, ProcessAction::Finish(_))));
    for action in &actions {
        if let ProcessAction::Finish(Err(status)) = action {
            assert!(status.code == 400 || status.code == 500);
        }
    }
}

#[test]
fn record_holds_what_it_is_made_of() {
    let withdrawal = record(request_to("bank:1234"), WithdrawalState::Pending, &counting_entropy(), 42);
    assert_eq!(withdrawal.id, COUNTING_ID);
    assert_eq!(withdrawal.id.len(), 64);
    assert_eq!(
        withdrawal.state_data,
        WithdrawalStateData { state: WithdrawalState::Pending, state_changed: 42 }
    );
    assert_eq!(withdrawal.withdrawal_request, request_to("bank:1234"));
    assert_eq!(withdrawal.receipt, "RECEIPT");
}

#[test]
fn ten_thousand_records_have_distinct_ids() {
    let mut ids = HashSet::new();
    for n in 0u32..10_000 {
        let mut entropy = [0x5au8; 32];
        entropy[7..11].copy_from_slice(&n.to_be_bytes());
        let (_, action) = withdrawals_post_handler(
            &Cfg::default(),
            ProcessState::Stamping {
                request: request_to("want_pending"),
                state: WithdrawalState::Pending,
            },
            ProcessEvent::Stamped { entropy, now: 0 },
        );
        match action {
            ProcessAction::Finish(Ok(withdrawal)) => assert!(ids.insert(withdrawal.id)),
            other => panic!("no record: {:?}", other),
        }
    }
    assert_eq!(ids.len(), 10_000);
}

#[test]
fn status_is_complete_as_of_now() {
    let data = withdrawals_get_handler("0a1b", 1_700_000_000);
    assert_eq!(
        data,
        WithdrawalStateData { state: WithdrawalState::Complete, state_changed: 1_700_000_000 }
    );
}

#[test]
fn status_does_not_depend_on_the_id() {
    assert_eq!(withdrawals_get_handler("", 7), withdrawals_get_handler(COUNTING_ID, 7));
    assert_eq!(withdrawals_get_handler("unknown", 0).state, WithdrawalState::Complete);
    assert_eq!(withdrawals_get_handler("unknown", u64::MAX).state_changed, u64::MAX);
}

#[test]
fn verification_goes_to_the_configured_endpoint() {
    let cfg = Cfg::from_fields(None, Some("HTTPS://Auth.Example.Net:8443".to_string())).unwrap();
    let (_, actions) = drive_process_at(
        &cfg,
        vec![
            ProcessEvent::Request(request_to("bank:1234")),
            ProcessEvent::Serialized("{}".to_string()),
        ],
    );
    assert_eq!(
        actions[1],
        ProcessAction::Send(AuthPost {
            uri: "https://auth.example.net:8443/verify-withdrawal-request".to_string(),
            content_type: "application/json".to_string(),
            body: "{}".to_string(),
        })
    );
}

#[test]
fn verification_joins_base_and_path_with_nothing_between() {
    for base in ["http://localhost:8081/", "https://auth.example.net/v1", ""] {
        let cfg = Cfg::with_fields(None, Some(base.to_string()));
        let (_, action) = withdrawals_post_handler(
            &cfg,
            ProcessState::Serializing { request: request_to("bank:1234") },
            ProcessEvent::Serialized("{}".to_string()),
        );
        match action {
            ProcessAction::Send(post) => {
                assert_eq!(post.uri, format!("{}{}", base, "verify-withdrawal-request"))
            }
            other => panic!("nothing sent: {:?}", other),
        }
    }
}

#[test]
fn process_sends_one_request_only() {
    let (_, actions) = drive_process(vec![
        ProcessEvent::Request(request_to("bank:1234")),
        ProcessEvent::Serialized("{}".to_string()),
        ProcessEvent::Replied(200),
        ProcessEvent::Worked,
        ProcessEvent::Stamped { entropy: [9; 32], now: 1 },
    ]);
    let sent = actions.iter().filter(|action| matches!(action, ProcessAction::Send(_))).count();
    assert_eq!(sent, 1);
}
