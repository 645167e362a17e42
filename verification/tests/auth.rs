use withdrawal_gateway::auth::{AuthError, AuthOp, AuthPost};
use withdrawal_gateway::Cfg;

#[test]
fn posts_go_to_the_fixed_paths_as_json() {
    assert_eq!(
        AuthOp::IssueAccesskeys.post("http://localhost:8081/", "{\"quantity\":5}".to_string()),
        AuthPost {
            uri: "http://localhost:8081/issue-accesskeys".to_string(),
            content_type: "application/json".to_string(),
            body: "{\"quantity\":5}".to_string(),
        }
    );
    assert_eq!(
        AuthOp::VerifyWithdrawal.post("http://localhost:8081/", String::new()),
        AuthPost {
            uri: "http://localhost:8081/verify-withdrawal-request".to_string(),
            content_type: "application/json".to_string(),
            body: String::new(),
        }
    );
}

#[test]
fn posts_go_to_the_base_they_are_given() {
    assert_eq!(
        AuthOp::IssueAccesskeys.post("https://auth.example.net/v1/", String::new()).uri,
        "https://auth.example.net/v1/issue-accesskeys"
    );
    assert_eq!(
        AuthOp::VerifyWithdrawal.post("https://auth.example.net/v1/", String::new()).uri,
        "https://auth.example.net/v1/verify-withdrawal-request"
    );
    assert_eq!(
        AuthOp::VerifyWithdrawal.post("https://auth.example.net/v1", String::new()).uri,
        "https://auth.example.net/v1verify-withdrawal-request"
    );
    assert_eq!(AuthOp::IssueAccesskeys.post("", String::new()).uri, "issue-accesskeys");
}

#[test]
fn default_settings_send_to_localhost_8081() {
    let cfg = Cfg::default();
    assert_eq!(
        AuthOp::IssueAccesskeys.post(&cfg.auth_endpoint, String::new()).uri,
        "http://localhost:8081/issue-accesskeys"
    );
    assert_eq!(
        AuthOp::VerifyWithdrawal.post(&cfg.auth_endpoint, String::new()).uri,
        "http://localhost:8081/verify-withdrawal-request"
    );
}

#[test]
fn statuses_from_200_to_299_are_success() {
    for op in [AuthOp::IssueAccesskeys, AuthOp::VerifyWithdrawal] {
        for code in 0u16..=1000 {
            assert_eq!(op.check_status(code).is_ok(), (200..300).contains(&code), "{}", code);
        }
        assert!(op.check_status(u16::MAX).is_err());
    }
}

#[test]
fn other_statuses_are_named_in_the_failure() {
    assert_eq!(
        AuthOp::IssueAccesskeys.check_status(199),
        Err(AuthError {
            message: "could not perform auth request to issue accesskeys: \
                      unexpected response status 199"
                .to_string()
        })
    );
    assert_eq!(
        AuthOp::VerifyWithdrawal.check_status(300),
        Err(AuthError {
            message: "could not perform auth request to verify withdrawal: \
                      unexpected response status 300"
                .to_string()
        })
    );
    assert_eq!(
        AuthOp::VerifyWithdrawal.check_status(0),
        Err(AuthError {
            message: "could not perform auth request to verify withdrawal: \
                      unexpected response status 0"
                .to_string()
        })
    );
}

#[test]
fn failures_read_as_their_phase_and_detail() {
    assert_eq!(
        AuthOp::IssueAccesskeys.request_failed("timed out").message,
        "could not perform auth request to issue accesskeys: timed out"
    );
    assert_eq!(
        AuthOp::VerifyWithdrawal.request_failed("").message,
        "could not perform auth request to verify withdrawal: "
    );
    assert_eq!(
        AuthError::body_failed("unexpected end of file").message,
        "could not get accesskey from auth: unexpected end of file"
    );
    assert_eq!(
        AuthError::decode_failed("{}", "missing field `key` at line 1 column 2").message,
        "could not deserialize auth-provided accesskey body ({}): \
         missing field `key` at line 1 column 2"
    );
}
