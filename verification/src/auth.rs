//! The client's side of the authorization service: which request goes out for
//! each operation, which replies count as success, and how failures read.

use crate::cfg::default_auth_endpoint;
use crate::text::{decimal, decimal_of};
use vstd::prelude::*;

verus! {

/// The two operations of the authorization service.
#[derive(Clone, Copy, Debug, PartialEq, Eq, Structural)]
pub enum AuthOp {
    IssueAccesskeys,
    VerifyWithdrawal,
}

/// A request to be sent to the authorization service with the method POST.
#[derive(Debug, PartialEq, Eq)]
pub struct AuthPost {
    pub uri: String,
    pub content_type: String,
    pub body: String,
}

/// What an [`AuthPost`] holds.
pub struct AuthPostView {
    pub uri: Seq<char>,
    pub content_type: Seq<char>,
    pub body: Seq<char>,
}

impl View for AuthPost {
    type V = AuthPostView;

    open spec fn view(&self) -> AuthPostView {
        AuthPostView { uri: self.uri@, content_type: self.content_type@, body: self.body@ }
    }
}

/// The one kind of failure of the client; its view is the message.
#[derive(Debug, PartialEq, Eq)]
pub struct AuthError {
    pub message: String,
}

impl View for AuthError {
    type V = Seq<char>;

    open spec fn view(&self) -> Seq<char> {
        self.message@
    }
}

/// The path of an operation below the base URL of the authorization service.
pub open spec fn path_of(op: AuthOp) -> Seq<char> {
    match op {
        AuthOp::IssueAccesskeys => "issue-accesskeys"@,
        AuthOp::VerifyWithdrawal => "verify-withdrawal-request"@,
    }
}

/// Where the requests of an operation go, for a service at the base URL
/// `base`: the base, followed at once by the path of the operation.
///
/// Nothing is put between the two and nothing is taken away. A base that
/// ends in `/`, as the default does, gets the path as its last segment;
/// behind a base that does not, the path runs on from its last character.
pub open spec fn uri_of(base: Seq<char>, op: AuthOp) -> Seq<char> {
    base + path_of(op)
}

/// The request that carries `body` for an operation of the service at
/// `base`.
pub open spec fn post_of(base: Seq<char>, op: AuthOp, body: Seq<char>) -> AuthPostView {
    AuthPostView { uri: uri_of(base, op), content_type: "application/json"@, body }
}

/// Whether a response status means success.
pub open spec fn is_success(code: u16) -> bool {
    200 <= code < 300
}

/// How a response status reads in a failure message.
pub open spec fn status_detail(code: u16) -> Seq<char> {
    "unexpected response status "@ + decimal_of(code as nat)
}

/// The message for a request that got no successful response.
pub open spec fn request_failure(op: AuthOp, detail: Seq<char>) -> Seq<char> {
    match op {
        AuthOp::IssueAccesskeys => "could not perform auth request to issue accesskeys: "@
            + detail,
        AuthOp::VerifyWithdrawal => "could not perform auth request to verify withdrawal: "@
            + detail,
    }
}

/// The message for a response whose body could not be read.
pub open spec fn body_failure(detail: Seq<char>) -> Seq<char> {
    "could not get accesskey from auth: "@ + detail
}

/// The message for a response body that holds no access key.
pub open spec fn decode_failure(body: Seq<char>, detail: Seq<char>) -> Seq<char> {
    "could not deserialize auth-provided accesskey body ("@ + body + "): "@ + detail
}

/// The outcome of a call on the authorization service that hands nothing
/// back: success, or the message of the failure.
pub open spec fn outcome_of(outcome: Result<(), AuthError>) -> Result<(), Seq<char>> {
    match outcome {
        Ok(_) => Ok(()),
        Err(error) => Err(error@),
    }
}

/// What the status of a response means for an operation.
pub open spec fn status_outcome(op: AuthOp, code: u16) -> Result<(), Seq<char>> {
    if is_success(code) {
        Ok(())
    } else {
        Err(request_failure(op, status_detail(code)))
    }
}

/// Every request goes to the base URL it is given: its address begins with
/// the base and goes on with the path of the operation, and with nothing
/// else.
pub proof fn lemma_requests_go_to_the_given_endpoint(base: Seq<char>, op: AuthOp)
    ensures
        base.is_prefix_of(uri_of(base, op)),
        uri_of(base, op).len() == base.len() + path_of(op).len(),
        uri_of(base, op).subrange(base.len() as int, uri_of(base, op).len() as int) == path_of(op),
{
    let uri = uri_of(base, op);
    assert(uri.subrange(0, base.len() as int) =~= base);
    assert(uri.subrange(base.len() as int, uri.len() as int) =~= path_of(op));
}

/// A gateway with the default base URL sends its requests to
/// `localhost:8081`.
pub proof fn lemma_requests_go_to_the_default_endpoint()
    ensures
        uri_of(default_auth_endpoint(), AuthOp::IssueAccesskeys)
            == "http://localhost:8081/issue-accesskeys"@,
        uri_of(default_auth_endpoint(), AuthOp::VerifyWithdrawal)
            == "http://localhost:8081/verify-withdrawal-request"@,
{
    reveal_strlit("http://localhost:8081/");
    reveal_strlit("issue-accesskeys");
    reveal_strlit("verify-withdrawal-request");
    reveal_strlit("http://localhost:8081/issue-accesskeys");
    reveal_strlit("http://localhost:8081/verify-withdrawal-request");
    assert(uri_of(default_auth_endpoint(), AuthOp::IssueAccesskeys)
        =~= "http://localhost:8081/issue-accesskeys"@);
    assert(uri_of(default_auth_endpoint(), AuthOp::VerifyWithdrawal)
        =~= "http://localhost:8081/verify-withdrawal-request"@);
}

impl AuthOp {
    /// Builds the request that carries `body` for this operation of the
    /// service at the base URL `base`.
    pub fn post(self, base: &str, body: String) -> (post: AuthPost)
        ensures
            post@ == post_of(base@, self, body@),
    {
        let path = match self {
            AuthOp::IssueAccesskeys => "issue-accesskeys",
            AuthOp::VerifyWithdrawal => "verify-withdrawal-request",
        };
        AuthPost {
            uri: String::from_str(base).concat(path),
            content_type: String::from_str("application/json"),
            body,
        }
    }

    /// The failure of a request that could not be sent or answered.
    pub fn request_failed(self, detail: &str) -> (error: AuthError)
        ensures
            error@ == request_failure(self, detail@),
    {
        let prefix = match self {
            AuthOp::IssueAccesskeys => "could not perform auth request to issue accesskeys: ",
            AuthOp::VerifyWithdrawal => "could not perform auth request to verify withdrawal: ",
        };
        AuthError { message: String::from_str(prefix).concat(detail) }
    }

    /// Judges a response by its status alone: success for 200 to 299, a
    /// request failure that names the status otherwise.
    pub fn check_status(self, code: u16) -> (outcome: Result<(), AuthError>)
        ensures
            outcome_of(outcome) == status_outcome(self, code),
    {
        if 200 <= code && code < 300 {
            Ok(())
        } else {
            let detail = String::from_str("unexpected response status ").concat(
                decimal(code).as_str(),
            );
            Err(self.request_failed(detail.as_str()))
        }
    }
}

impl AuthError {
    /// The failure to read the body of a response.
    pub fn body_failed(detail: &str) -> (error: AuthError)
        ensures
            error@ == body_failure(detail@),
    {
        let message = String::from_str("could not get accesskey from auth: ").concat(detail);
        AuthError { message }
    }

    /// The failure to find an access key in the body of a response; the
    /// message quotes the body.
    pub fn decode_failed(body: &str, detail: &str) -> (error: AuthError)
        ensures
            error@ == decode_failure(body@, detail@),
    {
        let message = String::from_str("could not deserialize auth-provided accesskey body (")
            .concat(body).concat("): ").concat(detail);
        AuthError { message }
    }
}

} // verus!
