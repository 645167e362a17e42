//! The records exchanged with callers and with the authorization service,
//! each with the mathematical value that contracts speak of.

use vstd::prelude::*;

verus! {

/// The code of a request that the caller got wrong.
pub const BAD_REQUEST: u16 = 400;

/// The code of a failure on the gateway's side.
pub const INTERNAL_ERROR: u16 = 500;

/// The description of the failure over an event that a handler's state does
/// not await.
pub open spec fn unexpected_event() -> Seq<char> {
    "unexpected event"@
}

/// The uniform error envelope: a numeric code and a readable description.
#[derive(Debug, PartialEq, Eq)]
pub struct Status {
    pub code: u16,
    pub desc: String,
}

/// What a [`Status`] holds.
pub struct StatusView {
    pub code: u16,
    pub desc: Seq<char>,
}

impl View for Status {
    type V = StatusView;

    open spec fn view(&self) -> StatusView {
        StatusView { code: self.code, desc: self.desc@ }
    }
}

/// A request to the authorization service for an access key.
#[derive(Debug, PartialEq, Eq)]
pub struct AccesskeyRequest {
    /// Number of operations the key should permit.
    pub quantity: u64,
    /// Tag that names the basis on which the key is granted.
    pub pof_type: String,
    /// Lifetime of the key in seconds.
    pub duration: u64,
}

/// What an [`AccesskeyRequest`] holds.
pub struct AccesskeyRequestView {
    pub quantity: u64,
    pub pof_type: Seq<char>,
    pub duration: u64,
}

impl View for AccesskeyRequest {
    type V = AccesskeyRequestView;

    open spec fn view(&self) -> AccesskeyRequestView {
        AccesskeyRequestView {
            quantity: self.quantity,
            pof_type: self.pof_type@,
            duration: self.duration,
        }
    }
}

/// A credential issued by the authorization service.
#[derive(Debug, PartialEq, Eq)]
pub struct Accesskey {
    pub key: String,
}

/// What an [`Accesskey`] holds.
pub struct AccesskeyView {
    pub key: Seq<char>,
}

impl View for Accesskey {
    type V = AccesskeyView;

    open spec fn view(&self) -> AccesskeyView {
        AccesskeyView { key: self.key@ }
    }
}

/// A caller's request to redeem value to a destination.
#[derive(Debug, PartialEq, Eq)]
pub struct WithdrawalRequest {
    pub destination: String,
    pub amount: u64,
    pub metadata: String,
}

/// What a [`WithdrawalRequest`] holds.
pub struct WithdrawalRequestView {
    pub destination: Seq<char>,
    pub amount: u64,
    pub metadata: Seq<char>,
}

impl View for WithdrawalRequest {
    type V = WithdrawalRequestView;

    open spec fn view(&self) -> WithdrawalRequestView {
        WithdrawalRequestView {
            destination: self.destination@,
            amount: self.amount,
            metadata: self.metadata@,
        }
    }
}

impl Clone for WithdrawalRequest {
    fn clone(&self) -> (copy: Self)
        ensures
            copy == *self,
    {
        WithdrawalRequest {
            destination: self.destination.clone(),
            amount: self.amount,
            metadata: self.metadata.clone(),
        }
    }
}

/// Where a withdrawal stands in its lifecycle.
#[derive(Clone, Copy, Debug, PartialEq, Eq, Structural)]
pub enum WithdrawalState {
    Pending,
    Complete,
}

/// A lifecycle state together with the time at which it was entered.
#[derive(Clone, Copy, Debug, PartialEq, Eq, Structural)]
pub struct WithdrawalStateData {
    pub state: WithdrawalState,
    /// Seconds since the Unix epoch.
    pub state_changed: u64,
}

/// The record of a processed withdrawal.
#[derive(Debug, PartialEq, Eq)]
pub struct Withdrawal {
    pub id: String,
    pub state_data: WithdrawalStateData,
    pub withdrawal_request: WithdrawalRequest,
    pub receipt: String,
}

/// What a [`Withdrawal`] holds.
pub struct WithdrawalView {
    pub id: Seq<char>,
    pub state_data: WithdrawalStateData,
    pub withdrawal_request: WithdrawalRequestView,
    pub receipt: Seq<char>,
}

impl View for Withdrawal {
    type V = WithdrawalView;

    open spec fn view(&self) -> WithdrawalView {
        WithdrawalView {
            id: self.id@,
            state_data: self.state_data,
            withdrawal_request: self.withdrawal_request@,
            receipt: self.receipt@,
        }
    }
}

} // verus!
