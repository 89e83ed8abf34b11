//! The pairing agent's answers to the Bluetooth stack: confirmation is
//! accepted and its passkey announced; every other way of pairing is refused.

use vstd::prelude::*;

verus! {

/// The refusal that the agent returns to the Bluetooth stack.
#[derive(Debug, Clone, Copy, PartialEq, Eq, Structural)]
pub struct PairingRejected;

impl PairingRejected {
    /// The text of the refusal.
    pub fn message(&self) -> (r: &'static str)
        ensures
            r@ == "Pairing rejected"@,
    {
        "Pairing rejected"
    }
}

/// A call of the Bluetooth stack on the pairing agent.
#[derive(Debug, Clone, Copy, PartialEq, Eq, Structural)]
pub enum AgentRequest {
    Release,
    RequestPinCode,
    DisplayPinCode,
    RequestPasskey,
    DisplayPasskey,
    /// Confirm pairing with this passkey.
    RequestConfirmation(u32),
    RequestAuthorization,
    AuthorizeService,
    Cancel,
}

/// The agent's answer to one call.
#[derive(Debug, Clone, Copy, PartialEq, Eq, Structural)]
pub enum AgentAnswer {
    /// Nothing to answer.
    Nothing,
    /// Refuse with `PairingRejected`.
    Reject(PairingRejected),
    /// Accept, and announce the passkey through the pairing-code signal.
    Accept { pairing_code: u32 },
}

/// How the agent answers `req`.
pub open spec fn spec_answer(req: AgentRequest) -> AgentAnswer {
    match req {
        AgentRequest::Release | AgentRequest::Cancel => AgentAnswer::Nothing,
        AgentRequest::RequestConfirmation(passkey) => AgentAnswer::Accept { pairing_code: passkey },
        _ => AgentAnswer::Reject(PairingRejected),
    }
}

pub fn answer(req: AgentRequest) -> (r: AgentAnswer)
    ensures
        r == spec_answer(req),
{
    match req {
        AgentRequest::Release | AgentRequest::Cancel => AgentAnswer::Nothing,
        AgentRequest::RequestConfirmation(passkey) => AgentAnswer::Accept { pairing_code: passkey },
        _ => AgentAnswer::Reject(PairingRejected),
    }
}

} // verus!
