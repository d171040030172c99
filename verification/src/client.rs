//! The computing side of the remote-chain client: the well-known network
//! endpoints, the polling policy for transaction confirmation, and the
//! readers that turn a response's text fields into numbers. The HTTP
//! transport around these lives with the caller.

use vstd::prelude::*;

use crate::numfmt::{dec_val, parse_u64, parses_as_u64};
use crate::policy::tag_eq;

verus! {

/// A transaction's signature, carried opaquely.
#[derive(Clone, Debug)]
pub struct TransactionSignature {
    pub sig_type: String,
    pub public_key: String,
    pub signature: String,
}

/// What the chain reports of a submitted transaction.
#[derive(Clone, Debug)]
pub struct TransactionResponse {
    pub hash: String,
    pub sender: String,
    pub sequence_number: String,
    pub success: bool,
    pub gas_used: String,
    pub vm_status: String,
}

/// The endpoint a network name stands for: the two well-known networks
/// by name, anything else read as an endpoint itself.
pub fn fork_url_for(network: &str) -> (u: String)
    ensures
        network@ == "testnet"@ ==> u@ == "https://aptos.testnet.porto.movementlabs.xyz/v1"@,
        network@ == "mainnet"@ ==> u@ == "https://mainnet.movementnetwork.xyz/v1"@,
        (network@ != "testnet"@ && network@ != "mainnet"@) ==> u@ == network@,
{
    proof {
        reveal_strlit("testnet");
        reveal_strlit("mainnet");
        assert(("testnet"@)[0] != ("mainnet"@)[0]);
        assert("testnet"@ != "mainnet"@);
    }
    if tag_eq(network, "testnet") {
        String::from_str("https://aptos.testnet.porto.movementlabs.xyz/v1")
    } else if tag_eq(network, "mainnet") {
        String::from_str("https://mainnet.movementnetwork.xyz/v1")
    } else {
        String::from_str(network)
    }
}

/// How many times a pending transaction is asked for before giving up.
pub const MAX_POLL_ATTEMPTS: u64 = 30;

/// What a confirmation poll does next.
#[derive(Clone, Copy, Debug, PartialEq, Eq, Structural)]
pub enum PollAction {
    /// Wait and ask the chain once more.
    Retry,
    /// Stop asking and report the transaction as not found.
    GiveUp,
}

/// Decides, after `attempts_used` unanswered asks, whether to ask again.
pub fn next_poll_action(attempts_used: u64) -> (a: PollAction)
    ensures
        a == (if attempts_used < MAX_POLL_ATTEMPTS {
            PollAction::Retry
        } else {
            PollAction::GiveUp
        }),
{
    if attempts_used < MAX_POLL_ATTEMPTS {
        PollAction::Retry
    } else {
        PollAction::GiveUp
    }
}

/// The gas figure of a simulation response: the decimal text read as a
/// number, zero when the field is absent or not a number.
pub fn gas_from_simulation(gas: Option<&str>) -> (g: u64)
    ensures
        gas is Some && parses_as_u64(gas->0@) ==> g == dec_val(gas->0@),
        gas is Some && !parses_as_u64(gas->0@) ==> g == 0,
        gas is None ==> g == 0,
{
    match gas {
        Some(s) => match parse_u64(s) {
            Some(v) => v,
            None => 0,
        },
        None => 0,
    }
}

/// The sequence number of an account response: the decimal text read as
/// a number, or nothing when the field is absent or not a number.
pub fn parse_sequence_number(text: Option<&str>) -> (r: Option<u64>)
    ensures
        r is Some <==> (text is Some && parses_as_u64(text->0@)),
        r is Some ==> r->0 == dec_val(text->0@),
{
    match text {
        Some(s) => parse_u64(s),
        None => None,
    }
}

} // verus!
