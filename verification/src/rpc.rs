//! The request dispatcher: routes named operations to the ledger store
//! and the execution engine and wraps their results into a response. It
//! holds no business logic of its own; an unknown operation name gets an
//! explicit method-not-found response.

use vstd::prelude::*;

use crate::numfmt::{hex_digits, hex_digits_padded, u64_to_hex, u64_to_hex_padded};
use crate::policy::{tag_eq, AdmissionPolicy, REFERENCE_FAIL_PERIOD};
use crate::simulator::{batch_matches, batch_ok, out_views, tx_views, SimError, Simulator,
    TxOutcome, TxRequest, TxRequestView};
use crate::state::StateManager;

verus! {

/// Relies on `std::time::SystemTime`: a pseudo-random value derived from
/// the clock's nanoseconds. Nothing is promised of the value.
#[verifier::external_body]
pub fn random<T: From<u64>>() -> T {
    let val = std::time::SystemTime::now().duration_since(std::time::UNIX_EPOCH).map(
        |d| d.as_nanos() as u64,
    ).unwrap_or(0);
    T::from(val)
}

/// The served operation names denote pairwise different pieces of text,
/// so at most one routing clause applies to a request.
proof fn lemma_method_names_distinct()
    ensures
        "eth_blockNumber"@ != "eth_getBalance"@,
        "eth_blockNumber"@ != "eth_sendTransaction"@,
        "eth_blockNumber"@ != "eth_call"@,
        "eth_blockNumber"@ != "eth_estimateGas"@,
        "eth_blockNumber"@ != "move_executeTransaction"@,
        "eth_blockNumber"@ != "paraforge_simulateBatch"@,
        "eth_getBalance"@ != "eth_sendTransaction"@,
        "eth_getBalance"@ != "eth_call"@,
        "eth_getBalance"@ != "eth_estimateGas"@,
        "eth_getBalance"@ != "move_executeTransaction"@,
        "eth_getBalance"@ != "paraforge_simulateBatch"@,
        "eth_sendTransaction"@ != "eth_call"@,
        "eth_sendTransaction"@ != "eth_estimateGas"@,
        "eth_sendTransaction"@ != "move_executeTransaction"@,
        "eth_sendTransaction"@ != "paraforge_simulateBatch"@,
        "eth_call"@ != "eth_estimateGas"@,
        "eth_call"@ != "move_executeTransaction"@,
        "eth_call"@ != "paraforge_simulateBatch"@,
        "eth_estimateGas"@ != "move_executeTransaction"@,
        "eth_estimateGas"@ != "paraforge_simulateBatch"@,
        "move_executeTransaction"@ != "paraforge_simulateBatch"@,
{
    reveal_strlit("eth_blockNumber");
    reveal_strlit("eth_getBalance");
    reveal_strlit("eth_sendTransaction");
    reveal_strlit("eth_call");
    reveal_strlit("eth_estimateGas");
    reveal_strlit("move_executeTransaction");
    reveal_strlit("paraforge_simulateBatch");
    assert(("eth_blockNumber"@)[4] != ("eth_estimateGas"@)[4]);
    assert(("move_executeTransaction"@)[0] != ("paraforge_simulateBatch"@)[0]);
    assert(("eth_getBalance"@)[4] != ("eth_sendTransaction"@)[4]);
    assert(("eth_getBalance"@)[4] != ("eth_call"@)[4]);
}

/// The arguments a request may carry: its first argument read as text,
/// and the whole argument list read as a batch of transactions. A field
/// that the request's shape does not offer is `None`; each operation
/// reads the field it needs and falls back to an empty value.
pub struct RpcParams {
    pub first_string: Option<String>,
    pub transactions: Option<Vec<TxRequest>>,
}

/// Mathematical image of `RpcParams`.
pub struct RpcParamsView {
    pub first_string: Option<Seq<char>>,
    pub transactions: Option<Seq<TxRequestView>>,
}

impl View for RpcParams {
    type V = RpcParamsView;

    open spec fn view(&self) -> RpcParamsView {
        RpcParamsView {
            first_string: crate::types::opt_string_view(self.first_string),
            transactions: match self.transactions {
                Some(v) => Some(tx_views(v@)),
                None => None,
            },
        }
    }
}

/// The address an operation works on: the first argument, or the empty
/// address when there is none.
pub open spec fn param_address(p: RpcParamsView) -> Seq<char> {
    match p.first_string {
        Some(s) => s,
        None => Seq::empty(),
    }
}

/// The batch an operation works on: the argument list, or the empty
/// batch when it is not one.
pub open spec fn param_batch(p: RpcParamsView) -> Seq<TxRequestView> {
    match p.transactions {
        Some(s) => s,
        None => Seq::empty(),
    }
}

/// One operation's answer.
pub enum RpcResponse {
    /// The current block counter, in hexadecimal.
    BlockNumber(String),
    /// An account's balance, or the zero text for an unknown address.
    Balance(String),
    /// The hash assigned to a submitted transaction.
    TxHash(String),
    /// The result of a read-only call.
    CallResult(String),
    /// A flat gas estimate, in hexadecimal.
    GasEstimate(String),
    /// The hash and status of an executed transaction.
    MoveExecution { hash: String, status: String },
    /// One simulation outcome per submitted transaction, in input order.
    BatchResults(Vec<TxOutcome>),
    /// The batch was rejected without executing anything.
    BatchRejected(SimError),
    /// The operation name is not served.
    MethodNotFound,
}

/// The dispatcher: a port to be served on, the ledger store the
/// operations read, and the concurrency mode handed to the engine.
pub struct RpcServer {
    pub port: u16,
    pub state: StateManager,
    pub parallel: bool,
}

impl RpcServer {
    pub fn new(port: u16, state: StateManager, parallel: bool) -> (s: Self)
        ensures
            s.port == port,
            s.state == state,
            s.parallel == parallel,
    {
        RpcServer { port, state, parallel }
    }

    /// The current block counter as `0x`-prefixed hexadecimal text.
    fn block_number(&self) -> (r: RpcResponse)
        ensures
            r is BlockNumber && r->BlockNumber_0@ == "0x"@ + hex_digits(
                self.state@.current_block as nat,
            ),
    {
        RpcResponse::BlockNumber(
            String::from_str("0x").concat(u64_to_hex(self.state.current_block_number()).as_str()),
        )
    }

    /// The stored balance of the address the request names, or the zero
    /// text when the store has no entry for it.
    fn get_balance(&self, params: &RpcParams) -> (r: RpcResponse)
        ensures
            r is Balance,
            self.state@.accounts.contains_key(param_address(params@)) ==> r->Balance_0@
                == self.state@.accounts[param_address(params@)].balance,
            !self.state@.accounts.contains_key(param_address(params@)) ==> r->Balance_0@
                == "0x0"@,
    {
        let address = match &params.first_string {
            Some(s) => s.as_str(),
            None => "",
        };
        proof {
            reveal_strlit("");
            assert(""@ =~= Seq::<char>::empty());
            assert(address@ == param_address(params@));
        }
        match self.state.get_account(address) {
            Some(account) => RpcResponse::Balance(account.balance),
            None => RpcResponse::Balance(String::from_str("0x0")),
        }
    }

    /// Accepts a transaction and answers with a synthesized hash: 64
    /// zero-padded hexadecimal digits behind `0x`.
    fn send_transaction(&self) -> (r: RpcResponse)
        ensures
            r is TxHash,
            exists|v: u64| r->TxHash_0@ == "0x"@ + hex_digits_padded(v as nat, 64),
    {
        let v: u64 = random();
        let hash = String::from_str("0x").concat(u64_to_hex_padded(v, 64).as_str());
        proof {
            assert(hash@ == "0x"@ + hex_digits_padded(v as nat, 64));
        }
        RpcResponse::TxHash(hash)
    }

    /// A read-only call; nothing is executed, the answer is empty.
    fn call(&self) -> (r: RpcResponse)
        ensures
            r is CallResult && r->CallResult_0@ == "0x"@,
    {
        RpcResponse::CallResult(String::from_str("0x"))
    }

    /// A flat gas estimate.
    fn estimate_gas(&self) -> (r: RpcResponse)
        ensures
            r is GasEstimate && r->GasEstimate_0@ == "0x5208"@,
    {
        RpcResponse::GasEstimate(String::from_str("0x5208"))
    }

    /// Accepts a transaction for execution and answers with a
    /// synthesized hash and a success status.
    fn execute_move_transaction(&self) -> (r: RpcResponse)
        ensures
            r is MoveExecution,
            r->MoveExecution_status@ == "success"@,
            exists|v: u64| r->MoveExecution_hash@ == "0x"@ + hex_digits_padded(v as nat, 64),
    {
        let v: u64 = random();
        let hash = String::from_str("0x").concat(u64_to_hex_padded(v, 64).as_str());
        proof {
            assert(hash@ == "0x"@ + hex_digits_padded(v as nat, 64));
        }
        RpcResponse::MoveExecution { hash, status: String::from_str("success") }
    }

    /// Runs the batch the request carries through the engine, in the
    /// dispatcher's concurrency mode and under the reference admission
    /// policy.
    fn simulate_batch(&self, params: &RpcParams) -> (r: RpcResponse)
        ensures
            r is BatchResults <==> batch_ok(param_batch(params@)),
            r is BatchResults ==> batch_matches(
                AdmissionPolicy::EveryNthFails(REFERENCE_FAIL_PERIOD),
                param_batch(params@),
                out_views(r->BatchResults_0@),
            ),
            !(r is BatchResults) ==> r is BatchRejected,
    {
        let sim = Simulator::new(self.parallel);
        let empty: Vec<TxRequest> = Vec::new();
        let txs: &Vec<TxRequest> = match &params.transactions {
            Some(v) => v,
            None => &empty,
        };
        proof {
            assert(tx_views(txs@) =~= param_batch(params@));
        }
        match sim.simulate_batch(txs) {
            Ok(results) => RpcResponse::BatchResults(results),
            Err(e) => RpcResponse::BatchRejected(e),
        }
    }

    /// Routes one named operation. The listed names are served as their
    /// contracts say; any other name is answered method-not-found.
    pub fn handle_request(&self, method: &str, params: &RpcParams) -> (r: RpcResponse)
        ensures
            method@ == "eth_blockNumber"@ ==> (r is BlockNumber && r->BlockNumber_0@ == "0x"@
                + hex_digits(self.state@.current_block as nat)),
            method@ == "eth_getBalance"@ ==> (r is Balance && (
            if self.state@.accounts.contains_key(param_address(params@)) {
                r->Balance_0@ == self.state@.accounts[param_address(params@)].balance
            } else {
                r->Balance_0@ == "0x0"@
            })),
            method@ == "eth_sendTransaction"@ ==> (r is TxHash && (exists|v: u64|
                r->TxHash_0@ == "0x"@ + hex_digits_padded(v as nat, 64))),
            method@ == "eth_call"@ ==> (r is CallResult && r->CallResult_0@ == "0x"@),
            method@ == "eth_estimateGas"@ ==> (r is GasEstimate && r->GasEstimate_0@
                == "0x5208"@),
            method@ == "move_executeTransaction"@ ==> (r is MoveExecution
                && r->MoveExecution_status@ == "success"@ && (exists|v: u64|
                r->MoveExecution_hash@ == "0x"@ + hex_digits_padded(v as nat, 64))),
            method@ == "paraforge_simulateBatch"@ ==> {
                &&& (r is BatchResults <==> batch_ok(param_batch(params@)))
                &&& (r is BatchResults ==> batch_matches(
                    AdmissionPolicy::EveryNthFails(REFERENCE_FAIL_PERIOD),
                    param_batch(params@),
                    out_views(r->BatchResults_0@),
                ))
                &&& (!(r is BatchResults) ==> r is BatchRejected)
            },
            (method@ != "eth_blockNumber"@ && method@ != "eth_getBalance"@ && method@
                != "eth_sendTransaction"@ && method@ != "eth_call"@ && method@
                != "eth_estimateGas"@ && method@ != "move_executeTransaction"@ && method@
                != "paraforge_simulateBatch"@) ==> r is MethodNotFound,
    {
        proof {
            lemma_method_names_distinct();
        }
        if tag_eq(method, "eth_blockNumber") {
            self.block_number()
        } else if tag_eq(method, "eth_getBalance") {
            self.get_balance(params)
        } else if tag_eq(method, "eth_sendTransaction") {
            self.send_transaction()
        } else if tag_eq(method, "eth_call") {
            self.call()
        } else if tag_eq(method, "eth_estimateGas") {
            self.estimate_gas()
        } else if tag_eq(method, "move_executeTransaction") {
            self.execute_move_transaction()
        } else if tag_eq(method, "paraforge_simulateBatch") {
            self.simulate_batch(params)
        } else {
            RpcResponse::MethodNotFound
        }
    }
}

} // verus!
