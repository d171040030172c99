//! The execution engine: turns a batch of transaction descriptors into a
//! same-length batch of per-transaction outcomes, either sequentially or
//! across a worker pool, with identical content either way apart from
//! elapsed time.

use vstd::prelude::*;

use rayon::iter::IndexedParallelIterator;
use rayon::iter::IntoParallelRefIterator;
use rayon::iter::ParallelIterator;

use crate::clock;
use crate::numfmt::dec_digits;
use crate::numfmt::u64_to_dec;
use crate::policy::{
    admit_status, changes_for, gas_for, AdmissionPolicy, REFERENCE_FAIL_PERIOD,
};
use crate::policy::{gas_cost_for, resource_changes_for};
use crate::types::{ExecutionStatus, ResourceChange, ResourceChangeView};

verus! {

/// A transaction descriptor as submitted for simulation: an optional
/// caller-chosen identifier and a category tag. The tag is required; a
/// descriptor without one is rejected at the batch boundary.
#[derive(Clone, Debug)]
pub struct TxRequest {
    pub id: Option<String>,
    pub tx_type: Option<String>,
}

/// Mathematical image of a `TxRequest`.
pub struct TxRequestView {
    pub id: Option<Seq<char>>,
    pub tx_type: Option<Seq<char>>,
}

impl View for TxRequest {
    type V = TxRequestView;

    open spec fn view(&self) -> TxRequestView {
        TxRequestView {
            id: crate::types::opt_string_view(self.id),
            tx_type: crate::types::opt_string_view(self.tx_type),
        }
    }
}

/// The simulated outcome of one transaction of a batch.
#[derive(Clone, Debug)]
pub struct TxOutcome {
    pub id: String,
    pub tx_type: String,
    pub status: ExecutionStatus,
    pub gas_used: u64,
    pub resource_changes: Vec<ResourceChange>,
    pub conflicts: Vec<String>,
    pub execution_time_ms: u64,
}

/// Mathematical image of a `TxOutcome`.
pub struct TxOutcomeView {
    pub id: Seq<char>,
    pub tx_type: Seq<char>,
    pub status: ExecutionStatus,
    pub gas_used: u64,
    pub resource_changes: Seq<ResourceChangeView>,
    pub conflicts: Seq<Seq<char>>,
    pub execution_time_ms: u64,
}

impl View for TxOutcome {
    type V = TxOutcomeView;

    open spec fn view(&self) -> TxOutcomeView {
        TxOutcomeView {
            id: self.id@,
            tx_type: self.tx_type@,
            status: self.status,
            gas_used: self.gas_used,
            resource_changes: self.resource_changes@.map_values(|c: ResourceChange| c@),
            conflicts: self.conflicts.deep_view(),
            execution_time_ms: self.execution_time_ms,
        }
    }
}

/// The timing-free content of an outcome: every field the engine
/// guarantees, with the elapsed-time observation stripped.
#[verifier::ext_equal]
pub struct TxOutcomeCore {
    pub id: Seq<char>,
    pub tx_type: Seq<char>,
    pub status: ExecutionStatus,
    pub gas_used: u64,
    pub resource_changes: Seq<ResourceChangeView>,
    pub conflicts: Seq<Seq<char>>,
}

/// Strips the timing observation from an outcome.
pub open spec fn core_of(o: TxOutcomeView) -> TxOutcomeCore {
    TxOutcomeCore {
        id: o.id,
        tx_type: o.tx_type,
        status: o.status,
        gas_used: o.gas_used,
        resource_changes: o.resource_changes,
        conflicts: o.conflicts,
    }
}

/// The identifier an outcome carries: the caller's, or one synthesized
/// from the batch position.
pub open spec fn expected_id(tx: TxRequestView, i: int) -> Seq<char> {
    match tx.id {
        Some(s) => s,
        None => "tx_"@ + dec_digits(i as nat),
    }
}

/// What the engine computes for the transaction at batch position `i`
/// under policy `p`, apart from timing: identifier, echoed category,
/// admission status, flat gas cost, the category's resource touches, and
/// a flagged-resource marker exactly on failed transactions.
pub open spec fn expected_core(p: AdmissionPolicy, tx: TxRequestView, i: int) -> TxOutcomeCore {
    let t = tx.tx_type->0;
    let st = admit_status(p, i);
    TxOutcomeCore {
        id: expected_id(tx, i),
        tx_type: t,
        status: st,
        gas_used: gas_for(t),
        resource_changes: changes_for(t),
        conflicts: if st is Failed {
            seq!["resource_0x123"@]
        } else {
            Seq::empty()
        },
    }
}

/// The images of a descriptor vector.
pub open spec fn tx_views(s: Seq<TxRequest>) -> Seq<TxRequestView> {
    s.map_values(|t: TxRequest| t@)
}

/// The images of an outcome vector.
pub open spec fn out_views(s: Seq<TxOutcome>) -> Seq<TxOutcomeView> {
    s.map_values(|o: TxOutcome| o@)
}

/// Whether every descriptor of the batch carries a category tag.
pub open spec fn batch_ok(txs: Seq<TxRequestView>) -> bool {
    forall|i: int| 0 <= i < txs.len() ==> (#[trigger] txs[i].tx_type) is Some
}

/// Whether `rs` is a correct result batch for `txs` under policy `p`:
/// one outcome per descriptor, in input order, each with exactly the
/// expected timing-free content.
pub open spec fn batch_matches(
    p: AdmissionPolicy,
    txs: Seq<TxRequestView>,
    rs: Seq<TxOutcomeView>,
) -> bool {
    &&& rs.len() == txs.len()
    &&& forall|i: int|
        0 <= i < txs.len() ==> core_of(#[trigger] rs[i]) == expected_core(p, txs[i], i)
}

/// Why a batch was rejected without executing anything.
#[derive(Clone, Copy, Debug, PartialEq, Eq, Structural)]
pub enum SimError {
    /// The descriptor at this batch position has no category tag.
    MissingTxType { index: usize },
}

/// The execution engine. `parallel` picks the concurrency mode of
/// `simulate_batch`; the admission policy decides which transactions are
/// marked failed.
pub struct Simulator {
    pub parallel: bool,
    pub policy: AdmissionPolicy,
}

/// Relies on rayon: `par_iter` over a slice is an indexed parallel
/// iterator, `map` keeps it indexed, and `collect_into_vec` writes each
/// closure result at its input's index, so the output holds exactly one
/// outcome per descriptor, in input order. The closure only calls the
/// verified `Simulator::simulate_single`, whose contract gives each
/// outcome its expected content.
#[verifier::external_body]
fn simulate_across_workers(sim: &Simulator, txs: &Vec<TxRequest>) -> (rs: Vec<TxOutcome>)
    requires
        batch_ok(tx_views(txs@)),
    ensures
        batch_matches(sim.policy, tx_views(txs@), out_views(rs@)),
{
    let mut rs: Vec<TxOutcome> = Vec::new();
    txs.par_iter().enumerate().map(|(i, tx)| sim.simulate_single(tx, i)).collect_into_vec(
        &mut rs,
    );
    rs
}

impl Simulator {
    /// An engine with the reference admission policy.
    pub fn new(parallel: bool) -> (s: Self)
        ensures
            s.parallel == parallel,
            s.policy == AdmissionPolicy::EveryNthFails(REFERENCE_FAIL_PERIOD),
    {
        Simulator { parallel, policy: AdmissionPolicy::EveryNthFails(REFERENCE_FAIL_PERIOD) }
    }

    /// An engine with a caller-chosen admission policy.
    pub fn with_policy(parallel: bool, policy: AdmissionPolicy) -> (s: Self)
        ensures
            s.parallel == parallel,
            s.policy == policy,
    {
        Simulator { parallel, policy }
    }

    /// Simulates one transaction: resolves its identifier, applies the
    /// admission policy, looks up the gas cost and resource touches of
    /// its category, and records the elapsed wall-clock time.
    pub fn simulate_single(&self, tx: &TxRequest, index: usize) -> (o: TxOutcome)
        requires
            tx@.tx_type is Some,
        ensures
            core_of(o@) == expected_core(self.policy, tx@, index as int),
    {
        let start = clock::millis_since_epoch(&clock::sys_now());
        let tx_type: String = match &tx.tx_type {
            Some(t) => t.clone(),
            None => String::new(),
        };
        let id: String = match &tx.id {
            Some(s) => s.clone(),
            None => String::from_str("tx_").concat(u64_to_dec(index as u64).as_str()),
        };
        let status = self.policy.decide(index);
        let gas_used = gas_cost_for(tx_type.as_str());
        let resource_changes = resource_changes_for(tx_type.as_str());
        let mut conflicts: Vec<String> = Vec::new();
        if matches!(status, ExecutionStatus::Failed) {
            conflicts.push(String::from_str("resource_0x123"));
        }
        let end = clock::millis_since_epoch(&clock::sys_now());
        let o = TxOutcome {
            id,
            tx_type,
            status,
            gas_used,
            resource_changes,
            conflicts,
            execution_time_ms: clock::elapsed_ms(start, end),
        };
        proof {
            assert(o@.conflicts =~= expected_core(self.policy, tx@, index as int).conflicts);
            assert(core_of(o@) =~= expected_core(self.policy, tx@, index as int));
        }
        o
    }

    /// Simulates the batch one transaction at a time, in input order.
    pub fn simulate_sequential(&self, txs: &Vec<TxRequest>) -> (rs: Vec<TxOutcome>)
        requires
            batch_ok(tx_views(txs@)),
        ensures
            batch_matches(self.policy, tx_views(txs@), out_views(rs@)),
    {
        let mut rs: Vec<TxOutcome> = Vec::new();
        let n = txs.len();
        let mut i: usize = 0;
        while i < n
            invariant
                0 <= i <= n,
                n == txs@.len(),
                batch_ok(tx_views(txs@)),
                rs@.len() == i,
                forall|j: int|
                    0 <= j < i ==> core_of((#[trigger] rs@[j])@) == expected_core(
                        self.policy,
                        txs@[j]@,
                        j,
                    ),
            decreases n - i,
        {
            proof {
                assert(tx_views(txs@)[i as int].tx_type is Some);
                assert(txs@[i as int]@.tx_type is Some);
            }
            let o = self.simulate_single(&txs[i], i);
            rs.push(o);
            i = i + 1;
        }
        proof {
            assert forall|j: int| 0 <= j < txs@.len() implies core_of(
                #[trigger] out_views(rs@)[j],
            ) == expected_core(self.policy, tx_views(txs@)[j], j) by {
                assert(out_views(rs@)[j] == rs@[j]@);
                assert(tx_views(txs@)[j] == txs@[j]@);
            }
        }
        rs
    }

    /// Simulates the batch across a worker pool; completion order does
    /// not matter because the results are reassembled in input order.
    pub fn simulate_parallel(&self, txs: &Vec<TxRequest>) -> (rs: Vec<TxOutcome>)
        requires
            batch_ok(tx_views(txs@)),
        ensures
            batch_matches(self.policy, tx_views(txs@), out_views(rs@)),
    {
        simulate_across_workers(self, txs)
    }

    /// Simulates a whole batch. A descriptor without a category tag
    /// rejects the batch — the position of the first such descriptor is
    /// reported and nothing is executed. Otherwise there is exactly one
    /// outcome per descriptor, in input order, with the expected
    /// timing-free content; sequential and parallel modes agree on
    /// everything but elapsed time.
    pub fn simulate_batch(&self, txs: &Vec<TxRequest>) -> (r: Result<Vec<TxOutcome>, SimError>)
        ensures
            r is Ok <==> batch_ok(tx_views(txs@)),
            r is Ok ==> batch_matches(self.policy, tx_views(txs@), out_views(r->Ok_0@)),
            r is Ok ==> r->Ok_0@.len() == txs@.len(),
            r is Err ==> {
                let i = r->Err_0->index as int;
                &&& 0 <= i < txs@.len()
                &&& tx_views(txs@)[i].tx_type is None
                &&& forall|j: int| 0 <= j < i ==> (#[trigger] tx_views(txs@)[j].tx_type) is Some
            },
    {
        let n = txs.len();
        let mut i: usize = 0;
        while i < n
            invariant
                0 <= i <= n,
                n == txs@.len(),
                forall|j: int| 0 <= j < i ==> ((#[trigger] txs@[j])@.tx_type) is Some,
            decreases n - i,
        {
            if txs[i].tx_type.is_none() {
                proof {
                    assert(tx_views(txs@)[i as int].tx_type is None);
                    assert forall|j: int| 0 <= j < i implies (#[trigger] tx_views(txs@)[j].tx_type)
                        is Some by {
                        assert(tx_views(txs@)[j] == txs@[j]@);
                    }
                }
                return Err(SimError::MissingTxType { index: i });
            }
            i = i + 1;
        }
        proof {
            assert forall|j: int| 0 <= j < txs@.len() implies (#[trigger] tx_views(
                txs@,
            )[j].tx_type) is Some by {
                assert(tx_views(txs@)[j] == txs@[j]@);
            }
        }
        if self.parallel {
            Ok(self.simulate_parallel(txs))
        } else {
            Ok(self.simulate_sequential(txs))
        }
    }
}

/// Builds `count` synthetic transactions: identifier `tx_<i>` and a
/// category cycling through transfer, swap and mint by batch position.
pub fn generate_sample_transactions(count: usize) -> (v: Vec<TxRequest>)
    ensures
        v@.len() == count,
        forall|i: int|
            0 <= i < count ==> (#[trigger] tx_views(v@)[i]) == (TxRequestView {
                id: Some("tx_"@ + dec_digits(i as nat)),
                tx_type: Some(sample_type(i)),
            }),
{
    let mut v: Vec<TxRequest> = Vec::new();
    let mut i: usize = 0;
    while i < count
        invariant
            0 <= i <= count,
            v@.len() == i,
            forall|j: int|
                0 <= j < i ==> ((#[trigger] v@[j])@) == (TxRequestView {
                    id: Some("tx_"@ + dec_digits(j as nat)),
                    tx_type: Some(sample_type(j)),
                }),
        decreases count - i,
    {
        let id = String::from_str("tx_").concat(u64_to_dec(i as u64).as_str());
        let tag = if i % 3 == 0 {
            "transfer"
        } else if i % 3 == 1 {
            "swap"
        } else {
            "mint"
        };
        v.push(TxRequest { id: Some(id), tx_type: Some(String::from_str(tag)) });
        i = i + 1;
    }
    proof {
        assert forall|i: int| 0 <= i < count implies (#[trigger] tx_views(v@)[i]) == (TxRequestView {
            id: Some("tx_"@ + dec_digits(i as nat)),
            tx_type: Some(sample_type(i)),
        }) by {
            assert(tx_views(v@)[i] == v@[i]@);
        }
    }
    v
}

/// The sample generator's category for batch position `i`.
pub open spec fn sample_type(i: int) -> Seq<char> {
    if i % 3 == 0 {
        "transfer"@
    } else if i % 3 == 1 {
        "swap"@
    } else {
        "mint"@
    }
}

/// Sequential and parallel simulation of one batch agree: any two result
/// batches that meet the engine's contract for the same descriptors and
/// policy have the same length and identical timing-free content at every
/// position.
pub proof fn lemma_modes_agree(
    p: AdmissionPolicy,
    txs: Seq<TxRequestView>,
    a: Seq<TxOutcomeView>,
    b: Seq<TxOutcomeView>,
)
    requires
        batch_matches(p, txs, a),
        batch_matches(p, txs, b),
    ensures
        a.len() == b.len(),
        forall|i: int| 0 <= i < a.len() ==> core_of(#[trigger] a[i]) == core_of(b[i]),
{
    assert forall|i: int| 0 <= i < a.len() implies core_of(#[trigger] a[i]) == core_of(b[i]) by {
        assert(core_of(a[i]) == expected_core(p, txs[i], i));
        assert(core_of(b[i]) == expected_core(p, txs[i], i));
    }
}

} // verus!
