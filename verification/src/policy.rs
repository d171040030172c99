//! The transaction-type policy tables: what a category of transaction
//! costs, which abstract resources it touches, and which transactions of a
//! batch the admission policy lets through.

use vstd::prelude::*;

use crate::types::{ChangeType, ExecutionStatus, ResourceChange, ResourceChangeView};

verus! {

/// In the reference admission policy, every transaction whose batch
/// position is a multiple of this period is marked failed.
pub const REFERENCE_FAIL_PERIOD: u64 = 7;

/// Decides, from a transaction's batch position alone, whether it is
/// admitted. The modulus rule stands in for a real execution semantics: it
/// exists so that failed results and conflict handling can be exercised.
#[derive(Clone, Copy, Debug, PartialEq, Eq, Structural)]
pub enum AdmissionPolicy {
    /// Every transaction succeeds.
    AllSucceed,
    /// Every transaction whose index is a multiple of the period fails;
    /// a period of zero admits everything.
    EveryNthFails(u64),
}

/// The status the admission policy assigns to the transaction at batch
/// position `i`.
pub open spec fn admit_status(p: AdmissionPolicy, i: int) -> ExecutionStatus {
    match p {
        AdmissionPolicy::AllSucceed => ExecutionStatus::Success,
        AdmissionPolicy::EveryNthFails(n) => if n >= 1 && i % (n as int) == 0 {
            ExecutionStatus::Failed
        } else {
            ExecutionStatus::Success
        },
    }
}

impl AdmissionPolicy {
    /// Applies the policy to the transaction at batch position `index`.
    pub fn decide(&self, index: usize) -> (st: ExecutionStatus)
        ensures
            st == admit_status(*self, index as int),
    {
        match self {
            AdmissionPolicy::AllSucceed => ExecutionStatus::Success,
            AdmissionPolicy::EveryNthFails(n) => {
                if *n >= 1 && (index as u64) % *n == 0 {
                    ExecutionStatus::Failed
                } else {
                    ExecutionStatus::Success
                }
            },
        }
    }
}

/// Whether two pieces of text hold the same characters.
pub fn tag_eq(a: &str, b: &str) -> (r: bool)
    ensures
        r == (a@ == b@),
{
    let sa = String::from_str(a);
    let sb = String::from_str(b);
    sa == sb
}

/// The flat gas cost of a transaction category; categories outside the
/// table fall into a default bucket.
pub open spec fn gas_for(t: Seq<char>) -> u64 {
    if t == "transfer"@ {
        21000
    } else if t == "swap"@ {
        85000
    } else if t == "mint"@ {
        120000
    } else {
        50000
    }
}

/// Looks up the flat gas cost of a transaction category.
pub fn gas_cost_for(t: &str) -> (g: u64)
    ensures
        g == gas_for(t@),
{
    if tag_eq(t, "transfer") {
        21000
    } else if tag_eq(t, "swap") {
        85000
    } else if tag_eq(t, "mint") {
        120000
    } else {
        50000
    }
}

/// One entry of the resource-touch template.
pub open spec fn touch(address: Seq<char>, resource_type: Seq<char>, change_type: ChangeType) -> ResourceChangeView {
    ResourceChangeView { address, resource_type, change_type, data: Seq::empty() }
}

/// The abstract resources a transaction category is defined to touch: a
/// transfer moves coin balances of both counterparties, a swap updates a
/// pool, a mint creates a token; anything else touches nothing.
pub open spec fn changes_for(t: Seq<char>) -> Seq<ResourceChangeView> {
    if t == "transfer"@ {
        seq![
            touch("0xsender"@, "Coin<MOVE>"@, ChangeType::Update),
            touch("0xrecipient"@, "Coin<MOVE>"@, ChangeType::Update),
        ]
    } else if t == "swap"@ {
        seq![touch("0xpool"@, "LiquidityPool"@, ChangeType::Update)]
    } else if t == "mint"@ {
        seq![touch("0xminter"@, "NFT"@, ChangeType::Create)]
    } else {
        Seq::empty()
    }
}

fn make_touch(address: &str, resource_type: &str, change_type: ChangeType) -> (c: ResourceChange)
    ensures
        c@ == touch(address@, resource_type@, change_type),
{
    ResourceChange {
        address: String::from_str(address),
        resource_type: String::from_str(resource_type),
        change_type,
        data: String::new(),
    }
}

/// Derives the ordered resource touches of one transaction of category
/// `t`, straight from the policy table.
pub fn resource_changes_for(t: &str) -> (v: Vec<ResourceChange>)
    ensures
        v@.map_values(|c: ResourceChange| c@) == changes_for(t@),
{
    let mut v: Vec<ResourceChange> = Vec::new();
    if tag_eq(t, "transfer") {
        v.push(make_touch("0xsender", "Coin<MOVE>", ChangeType::Update));
        v.push(make_touch("0xrecipient", "Coin<MOVE>", ChangeType::Update));
    } else if tag_eq(t, "swap") {
        v.push(make_touch("0xpool", "LiquidityPool", ChangeType::Update));
    } else if tag_eq(t, "mint") {
        v.push(make_touch("0xminter", "NFT", ChangeType::Create));
    }
    proof {
        assert(v@.map_values(|c: ResourceChange| c@) =~= changes_for(t@));
    }
    v
}

} // verus!
