//! The conflict analyzer: groups the resource touches of one batch's
//! results by resource name and reports every resource touched by more
//! than one transaction of the batch.

use vstd::prelude::*;

use crate::simulator::{out_views, Simulator, TxOutcome, TxOutcomeView};

verus! {

/// One detected contention: a resource name and the batch positions of
/// every transaction that touches it.
#[derive(Clone, Debug)]
pub struct Conflict {
    pub resource: String,
    pub conflicting_txs: Vec<usize>,
    pub severity: String,
}

/// Mathematical image of a `Conflict`.
pub struct ConflictView {
    pub resource: Seq<char>,
    pub conflicting_txs: Seq<usize>,
    pub severity: Seq<char>,
}

impl View for Conflict {
    type V = ConflictView;

    open spec fn view(&self) -> ConflictView {
        ConflictView {
            resource: self.resource@,
            conflicting_txs: self.conflicting_txs@,
            severity: self.severity@,
        }
    }
}

/// The analyzer's report over one batch of results.
#[derive(Clone, Debug)]
pub struct ConflictReport {
    pub total_conflicts: usize,
    pub conflicts: Vec<Conflict>,
    pub recommendation: String,
}

/// Whether the outcome's resource-change list mentions the resource
/// named `res`.
pub open spec fn tx_touches(o: TxOutcomeView, res: Seq<char>) -> bool {
    exists|k: int|
        0 <= k < o.resource_changes.len() && (#[trigger] o.resource_changes[k]).resource_type
            == res
}

/// Whether two distinct transactions of the batch touch the resource
/// named `res`.
pub open spec fn is_conflicting(rs: Seq<TxOutcomeView>, res: Seq<char>) -> bool {
    exists|i1: int, i2: int|
        0 <= i1 < i2 < rs.len() && tx_touches(#[trigger] rs[i1], res) && tx_touches(
            #[trigger] rs[i2],
            res,
        )
}

/// What one reported conflict promises about the batch: high severity,
/// and `conflicting_txs` listing, strictly ascending, exactly the batch
/// positions whose outcome touches the resource — at least two of them.
pub open spec fn conflict_entry_ok(rs: Seq<TxOutcomeView>, c: ConflictView) -> bool {
    &&& c.severity == "high"@
    &&& c.conflicting_txs.len() >= 2
    &&& forall|m: int, n: int|
        0 <= m < n < c.conflicting_txs.len() ==> (#[trigger] c.conflicting_txs[m]) < (
        #[trigger] c.conflicting_txs[n])
    &&& forall|m: int|
        0 <= m < c.conflicting_txs.len() ==> (#[trigger] c.conflicting_txs[m]) < rs.len()
            && tx_touches(rs[c.conflicting_txs[m] as int], c.resource)
    &&& forall|i: int|
        0 <= i < rs.len() && tx_touches(#[trigger] rs[i], c.resource)
            ==> c.conflicting_txs.contains(i as usize)
}

/// Whether `res` occurs among the listed names.
pub open spec fn name_listed(names: Seq<Seq<char>>, res: Seq<char>) -> bool {
    exists|p: int| 0 <= p < names.len() && names[p] == res
}

/// The images of a vector of names.
pub open spec fn name_views(names: Seq<String>) -> Seq<Seq<char>> {
    names.map_values(|s: String| s@)
}

proof fn lemma_name_listed_push(names: Seq<Seq<char>>, x: Seq<char>, res: Seq<char>)
    requires
        name_listed(names, res) || x == res,
    ensures
        name_listed(names.push(x), res),
{
    if name_listed(names, res) {
        let p = choose|p: int| 0 <= p < names.len() && names[p] == res;
        assert(names.push(x)[p] == res);
    } else {
        assert(names.push(x)[names.len() as int] == res);
    }
}

/// Whether the outcome's change list mentions `res`.
fn outcome_touches(o: &TxOutcome, res: &String) -> (b: bool)
    ensures
        b == tx_touches(o@, res@),
{
    let n = o.resource_changes.len();
    let mut j: usize = 0;
    while j < n
        invariant
            0 <= j <= n,
            n == o.resource_changes@.len(),
            forall|k: int|
                0 <= k < j ==> ((#[trigger] o.resource_changes@[k])@.resource_type != res@),
        decreases n - j,
    {
        if o.resource_changes[j].resource_type == *res {
            proof {
                assert(o@.resource_changes[j as int].resource_type == res@);
            }
            return true;
        }
        j = j + 1;
    }
    proof {
        assert forall|k: int| 0 <= k < o@.resource_changes.len() implies (
        #[trigger] o@.resource_changes[k]).resource_type != res@ by {
            assert(o@.resource_changes[k] == o.resource_changes@[k]@);
        }
    }
    false
}

/// Finds the position of `res` among the collected names, if present.
fn find_name(names: &Vec<String>, res: &String) -> (r: Option<usize>)
    ensures
        match r {
            Some(p) => p < names@.len() && names@[p as int]@ == res@,
            None => !name_listed(name_views(names@), res@),
        },
{
    let n = names.len();
    let mut p: usize = 0;
    while p < n
        invariant
            0 <= p <= n,
            n == names@.len(),
            forall|q: int| 0 <= q < p ==> ((#[trigger] names@[q])@ != res@),
        decreases n - p,
    {
        if names[p] == *res {
            return Some(p);
        }
        p = p + 1;
    }
    proof {
        if name_listed(name_views(names@), res@) {
            let q = choose|q: int|
                0 <= q < name_views(names@).len() && name_views(names@)[q] == res@;
            assert(names@[q]@ == res@);
        }
    }
    None
}

/// Collects, in first-mention order and without repetition, every
/// resource name that any result's change list mentions.
fn collect_names(results: &Vec<TxOutcome>) -> (names: Vec<String>)
    ensures
        forall|m: int, n: int|
            0 <= m < n < names@.len() ==> ((#[trigger] names@[m])@ != (#[trigger] names@[n])@),
        forall|i: int, k: int|
            #![trigger results@[i]@.resource_changes[k]]
            0 <= i < results@.len() && 0 <= k < results@[i]@.resource_changes.len() ==> name_listed(
                name_views(names@),
                results@[i]@.resource_changes[k].resource_type,
            ),
{
    let mut names: Vec<String> = Vec::new();
    let n = results.len();
    let mut i: usize = 0;
    while i < n
        invariant
            0 <= i <= n,
            n == results@.len(),
            forall|m: int, q: int|
                0 <= m < q < names@.len() ==> ((#[trigger] names@[m])@ != (#[trigger] names@[q])@),
            forall|i2: int, k2: int|
                #![trigger results@[i2]@.resource_changes[k2]]
                0 <= i2 < i && 0 <= k2 < results@[i2]@.resource_changes.len() ==> name_listed(
                    name_views(names@),
                    results@[i2]@.resource_changes[k2].resource_type,
                ),
        decreases n - i,
    {
        let o = &results[i];
        let cn = o.resource_changes.len();
        let mut k: usize = 0;
        while k < cn
            invariant
                0 <= k <= cn,
                cn == o.resource_changes@.len(),
                o == results@[i as int],
                0 <= i < results@.len(),
                n == results@.len(),
                forall|m: int, q: int|
                    0 <= m < q < names@.len() ==> ((#[trigger] names@[m])@ != (
                    #[trigger] names@[q])@),
                forall|i2: int, k2: int|
                    #![trigger results@[i2]@.resource_changes[k2]]
                    0 <= i2 < i && 0 <= k2 < results@[i2]@.resource_changes.len() ==> name_listed(
                        name_views(names@),
                        results@[i2]@.resource_changes[k2].resource_type,
                    ),
                forall|k2: int|
                    #![trigger results@[i as int]@.resource_changes[k2]]
                    0 <= k2 < k ==> name_listed(
                        name_views(names@),
                        results@[i as int]@.resource_changes[k2].resource_type,
                    ),
            decreases cn - k,
        {
            let res = &o.resource_changes[k].resource_type;
            proof {
                assert(results@[i as int]@.resource_changes[k as int].resource_type == res@);
            }
            let found = find_name(&names, res);
            if found.is_none() {
                let ghost names0 = names@;
                names.push(res.clone());
                proof {
                    assert(name_views(names@) =~= name_views(names0).push(res@));
                    assert forall|m: int, q: int|
                        0 <= m < q < names@.len() implies ((#[trigger] names@[m])@ != (
                    #[trigger] names@[q])@) by {
                        assert(names@[m] == names0[m]);
                        if q < names0.len() {
                            assert(names@[q] == names0[q]);
                        } else {
                            assert(names@[q]@ == res@);
                            if names0[m]@ == res@ {
                                assert(name_views(names0)[m] == res@);
                                assert(name_listed(name_views(names0), res@));
                            }
                        }
                    }
                    assert forall|i2: int, k2: int|
                        #![trigger results@[i2]@.resource_changes[k2]]
                        0 <= i2 < i && 0 <= k2 < results@[i2]@.resource_changes.len() implies name_listed(
                        name_views(names@),
                        results@[i2]@.resource_changes[k2].resource_type,
                    ) by {
                        lemma_name_listed_push(
                            name_views(names0),
                            res@,
                            results@[i2]@.resource_changes[k2].resource_type,
                        );
                    }
                    assert forall|k2: int|
                        #![trigger results@[i as int]@.resource_changes[k2]]
                        0 <= k2 < k + 1 implies name_listed(
                        name_views(names@),
                        results@[i as int]@.resource_changes[k2].resource_type,
                    ) by {
                        lemma_name_listed_push(
                            name_views(names0),
                            res@,
                            results@[i as int]@.resource_changes[k2].resource_type,
                        );
                    }
                }
            } else {
                proof {
                    let p = found->0;
                    assert(name_views(names@)[p as int] == res@);
                    assert forall|k2: int|
                        #![trigger results@[i as int]@.resource_changes[k2]]
                        0 <= k2 < k + 1 implies name_listed(
                        name_views(names@),
                        results@[i as int]@.resource_changes[k2].resource_type,
                    ) by {}
                }
            }
            k = k + 1;
        }
        i = i + 1;
    }
    names
}

/// Lists, in ascending order, every batch position whose outcome touches
/// the resource named `name`.
fn build_group(results: &Vec<TxOutcome>, name: &String) -> (g: Vec<usize>)
    ensures
        forall|m: int, n: int| 0 <= m < n < g@.len() ==> (#[trigger] g@[m]) < (#[trigger] g@[n]),
        forall|m: int|
            0 <= m < g@.len() ==> (#[trigger] g@[m]) < results@.len() && tx_touches(
                results@[g@[m] as int]@,
                name@,
            ),
        forall|i: int|
            0 <= i < results@.len() && tx_touches((#[trigger] results@[i])@, name@) ==> g@.contains(
                i as usize,
            ),
{
    let mut g: Vec<usize> = Vec::new();
    let n = results.len();
    let mut i: usize = 0;
    while i < n
        invariant
            0 <= i <= n,
            n == results@.len(),
            forall|m: int, q: int| 0 <= m < q < g@.len() ==> (#[trigger] g@[m]) < (#[trigger] g@[q]),
            forall|m: int|
                0 <= m < g@.len() ==> (#[trigger] g@[m]) < i && tx_touches(
                    results@[g@[m] as int]@,
                    name@,
                ),
            forall|i2: int|
                0 <= i2 < i && tx_touches((#[trigger] results@[i2])@, name@) ==> g@.contains(
                    i2 as usize,
                ),
        decreases n - i,
    {
        if outcome_touches(&results[i], name) {
            let ghost g0 = g@;
            g.push(i);
            proof {
                assert(g@[g@.len() - 1] == i as usize);
                assert forall|i2: int|
                    0 <= i2 < i + 1 && tx_touches((#[trigger] results@[i2])@, name@) implies g@
                    .contains(i2 as usize) by {
                    if i2 < i {
                        let m = choose|m: int| 0 <= m < g0.len() && g0[m] == i2 as usize;
                        assert(g@[m] == i2 as usize);
                    }
                }
            }
        }
        i = i + 1;
    }
    g
}

impl Simulator {
    /// Reads one batch's results and reports every resource touched by
    /// two or more distinct transactions of the batch: a high-severity
    /// entry per such resource, listing every touching position, a count
    /// of the entries, and a recommendation that is the safe text exactly
    /// when there are none. The results themselves are left as they are.
    #[verifier::rlimit(100)]
    pub fn analyze_conflicts(&self, results: &Vec<TxOutcome>) -> (rep: ConflictReport)
        ensures
            rep.total_conflicts == rep.conflicts@.len(),
            forall|c: int|
                0 <= c < rep.conflicts@.len() ==> conflict_entry_ok(
                    out_views(results@),
                    (#[trigger] rep.conflicts@[c])@,
                ),
            forall|c1: int, c2: int|
                0 <= c1 < c2 < rep.conflicts@.len() ==> ((#[trigger] rep.conflicts@[c1])@.resource
                    != (#[trigger] rep.conflicts@[c2])@.resource),
            forall|res: Seq<char>|
                #[trigger] is_conflicting(out_views(results@), res) ==> exists|c: int|
                    0 <= c < rep.conflicts@.len() && rep.conflicts@[c]@.resource == res,
            rep.conflicts@.len() == 0 ==> rep.recommendation@
                == "No conflicts detected. Transactions can execute in parallel safely."@,
            rep.conflicts@.len() > 0 ==> rep.recommendation@
                == "Conflicts detected. Consider retry logic or transaction reordering."@,
    {
        let ghost rs = out_views(results@);
        let nr = results.len();
        proof {
            assert forall|i: int| 0 <= i < results@.len() implies (#[trigger] rs[i]) == results@[i]@
                by {}
        }
        let names = collect_names(results);
        let mut conflicts: Vec<Conflict> = Vec::new();
        let np = names.len();
        let mut p: usize = 0;
        while p < np
            invariant
                0 <= p <= np,
                np == names@.len(),
                rs == out_views(results@),
                rs.len() == results@.len(),
                results@.len() == nr,
                forall|i: int| 0 <= i < results@.len() ==> ((#[trigger] rs[i]) == results@[i]@),
                forall|m: int, q: int|
                    0 <= m < q < names@.len() ==> ((#[trigger] names@[m])@ != (
                    #[trigger] names@[q])@),
                forall|c: int|
                    0 <= c < conflicts@.len() ==> conflict_entry_ok(rs, (#[trigger] conflicts@[c])@),
                forall|c: int|
                    0 <= c < conflicts@.len() ==> exists|q: int|
                        0 <= q < p && (#[trigger] conflicts@[c])@.resource == names@[q]@,
                forall|c1: int, c2: int|
                    0 <= c1 < c2 < conflicts@.len() ==> ((#[trigger] conflicts@[c1])@.resource != (
                    #[trigger] conflicts@[c2])@.resource),
                forall|q: int|
                    0 <= q < p && is_conflicting(rs, (#[trigger] names@[q])@) ==> exists|c: int|
                        0 <= c < conflicts@.len() && conflicts@[c]@.resource == names@[q]@,
            decreases np - p,
        {
            let name = &names[p];
            let group = build_group(results, name);
            if group.len() >= 2 {
                let entry = Conflict {
                    resource: name.clone(),
                    conflicting_txs: group,
                    severity: String::from_str("high"),
                };
                proof {
                    assert(entry@.resource == names@[p as int]@);
                    assert forall|m: int|
                        0 <= m < entry@.conflicting_txs.len() implies (
                    #[trigger] entry@.conflicting_txs[m]) < rs.len() && tx_touches(
                        rs[entry@.conflicting_txs[m] as int],
                        entry@.resource,
                    ) by {
                        assert(rs[entry@.conflicting_txs[m] as int] == results@[entry@.conflicting_txs[m] as int]@);
                    }
                    assert forall|i: int|
                        0 <= i < rs.len() && tx_touches(#[trigger] rs[i], entry@.resource) implies entry@.conflicting_txs.contains(
                        i as usize,
                    ) by {
                        assert(results@[i]@ == rs[i]);
                    }
                    assert(conflict_entry_ok(rs, entry@));
                }
                let ghost conflicts0 = conflicts@;
                conflicts.push(entry);
                proof {
                    assert forall|c: int| 0 <= c < conflicts@.len() implies exists|q: int|
                        0 <= q < p + 1 && (#[trigger] conflicts@[c])@.resource == names@[q]@ by {
                        if c < conflicts0.len() {
                            assert(conflicts@[c] == conflicts0[c]);
                            let q = choose|q: int|
                                0 <= q < p && conflicts0[c]@.resource == names@[q]@;
                            assert(conflicts@[c]@.resource == names@[q]@);
                        } else {
                            assert(conflicts@[c]@.resource == names@[p as int]@);
                        }
                    }
                    assert forall|c1: int, c2: int|
                        0 <= c1 < c2 < conflicts@.len() implies ((
                    #[trigger] conflicts@[c1])@.resource != (#[trigger] conflicts@[c2])@.resource) by {
                        if c2 < conflicts0.len() {
                            assert(conflicts@[c1] == conflicts0[c1]);
                            assert(conflicts@[c2] == conflicts0[c2]);
                        } else {
                            assert(conflicts@[c1] == conflicts0[c1]);
                            let q = choose|q: int|
                                0 <= q < p && conflicts0[c1]@.resource == names@[q]@;
                            assert(names@[q]@ != names@[p as int]@);
                            assert(conflicts@[c2]@.resource == names@[p as int]@);
                        }
                    }
                    assert forall|q: int|
                        0 <= q < p + 1 && is_conflicting(rs, (#[trigger] names@[q])@) implies exists|
                        c: int,
                    |
                        0 <= c < conflicts@.len() && conflicts@[c]@.resource == names@[q]@ by {
                        if q < p {
                            let c = choose|c: int|
                                0 <= c < conflicts0.len() && conflicts0[c]@.resource == names@[q]@;
                            assert(conflicts@[c] == conflicts0[c]);
                        } else {
                            assert(conflicts@[conflicts@.len() - 1]@.resource == names@[q]@);
                        }
                    }
                }
            } else {
                proof {
                    assert(!is_conflicting(rs, names@[p as int]@)) by {
                        if is_conflicting(rs, names@[p as int]@) {
                            let (i1, i2) = choose|i1: int, i2: int|
                                0 <= i1 < i2 < rs.len() && tx_touches(
                                    #[trigger] rs[i1],
                                    names@[p as int]@,
                                ) && tx_touches(#[trigger] rs[i2], names@[p as int]@);
                            assert(tx_touches(results@[i1]@, names@[p as int]@));
                            assert(tx_touches(results@[i2]@, names@[p as int]@));
                            assert(group@.contains(i1 as usize));
                            assert(group@.contains(i2 as usize));
                            assert(i1 as usize != i2 as usize);
                            let m1 = choose|m: int|
                                0 <= m < group@.len() && group@[m] == i1 as usize;
                            let m2 = choose|m: int|
                                0 <= m < group@.len() && group@[m] == i2 as usize;
                            assert(group@[m1] != group@[m2]);
                            assert(m1 != m2);
                        }
                    }
                }
            }
            p = p + 1;
        }
        let recommendation = if conflicts.len() == 0 {
            String::from_str("No conflicts detected. Transactions can execute in parallel safely.")
        } else {
            String::from_str("Conflicts detected. Consider retry logic or transaction reordering.")
        };
        proof {
            assert forall|res: Seq<char>| #[trigger]
                is_conflicting(rs, res) implies exists|c: int|
                0 <= c < conflicts@.len() && conflicts@[c]@.resource == res by {
                let (i1, i2) = choose|i1: int, i2: int|
                    0 <= i1 < i2 < rs.len() && tx_touches(#[trigger] rs[i1], res) && tx_touches(
                        #[trigger] rs[i2],
                        res,
                    );
                let k = choose|k: int|
                    0 <= k < rs[i1].resource_changes.len() && (
                    #[trigger] rs[i1].resource_changes[k]).resource_type == res;
                assert(results@[i1]@.resource_changes[k].resource_type == res);
                assert(name_listed(
                    name_views(names@),
                    results@[i1]@.resource_changes[k].resource_type,
                ));
                let q = choose|q: int|
                    0 <= q < name_views(names@).len() && name_views(names@)[q] == res;
                assert(names@[q]@ == res);
                assert(is_conflicting(rs, names@[q]@));
            }
        }
        ConflictReport { total_conflicts: conflicts.len(), conflicts, recommendation }
    }
}

/// A batch in which no resource is touched by two distinct transactions
/// admits no well-formed conflict entry at all: any report whose entries
/// all meet `conflict_entry_ok` is empty for such a batch.
pub proof fn lemma_disjoint_batch_no_conflicts(
    rs: Seq<TxOutcomeView>,
    conflicts: Seq<ConflictView>,
)
    requires
        forall|res: Seq<char>| !(#[trigger] is_conflicting(rs, res)),
        forall|c: int| 0 <= c < conflicts.len() ==> conflict_entry_ok(rs, #[trigger] conflicts[c]),
    ensures
        conflicts.len() == 0,
{
    if conflicts.len() > 0 {
        let c = conflicts[0];
        assert(conflict_entry_ok(rs, c));
        let i1 = c.conflicting_txs[0];
        let i2 = c.conflicting_txs[1];
        assert(i1 < i2);
        assert(tx_touches(rs[i1 as int], c.resource));
        assert(tx_touches(rs[i2 as int], c.resource));
        assert(is_conflicting(rs, c.resource));
    }
}

} // verus!
