//! Planning the execution of a parallel phase.
//!
//! Work units of a parallel phase may declare run-after dependencies on
//! other units of the same phase.  The dependencies form a directed
//! graph; the executor derives an order that schedules every unit exactly
//! once and never before one of its declared predecessors.  When no such
//! order exists — the declarations are cyclic or name a unit that was
//! never registered — planning fails, and it fails only then.

use vstd::prelude::*;

use crate::phase::WorkUnitEntry;

verus! {

/// `ord` is a complete execution order for `units`: every unit is
/// scheduled exactly once, and each unit comes strictly after every unit
/// it declared a run-after dependency on.
pub open spec fn dep_scheduled_before<W>(
    units: Seq<WorkUnitEntry<W>>,
    ord: Seq<usize>,
    k: int,
    j: int,
) -> bool {
    exists|m: int| 0 <= m < k && ord[m] == units[ord[k] as int].after@[j]
}

pub open spec fn valid_order<W>(units: Seq<WorkUnitEntry<W>>, ord: Seq<usize>) -> bool {
    &&& ord.len() == units.len()
    &&& forall|k: int| 0 <= k < ord.len() ==> (#[trigger] ord[k]) < units.len()
    &&& forall|i: usize| i < units.len() ==> ord.contains(i)
    &&& forall|k1: int, k2: int| 0 <= k1 < k2 < ord.len() ==> ord[k1] != ord[k2]
    &&& forall|k: int, j: int|
        0 <= k < ord.len() && 0 <= j < units[ord[k] as int].after@.len()
            ==> #[trigger] dep_scheduled_before(units, ord, k, j)
}

/// Unit `i` cannot be scheduled yet: one of its declared predecessors is
/// unscheduled, or names no registered unit.
pub open spec fn blocked<W>(units: Seq<WorkUnitEntry<W>>, sched: Seq<bool>, i: int) -> bool {
    exists|j: int|
        0 <= j < units[i].after@.len() && ((units[i].after@[j] as int) >= units.len()
            || !sched[units[i].after@[j] as int])
}

/// How many entries of `s` are true.
pub open spec fn count_true(s: Seq<bool>) -> nat
    decreases s.len(),
{
    if s.len() == 0 {
        0
    } else {
        count_true(s.drop_last()) + if s.last() {
            1nat
        } else {
            0nat
        }
    }
}

proof fn lemma_count_true_le(s: Seq<bool>)
    ensures
        count_true(s) <= s.len(),
    decreases s.len(),
{
    if s.len() > 0 {
        lemma_count_true_le(s.drop_last());
    }
}

proof fn lemma_count_true_below(s: Seq<bool>)
    requires
        count_true(s) < s.len(),
    ensures
        exists|i: int| 0 <= i < s.len() && !s[i],
    decreases s.len(),
{
    if s.len() > 0 {
        if !s.last() {
            assert(!s[s.len() - 1]);
        } else {
            lemma_count_true_below(s.drop_last());
            let i = choose|i: int| 0 <= i < s.drop_last().len() && !s.drop_last()[i];
            assert(!s[i]);
        }
    }
}

proof fn lemma_count_true_set(s: Seq<bool>, i: int)
    requires
        0 <= i < s.len(),
        !s[i],
    ensures
        count_true(s.update(i, true)) == count_true(s) + 1,
    decreases s.len(),
{
    let s2 = s.update(i, true);
    if i == s.len() - 1 {
        assert(s2.drop_last() =~= s.drop_last());
    } else {
        assert(s2.drop_last() =~= s.drop_last().update(i, true));
        assert(s2.last() == s.last());
        lemma_count_true_set(s.drop_last(), i);
    }
}

/// In a valid order, under a stuck schedule — one where every
/// unscheduled unit is blocked — the unit at any position is scheduled.
proof fn lemma_positions_scheduled<W>(
    units: Seq<WorkUnitEntry<W>>,
    sched: Seq<bool>,
    ord: Seq<usize>,
    k: int,
)
    requires
        sched.len() == units.len(),
        valid_order(units, ord),
        forall|i: int| 0 <= i < units.len() && !sched[i] ==> blocked(units, sched, i),
        0 <= k < ord.len(),
    ensures
        sched[ord[k] as int],
    decreases k,
{
    let u = ord[k] as int;
    if !sched[u] {
        assert(blocked(units, sched, u));
        let j = choose|j: int|
            0 <= j < units[u].after@.len() && ((units[u].after@[j] as int) >= units.len()
                || !sched[units[u].after@[j] as int]);
        assert(dep_scheduled_before(units, ord, k, j));
        let m = choose|m: int| 0 <= m < k && ord[m] == units[u].after@[j];
        assert(ord[m] < units.len());
        lemma_positions_scheduled(units, sched, ord, m);
        assert(false);
    }
}

/// A stuck schedule with an unscheduled unit left over is a certificate
/// that no valid execution order exists at all.
proof fn lemma_stuck_no_valid_order<W>(units: Seq<WorkUnitEntry<W>>, sched: Seq<bool>)
    requires
        units.len() <= usize::MAX,
        sched.len() == units.len(),
        exists|i: int| 0 <= i < units.len() && !sched[i],
        forall|i: int| 0 <= i < units.len() && !sched[i] ==> blocked(units, sched, i),
    ensures
        !exists|ord: Seq<usize>| valid_order(units, ord),
{
    if exists|ord: Seq<usize>| valid_order(units, ord) {
        let ord = choose|ord: Seq<usize>| valid_order(units, ord);
        let i = choose|i: int| 0 <= i < units.len() && !sched[i];
        let iu = i as usize;
        assert(iu as int == i);
        assert(ord.contains(iu));
        let k = choose|k: int| 0 <= k < ord.len() && ord[k] == iu;
        lemma_positions_scheduled(units, sched, ord, k);
        assert(sched[i]);
        assert(false);
    }
}

/// Dependency respect: in a valid execution order, a unit that declares a
/// run-after dependency on another unit is scheduled strictly after it,
/// so it never starts before that predecessor has completed.
pub proof fn lemma_dependency_respect<W>(
    units: Seq<WorkUnitEntry<W>>,
    ord: Seq<usize>,
    ka: int,
    kb: int,
)
    requires
        valid_order(units, ord),
        0 <= ka < ord.len(),
        0 <= kb < ord.len(),
        units[ord[kb] as int].after@.contains(ord[ka]),
    ensures
        ka < kb,
{
    let j = choose|j: int|
        0 <= j < units[ord[kb] as int].after@.len() && units[ord[kb] as int].after@[j] == ord[ka];
    assert(dep_scheduled_before(units, ord, kb, j));
    let m = choose|m: int| 0 <= m < kb && ord[m] == units[ord[kb] as int].after@[j];
    if ka != m {
        assert(ord[ka] == ord[m]);
        assert(false);
    }
}

/// True when every declared predecessor of `entry` names a registered
/// unit and is already scheduled.
fn deps_satisfied<W>(entry: &WorkUnitEntry<W>, sched: &Vec<bool>) -> (r: bool)
    ensures
        r == forall|j: int|
            0 <= j < entry.after@.len() ==> ((entry.after@[j] as int) < sched@.len()
                && sched@[entry.after@[j] as int]),
{
    let mut j: usize = 0;
    let n = entry.after.len();
    while j < n
        invariant
            n == entry.after@.len(),
            j <= n,
            forall|j2: int|
                0 <= j2 < j ==> ((entry.after@[j2] as int) < sched@.len()
                    && sched@[entry.after@[j2] as int]),
        decreases n - j,
    {
        let dep = entry.after[j];
        if dep >= sched.len() {
            return false;
        }
        if !sched[dep] {
            return false;
        }
        j = j + 1;
    }
    true
}

/// Finds the first unscheduled unit whose predecessors are all
/// scheduled, if any.
fn find_ready<W>(units: &Vec<WorkUnitEntry<W>>, sched: &Vec<bool>) -> (r: Option<usize>)
    requires
        sched@.len() == units@.len(),
    ensures
        match r {
            Some(i) => (i as int) < units@.len() && !sched@[i as int] && forall|j: int|
                0 <= j < units@[i as int].after@.len() ==> ((units@[i as int].after@[j] as int)
                    < sched@.len() && sched@[units@[i as int].after@[j] as int]),
            None => forall|i: int|
                0 <= i < units@.len() && !sched@[i] ==> blocked(units@, sched@, i),
        },
{
    let n = units.len();
    let mut i: usize = 0;
    while i < n
        invariant
            n == units@.len(),
            sched@.len() == units@.len(),
            i <= n,
            forall|i2: int| 0 <= i2 < i && !sched@[i2] ==> blocked(units@, sched@, i2),
        decreases n - i,
    {
        if !sched[i] {
            if deps_satisfied(&units[i], sched) {
                return Some(i);
            }
            proof {
                let deps = units@[i as int].after@;
                let j = choose|j: int|
                    0 <= j < deps.len() && !((deps[j] as int) < sched@.len()
                        && sched@[deps[j] as int]);
                assert(blocked(units@, sched@, i as int));
            }
        }
        i = i + 1;
    }
    None
}

/// Derives an execution order for the units of a parallel phase.
///
/// Returns an order that schedules every unit exactly once and respects
/// every declared run-after dependency, whenever such an order exists;
/// returns `None` exactly when the declarations admit no such order (a
/// dependency cycle, or a dependency on an unregistered unit).
pub fn plan_order<W>(units: &Vec<WorkUnitEntry<W>>) -> (r: Option<Vec<usize>>)
    ensures
        match r {
            Some(ord) => valid_order(units@, ord@),
            None => !exists|ord: Seq<usize>| valid_order(units@, ord),
        },
{
    let n = units.len();
    let mut sched: Vec<bool> = Vec::new();
    let mut f: usize = 0;
    while f < n
        invariant
            f <= n,
            sched@.len() == f,
            forall|i: int| 0 <= i < f ==> !sched@[i],
        decreases n - f,
    {
        sched.push(false);
        f = f + 1;
    }
    proof {
        assert(count_true(sched@) == 0) by {
            lemma_count_all_false(sched@);
        }
    }
    let mut ord: Vec<usize> = Vec::new();
    while ord.len() < n
        invariant
            n == units@.len(),
            sched@.len() == n,
            ord@.len() == count_true(sched@),
            forall|k: int| 0 <= k < ord@.len() ==> (#[trigger] ord@[k]) < n,
            forall|i: usize| i < n ==> (sched@[i as int] <==> ord@.contains(i)),
            forall|k1: int, k2: int| 0 <= k1 < k2 < ord@.len() ==> ord@[k1] != ord@[k2],
            forall|k: int, j: int|
                0 <= k < ord@.len() && 0 <= j < units@[ord@[k] as int].after@.len()
                    ==> #[trigger] dep_scheduled_before(units@, ord@, k, j),
        decreases n - ord.len(),
    {
        match find_ready(units, &sched) {
            Some(i) => {
                let ghost old_ord = ord@;
                let ghost old_sched = sched@;
                proof {
                    lemma_count_true_set(sched@, i as int);
                }
                sched.set(i, true);
                ord.push(i);
                proof {
                    assert forall|i2: usize| i2 < n implies (sched@[i2 as int] <==> ord@.contains(
                        i2,
                    )) by {
                        if i2 == i {
                            assert(ord@[ord@.len() - 1] == i);
                            assert(ord@.contains(i));
                        } else {
                            if old_sched[i2 as int] {
                                let k = choose|k: int|
                                    0 <= k < old_ord.len() && old_ord[k] == i2;
                                assert(ord@[k] == i2);
                                assert(ord@.contains(i2));
                            }
                            if ord@.contains(i2) {
                                let k = choose|k: int| 0 <= k < ord@.len() && ord@[k] == i2;
                                assert(k < old_ord.len());
                                assert(old_ord.contains(i2));
                            }
                        }
                    }
                    assert forall|k1: int, k2: int|
                        0 <= k1 < k2 < ord@.len() implies ord@[k1] != ord@[k2] by {
                        if k2 == ord@.len() - 1 {
                            assert(ord@[k1] == old_ord[k1]);
                            assert(old_ord.contains(old_ord[k1]));
                            assert(old_sched[old_ord[k1] as int]);
                        }
                    }
                    assert forall|k: int, j: int|
                        0 <= k < ord@.len() && 0 <= j < units@[ord@[k] as int].after@.len()
                            implies #[trigger] dep_scheduled_before(units@, ord@, k, j) by {
                        if k == ord@.len() - 1 {
                            assert(ord@[k] == i);
                            let dep = units@[i as int].after@[j];
                            assert(old_sched[dep as int]);
                            assert(old_ord.contains(dep));
                            let m = choose|m: int| 0 <= m < old_ord.len() && old_ord[m] == dep;
                            assert(ord@[m] == dep);
                            assert(0 <= m < k && ord@[m] == units@[ord@[k] as int].after@[j]);
                        } else {
                            assert(ord@[k] == old_ord[k]);
                            assert(0 <= j < units@[old_ord[k] as int].after@.len());
                            assert(dep_scheduled_before(units@, old_ord, k, j));
                            let m = choose|m: int|
                                0 <= m < k && old_ord[m] == units@[old_ord[k] as int].after@[j];
                            assert(ord@[m] == units@[ord@[k] as int].after@[j]);
                            assert(0 <= m < k && ord@[m] == units@[ord@[k] as int].after@[j]);
                        }
                    }
                }
            },
            None => {
                proof {
                    lemma_count_true_le(sched@);
                    lemma_count_true_below(sched@);
                    lemma_stuck_no_valid_order(units@, sched@);
                }
                return None;
            },
        }
    }
    proof {
        lemma_count_true_le(sched@);
        lemma_count_true_full(sched@);
        assert forall|i: usize| i < units@.len() implies ord@.contains(i) by {
            assert(sched@[i as int]);
        }
    }
    Some(ord)
}

proof fn lemma_count_true_full(s: Seq<bool>)
    requires
        count_true(s) == s.len(),
    ensures
        forall|i: int| 0 <= i < s.len() ==> s[i],
    decreases s.len(),
{
    if s.len() > 0 {
        lemma_count_true_le(s.drop_last());
        lemma_count_true_full(s.drop_last());
        assert forall|i: int| 0 <= i < s.len() implies s[i] by {
            if i < s.len() - 1 {
                assert(s.drop_last()[i]);
            }
        }
    }
}

proof fn lemma_count_all_false(s: Seq<bool>)
    requires
        forall|i: int| 0 <= i < s.len() ==> !s[i],
    ensures
        count_true(s) == 0,
    decreases s.len(),
{
    if s.len() > 0 {
        lemma_count_all_false(s.drop_last());
    }
}

} // verus!
