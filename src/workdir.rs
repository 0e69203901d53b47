//! The choice of the temporary working directory: candidates are probed in
//! turn, and the first that proves writable is taken.

use vstd::prelude::*;

verus! {

/// What follows the probe of one candidate directory.
#[derive(Debug, Clone, Copy, PartialEq, Eq, Structural)]
pub enum ProbeStep {
    /// The candidate is writable: use it.
    Accept,
    /// The candidate is not usable: probe the next one.
    ProbeNext,
    /// The candidate is not usable and it was the last: no directory.
    Fail,
}

pub open spec fn probe_step(index: nat, count: nat, usable: bool) -> ProbeStep {
    if usable {
        ProbeStep::Accept
    } else if index + 1 < count {
        ProbeStep::ProbeNext
    } else {
        ProbeStep::Fail
    }
}

/// The step after probing candidate `index` of `count`; `usable` says whether
/// the candidate could be obtained and proved writable.
pub fn after_probe(index: usize, count: usize, usable: bool) -> (r: ProbeStep)
    requires
        index < count,
    ensures
        r == probe_step(index as nat, count as nat, usable),
{
    if usable {
        ProbeStep::Accept
    } else if index + 1 < count {
        ProbeStep::ProbeNext
    } else {
        ProbeStep::Fail
    }
}

/// Where probing ends, starting at candidate `index`, when probing candidate
/// `k` would find it usable exactly when `usable[k]` holds: the accepted index
/// and the number of candidates probed, or `None` with the number probed.
pub open spec fn probe_run(usable: Seq<bool>, index: nat) -> (Option<nat>, nat)
    decreases usable.len() - index,
{
    if index >= usable.len() {
        (None, index)
    } else {
        match probe_step(index, usable.len(), usable[index as int]) {
            ProbeStep::Accept => (Some(index), index + 1),
            ProbeStep::ProbeNext => probe_run(usable, index + 1),
            ProbeStep::Fail => (None, index + 1),
        }
    }
}

proof fn lemma_probe_run_from(usable: Seq<bool>, index: nat)
    requires
        index <= usable.len(),
        forall|j: int| 0 <= j < index ==> !(#[trigger] usable[j]),
    ensures
        match probe_run(usable, index).0 {
            Some(k) => k < usable.len() && usable[k as int] && probe_run(usable, index).1 == k + 1
                && forall|j: int| 0 <= j < k ==> !(#[trigger] usable[j]),
            None => forall|j: int| 0 <= j < usable.len() ==> !(#[trigger] usable[j]),
        },
    decreases usable.len() - index,
{
    if index < usable.len() && !usable[index as int] && index + 1 < usable.len() {
        lemma_probe_run_from(usable, index + 1);
    }
}

/// Probing the candidates in turn accepts the first usable one, and no
/// candidate after it is probed; it fails only when none is usable.
pub proof fn lemma_first_usable_candidate(usable: Seq<bool>)
    ensures
        match probe_run(usable, 0).0 {
            Some(k) => k < usable.len() && usable[k as int] && probe_run(usable, 0).1 == k + 1
                && forall|j: int| 0 <= j < k ==> !(#[trigger] usable[j]),
            None => forall|j: int| 0 <= j < usable.len() ==> !(#[trigger] usable[j]),
        },
{
    lemma_probe_run_from(usable, 0);
}

} // verus!
