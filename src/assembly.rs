//! Ordered reassembly of segment payloads. Payloads may arrive in any order;
//! the output is always their concatenation in index order.

use vstd::prelude::*;
use crate::error::FetchError;

verus! {

/// The concatenation of `parts`, first to last.
pub open spec fn joined(parts: Seq<Seq<u8>>) -> Seq<u8>
    decreases parts.len(),
{
    if parts.len() == 0 {
        Seq::empty()
    } else {
        joined(parts.drop_last()) + parts.last()
    }
}

/// Whether every slot of `slots` holds a payload.
pub open spec fn all_present(slots: Seq<Option<Seq<u8>>>) -> bool {
    forall|i: int| 0 <= i < slots.len() ==> (#[trigger] slots[i]) is Some
}

/// The payloads held by `slots`, in index order.
pub open spec fn contents(slots: Seq<Option<Seq<u8>>>) -> Seq<Seq<u8>> {
    slots.map_values(|o: Option<Seq<u8>>| o->0)
}

/// The lowest index whose slot is empty, or `slots.len()` when none is.
pub open spec fn first_missing(slots: Seq<Option<Seq<u8>>>) -> int
    decreases slots.len(),
{
    if slots.len() == 0 {
        0
    } else if !all_present(slots.drop_last()) {
        first_missing(slots.drop_last())
    } else if slots.last() is None {
        slots.len() - 1
    } else {
        slots.len() as int
    }
}

/// The payloads of a media playlist's segments, each stored under its index
/// as its download completes.
pub struct SegmentAssembly {
    slots: Vec<Option<Vec<u8>>>,
    arrivals: Ghost<Seq<(int, Seq<u8>)>>,
}

pub open spec fn slot_view(o: Option<Vec<u8>>) -> Option<Seq<u8>> {
    match o {
        Some(v) => Some(v@),
        None => None,
    }
}

impl View for SegmentAssembly {
    type V = Seq<Option<Seq<u8>>>;

    closed spec fn view(&self) -> Seq<Option<Seq<u8>>> {
        self.slots@.map_values(|o: Option<Vec<u8>>| slot_view(o))
    }
}

/// The slots after payload `p` was stored under index `i`.
pub open spec fn stored(slots: Seq<Option<Seq<u8>>>, i: int, p: Seq<u8>) -> Seq<Option<Seq<u8>>> {
    slots.update(i, Some(p))
}

/// The slots after each arrival `(index, payload)` of `arrivals` was stored,
/// in that order.
pub open spec fn after_arrivals(
    slots: Seq<Option<Seq<u8>>>,
    arrivals: Seq<(int, Seq<u8>)>,
) -> Seq<Option<Seq<u8>>>
    decreases arrivals.len(),
{
    if arrivals.len() == 0 {
        slots
    } else {
        let (i, p) = arrivals.last();
        stored(after_arrivals(slots, arrivals.drop_last()), i, p)
    }
}

/// Whether some arrival of `arrivals` is for index `k`.
pub open spec fn arrived(arrivals: Seq<(int, Seq<u8>)>, k: int) -> bool {
    exists|t: int| 0 <= t < arrivals.len() && (#[trigger] arrivals[t]).0 == k
}

/// `n` empty slots.
pub open spec fn empty_slots(n: nat) -> Seq<Option<Seq<u8>>> {
    Seq::new(n, |i: int| None)
}

proof fn lemma_joined_step(parts: Seq<Seq<u8>>, i: int)
    requires
        0 <= i < parts.len(),
    ensures
        joined(parts.subrange(0, i + 1)) == joined(parts.subrange(0, i)) + parts[i],
{
    assert(parts.subrange(0, i + 1).drop_last() =~= parts.subrange(0, i));
}

proof fn lemma_first_missing(slots: Seq<Option<Seq<u8>>>)
    ensures
        0 <= first_missing(slots) <= slots.len(),
        first_missing(slots) == slots.len() <==> all_present(slots),
        first_missing(slots) < slots.len() ==> slots[first_missing(slots)] is None,
        forall|k: int| 0 <= k < first_missing(slots) ==> (#[trigger] slots[k]) is Some,
    decreases slots.len(),
{
    if slots.len() > 0 {
        let d = slots.drop_last();
        lemma_first_missing(d);
        assert forall|k: int| 0 <= k < d.len() implies slots[k] == #[trigger] d[k] by {}
        if !all_present(d) {
            let j = first_missing(d);
            assert(slots[j] == d[j]);
            assert(!all_present(slots));
        } else if slots.last() is None {
            assert(!all_present(slots));
        } else {
            assert forall|i: int| 0 <= i < slots.len() implies (#[trigger] slots[i]) is Some by {
                if i < slots.len() - 1 {
                    assert(slots[i] == d[i]);
                }
            }
        }
        assert forall|k: int| 0 <= k < first_missing(slots) implies (#[trigger] slots[k]) is Some by {
            if k < d.len() {
                assert(slots[k] == d[k]);
            }
        }
    }
}

proof fn lemma_arrivals_len(n: nat, arrivals: Seq<(int, Seq<u8>)>)
    requires
        forall|t: int| 0 <= t < arrivals.len() ==> 0 <= (#[trigger] arrivals[t]).0 < n,
    ensures
        after_arrivals(empty_slots(n), arrivals).len() == n,
    decreases arrivals.len(),
{
    if arrivals.len() > 0 {
        let d = arrivals.drop_last();
        assert forall|t: int| 0 <= t < d.len() implies 0 <= (#[trigger] d[t]).0 < n by {
            assert(d[t] == arrivals[t]);
        }
        lemma_arrivals_len(n, d);
        assert(arrivals.last() == arrivals[arrivals.len() - 1]);
    }
}

proof fn lemma_arrivals_slot(
    n: nat,
    arrivals: Seq<(int, Seq<u8>)>,
    payloads: Seq<Seq<u8>>,
    k: int,
)
    requires
        payloads.len() == n,
        0 <= k < n,
        forall|t: int|
            0 <= t < arrivals.len() ==> 0 <= (#[trigger] arrivals[t]).0 < n && arrivals[t].1
                == payloads[arrivals[t].0],
    ensures
        after_arrivals(empty_slots(n), arrivals).len() == n,
        after_arrivals(empty_slots(n), arrivals)[k] == if arrived(arrivals, k) {
            Some(payloads[k])
        } else {
            None::<Seq<u8>>
        },
    decreases arrivals.len(),
{
    if arrivals.len() > 0 {
        let d = arrivals.drop_last();
        assert forall|t: int| 0 <= t < d.len() implies 0 <= (#[trigger] d[t]).0 < n && d[t].1
            == payloads[d[t].0] by {
            assert(d[t] == arrivals[t]);
        }
        lemma_arrivals_slot(n, d, payloads, k);
        let last = arrivals.last();
        assert(last == arrivals[arrivals.len() - 1]);
        if last.0 != k {
            if arrived(arrivals, k) {
                let t = choose|t: int| 0 <= t < arrivals.len() && (#[trigger] arrivals[t]).0 == k;
                assert(d[t] == arrivals[t]);
            }
            if arrived(d, k) {
                let t = choose|t: int| 0 <= t < d.len() && (#[trigger] d[t]).0 == k;
                assert(arrivals[t] == d[t]);
            }
        }
    }
}

/// However the downloads of a playlist's segments complete, once each index
/// has arrived with its payload the assembly holds every payload under its own
/// index, and the merged output is their concatenation in index order.
pub proof fn lemma_completion_order_irrelevant(
    payloads: Seq<Seq<u8>>,
    arrivals: Seq<(int, Seq<u8>)>,
)
    requires
        forall|t: int|
            0 <= t < arrivals.len() ==> 0 <= (#[trigger] arrivals[t]).0 < payloads.len()
                && arrivals[t].1 == payloads[arrivals[t].0],
        forall|k: int| 0 <= k < payloads.len() ==> #[trigger] arrived(arrivals, k),
    ensures
        all_present(after_arrivals(empty_slots(payloads.len()), arrivals)),
        contents(after_arrivals(empty_slots(payloads.len()), arrivals)) == payloads,
        joined(contents(after_arrivals(empty_slots(payloads.len()), arrivals))) == joined(payloads),
{
    let n = payloads.len();
    let s = after_arrivals(empty_slots(n), arrivals);
    assert forall|k: int| 0 <= k < n implies (#[trigger] s[k]) == Some(payloads[k]) by {
        lemma_arrivals_slot(n, arrivals, payloads, k);
    }
    lemma_arrivals_len(n, arrivals);
    assert(contents(s) =~= payloads);
}

/// Once every segment of an assembly has arrived, each with its own payload
/// and in whatever order the downloads completed, the assembly holds every
/// payload under its index, so that `assemble` yields their concatenation in
/// index order.
pub proof fn lemma_assembly_order(a: SegmentAssembly, payloads: Seq<Seq<u8>>)
    requires
        a.wf(),
        payloads.len() == a@.len(),
        forall|t: int|
            0 <= t < a.arrivals().len() ==> (#[trigger] a.arrivals()[t]).1 == payloads[a.arrivals()[t].0],
        forall|k: int| 0 <= k < payloads.len() ==> #[trigger] arrived(a.arrivals(), k),
    ensures
        all_present(a@),
        contents(a@) == payloads,
{
    let log = a.arrivals();
    assert forall|t: int| 0 <= t < log.len() implies 0 <= (#[trigger] log[t]).0 < payloads.len()
        && log[t].1 == payloads[log[t].0] by {
        a.lemma_arrivals_in_range(t);
    }
    lemma_completion_order_irrelevant(payloads, log);
}

impl SegmentAssembly {
    /// The arrivals recorded so far, in the order they were recorded.
    pub closed spec fn arrivals(&self) -> Seq<(int, Seq<u8>)> {
        self.arrivals@
    }

    /// The slots are exactly what the recorded arrivals produce, each arrival
    /// naming a slot of the assembly.
    pub open spec fn wf(&self) -> bool {
        &&& self@ == after_arrivals(empty_slots(self@.len()), self.arrivals())
        &&& forall|t: int|
            0 <= t < self.arrivals().len() ==> 0 <= (#[trigger] self.arrivals()[t]).0
                < self@.len()
    }

    proof fn lemma_arrivals_in_range(&self, t: int)
        requires
            self.wf(),
            0 <= t < self.arrivals().len(),
        ensures
            0 <= self.arrivals()[t].0 < self@.len(),
    {
    }

    /// An assembly for `count` segments, none of them arrived.
    pub fn new(count: usize) -> (r: SegmentAssembly)
        ensures
            r@ == empty_slots(count as nat),
            r.arrivals() == Seq::<(int, Seq<u8>)>::empty(),
            r.wf(),
    {
        let mut slots: Vec<Option<Vec<u8>>> = Vec::new();
        let mut i: usize = 0;
        while i < count
            invariant
                i <= count,
                slots@.len() == i,
                forall|k: int| 0 <= k < i ==> (#[trigger] slots@[k]) is None,
            decreases count - i,
        {
            slots.push(None);
            i = i + 1;
        }
        let r = SegmentAssembly { slots, arrivals: Ghost(Seq::empty()) };
        assert(r@ =~= empty_slots(count as nat));
        r
    }

    /// The number of segments.
    pub fn count(&self) -> (r: usize)
        ensures
            r == self@.len(),
    {
        self.slots.len()
    }

    /// Whether the segment at `index` has arrived.
    pub fn has(&self, index: usize) -> (r: bool)
        requires
            index < self@.len(),
        ensures
            r == self@[index as int] is Some,
    {
        self.slots[index].is_some()
    }

    /// Store the payload of the segment at `index`.
    pub fn record(&mut self, index: usize, payload: Vec<u8>)
        requires
            index < old(self)@.len(),
            old(self).wf(),
        ensures
            final(self)@ == stored(old(self)@, index as int, payload@),
            final(self).arrivals() == old(self).arrivals().push((index as int, payload@)),
            final(self).wf(),
    {
        let ghost p = payload@;
        let ghost log = self.arrivals@.push((index as int, p));
        self.slots.set(index, Some(payload));
        self.arrivals = Ghost(log);
        assert(self@ =~= stored(old(self)@, index as int, p));
        assert(log.drop_last() =~= old(self).arrivals());
        assert(log.last() == (index as int, p));
        assert forall|t: int| 0 <= t < log.len() implies 0 <= (#[trigger] log[t]).0 < self@.len() by {
            if t < log.len() - 1 {
                assert(log[t] == old(self).arrivals()[t]);
            }
        }
    }

    /// The concatenation of all payloads in index order, or the first index
    /// whose payload is missing.
    pub fn assemble(&self) -> (r: Result<Vec<u8>, FetchError>)
        ensures
            all_present(self@) ==> (r matches Ok(out) && out@ == joined(contents(self@))),
            !all_present(self@) ==> r == Err::<Vec<u8>, FetchError>(
                FetchError::MissingSegmentFile { index: first_missing(self@) as usize },
            ),
    {
        let ghost v = self@;
        proof {
            lemma_first_missing(v);
        }
        let mut out: Vec<u8> = Vec::new();
        let mut i: usize = 0;
        while i < self.slots.len()
            invariant
                v == self@,
                i <= v.len(),
                forall|k: int| 0 <= k < i ==> (#[trigger] v[k]) is Some,
                out@ == joined(contents(v).subrange(0, i as int)),
            decreases v.len() - i,
        {
            match &self.slots[i] {
                None => {
                    assert(v[i as int] is None);
                    proof {
                        lemma_first_missing(v);
                        let fm = first_missing(v);
                        if fm < i {
                            assert(v[fm] is Some);
                        }
                        if fm > i {
                            assert(v[i as int] is Some);
                        }
                    }
                    return Err(FetchError::MissingSegmentFile { index: i });
                },
                Some(p) => {
                    proof {
                        lemma_joined_step(contents(v), i as int);
                    }
                    assert(contents(v)[i as int] == p@);
                    out.extend_from_slice(p.as_slice());
                    assert(out@ =~= joined(contents(v).subrange(0, i as int)) + p@);
                },
            }
            i = i + 1;
        }
        assert(contents(v).subrange(0, v.len() as int) =~= contents(v));
        Ok(out)
    }
}

} // verus!
