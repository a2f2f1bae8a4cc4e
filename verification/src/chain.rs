//! A linear chain of single-slot data links with one forwarding unit between
//! each pair of neighbouring links. The inline-sequential substrate walks the
//! units in chain order inside one call; the preconditions of every receive
//! and send are discharged by the verifier, so a traversal can never block.

use vstd::assert_seqs_equal;
use vstd::prelude::*;

verus! {

/// The payload transformation a forwarding unit applies between its receive
/// and its send.
#[derive(Clone, Copy, PartialEq, Eq, Structural, Debug)]
pub enum Transform {
    /// Pass the payload on unchanged (the byte-relay variant).
    Identity,
    /// Add one to the payload (the counting-relay variant).
    IncrementByOne,
}

/// What one forwarding step does to a payload.
pub open spec fn apply_spec(t: Transform, v: int) -> int {
    match t {
        Transform::Identity => v,
        Transform::IncrementByOne => v + 1,
    }
}

/// What `n` forwarding steps in a row do to a payload.
pub open spec fn iterate_spec(t: Transform, v: int, n: nat) -> int
    decreases n,
{
    if n == 0 {
        v
    } else {
        apply_spec(t, iterate_spec(t, v, (n - 1) as nat))
    }
}

/// The identity transform leaves a payload unchanged however often it runs.
pub proof fn lemma_iterate_identity(v: int, n: nat)
    ensures
        iterate_spec(Transform::Identity, v, n) == v,
    decreases n,
{
    if n > 0 {
        lemma_iterate_identity(v, (n - 1) as nat);
    }
}

/// Running increment-by-one `n` times adds `n`.
pub proof fn lemma_iterate_increment(v: int, n: nat)
    ensures
        iterate_spec(Transform::IncrementByOne, v, n) == v + n,
    decreases n,
{
    if n > 0 {
        lemma_iterate_increment(v, (n - 1) as nat);
    }
}

/// One forwarding step, executable. The bound keeps the increment variant
/// from overflowing.
pub fn apply(t: Transform, v: u64) -> (r: u64)
    requires
        apply_spec(t, v as int) <= u64::MAX,
    ensures
        r == apply_spec(t, v as int),
{
    match t {
        Transform::Identity => v,
        Transform::IncrementByOne => v + 1,
    }
}

/// A single-slot, capacity-one conduit from exactly one producer to exactly
/// one consumer. A full slot refuses a send, an empty slot refuses a
/// receive; in the inline model those refusals are preconditions, so
/// verified code can never block on a link.
#[derive(Clone, Copy)]
pub struct DataLink {
    slot: Option<u64>,
}

impl DataLink {
    /// The payload in flight on this link, if any.
    pub closed spec fn slot(self) -> Option<u64> {
        self.slot
    }

    /// No payload is in flight.
    pub open spec fn is_empty_spec(self) -> bool {
        self.slot() is None
    }

    /// A fresh, empty link.
    pub fn new() -> (r: DataLink)
        ensures
            r.is_empty_spec(),
    {
        DataLink { slot: None }
    }

    /// Put one payload into the slot. The slot must be free: a producer
    /// that cannot meet this precondition would have to block.
    pub fn send(&mut self, v: u64)
        requires
            old(self).is_empty_spec(),
        ensures
            final(self).slot() == Some(v),
    {
        self.slot = Some(v);
    }

    /// Take the payload out of the slot. The slot must be full: a consumer
    /// that cannot meet this precondition would have to block.
    pub fn recv(&mut self) -> (r: u64)
        requires
            old(self).slot() is Some,
        ensures
            final(self).is_empty_spec(),
            Some(r) == old(self).slot(),
    {
        let r = match self.slot {
            Some(v) => v,
            None => 0,
        };
        self.slot = None;
        r
    }
}

/// `n` forwarding units connected tail-to-head by `n + 1` links. Link `0` is
/// the entry and link `n` the exit; both are held by the driver, never by a
/// unit. Unit `i` reads link `i` and writes link `i + 1`.
pub struct Chain {
    transform: Transform,
    links: Vec<DataLink>,
}

impl Chain {
    /// The slots of the links, entry first.
    pub closed spec fn slots(self) -> Seq<Option<u64>> {
        self.links@.map(|i: int, l: DataLink| l.slot())
    }

    /// The transform every unit of this chain applies.
    pub closed spec fn transform_spec(self) -> Transform {
        self.transform
    }

    /// Number of forwarding units: one less than the number of links.
    pub open spec fn units_spec(self) -> nat {
        (self.slots().len() - 1) as nat
    }

    /// A chain is strictly linear and never empty of links.
    pub open spec fn wf(self) -> bool {
        1 <= self.slots().len() <= usize::MAX
    }

    /// No payload is in flight anywhere in the chain.
    pub open spec fn all_empty(self) -> bool {
        forall|i: int| 0 <= i < self.slots().len() ==> #[trigger] self.slots()[i] is None
    }

    /// Exactly one payload is in flight, on link `i`, holding `v`.
    pub open spec fn single_in_flight(self, i: int, v: u64) -> bool {
        &&& 0 <= i < self.slots().len()
        &&& self.slots()[i] == Some(v)
        &&& forall|j: int|
            0 <= j < self.slots().len() && j != i ==> #[trigger] self.slots()[j] is None
    }

    /// Build a chain of `n` units over `n + 1` fresh links. The in-memory
    /// link primitive cannot fail to allocate short of an aborting
    /// out-of-memory condition, so construction always succeeds.
    pub fn new(n: usize, t: Transform) -> (r: Chain)
        requires
            n < usize::MAX,
        ensures
            r.wf(),
            r.all_empty(),
            r.units_spec() == n,
            r.transform_spec() == t,
    {
        let mut links: Vec<DataLink> = Vec::new();
        let mut i: usize = 0;
        while i < n + 1
            invariant
                i <= n + 1,
                n < usize::MAX,
                links@.len() == i,
                forall|j: int| 0 <= j < i ==> #[trigger] links@[j].slot() is None,
            decreases n + 1 - i,
        {
            links.push(DataLink::new());
            i = i + 1;
        }
        let r = Chain { transform: t, links };
        proof {
            assert(forall|j: int|
                0 <= j < r.slots().len() ==> #[trigger] r.slots()[j] == r.links@[j].slot());
        }
        r
    }

    /// Number of forwarding units.
    pub fn units(&self) -> (r: usize)
        requires
            self.wf(),
        ensures
            r == self.units_spec(),
    {
        self.links.len() - 1
    }

    /// The transform every unit of this chain applies.
    pub fn transform(&self) -> (r: Transform)
        ensures
            r == self.transform_spec(),
    {
        self.transform
    }

    /// One forwarding unit's whole step: receive from the upstream link,
    /// transform, send downstream. Its preconditions are exactly "the
    /// upstream slot is full and the downstream slot is free" - under the
    /// single-in-flight discipline both always hold, so the unit never
    /// blocks.
    pub fn forward_step(&mut self, i: usize) -> (moved: u64)
        requires
            old(self).wf(),
            i + 1 < old(self).slots().len(),
            old(self).slots()[i as int] is Some,
            old(self).slots()[i + 1] is None,
            apply_spec(old(self).transform_spec(), old(self).slots()[i as int]->Some_0 as int)
                <= u64::MAX,
        ensures
            final(self).wf(),
            final(self).transform_spec() == old(self).transform_spec(),
            final(self).slots().len() == old(self).slots().len(),
            moved == apply_spec(old(self).transform_spec(), old(self).slots()[i as int]->Some_0 as int),
            final(self).slots() == old(self).slots()
                .update(i as int, None)
                .update(i + 1, Some(moved)),
    {
        let upstream = &mut self.links[i];
        let v = upstream.recv();
        let moved = apply(self.transform, v);
        let downstream = &mut self.links[i + 1];
        downstream.send(moved);
        proof {
            assert_seqs_equal!(
                self.slots(),
                old(self).slots().update(i as int, None).update(i + 1, Some(moved))
            );
        }
        moved
    }

    /// Inject one payload at the entry, walk it through all `n` units in
    /// chain order, and take it off the exit. The chain starts and ends with
    /// every slot empty, so the next injection's precondition holds again:
    /// under the single-in-flight discipline a traversal never blocks and
    /// the chain never deadlocks. The result has passed through exactly `n`
    /// transformation steps.
    pub fn relay_once(&mut self, entry: u64) -> (exit: u64)
        requires
            old(self).wf(),
            old(self).all_empty(),
            old(self).transform_spec() is IncrementByOne
                ==> entry + old(self).units_spec() <= u64::MAX,
        ensures
            final(self).wf(),
            final(self).all_empty(),
            final(self).transform_spec() == old(self).transform_spec(),
            final(self).units_spec() == old(self).units_spec(),
            exit == iterate_spec(old(self).transform_spec(), entry as int, old(self).units_spec()),
    {
        let ghost t = self.transform_spec();
        let ghost n_links = self.slots().len();
        proof {
            lemma_iterate_bound(t, entry as int, self.units_spec());
        }
        proof {
            assert(old(self).slots()[0] == old(self).links@[0].slot());
        }
        let entry_link = &mut self.links[0];
        entry_link.send(entry);
        proof {
            assert_seqs_equal!(self.slots(), old(self).slots().update(0, Some(entry)), j => {
                assert(self.slots()[j] == self.links@[j].slot());
                assert(old(self).slots()[j] == old(self).links@[j].slot());
            });
        }
        let n = self.links.len() - 1;
        let mut i: usize = 0;
        while i < n
            invariant
                self.wf(),
                self.transform_spec() == t,
                self.slots().len() == n_links,
                n + 1 == n_links,
                i <= n,
                self.single_in_flight(
                    i as int,
                    iterate_spec(t, entry as int, i as nat) as u64,
                ),
                iterate_spec(t, entry as int, i as nat)
                    == (iterate_spec(t, entry as int, i as nat) as u64 as int),
                t is IncrementByOne ==> entry + n <= u64::MAX,
                t is Identity ==> iterate_spec(t, entry as int, i as nat) == entry,
                t is IncrementByOne ==> iterate_spec(t, entry as int, i as nat) == entry + i,
            decreases n - i,
        {
            proof {
                lemma_iterate_identity(entry as int, i as nat);
                lemma_iterate_increment(entry as int, i as nat);
                lemma_iterate_identity(entry as int, (i + 1) as nat);
                lemma_iterate_increment(entry as int, (i + 1) as nat);
            }
            self.forward_step(i);
            i = i + 1;
        }
        let ghost pre = self.slots();
        proof {
            assert(pre[n as int] == self.links@[n as int].slot());
        }
        let exit_link = &mut self.links[n];
        let exit = exit_link.recv();
        proof {
            assert_seqs_equal!(self.slots(), old(self).slots(), j => {
                assert(self.slots()[j] == self.links@[j].slot());
                if j != n as int {
                    assert(pre[j] is None);
                }
                assert(old(self).slots()[j] is None);
            });
        }
        exit
    }
}

/// Under the single-in-flight discipline the chain never deadlocks: while
/// the one payload in flight sits on a link with a forwarding unit
/// downstream, that unit's receive precondition (upstream full) and send
/// precondition (downstream free) both hold, so its step completes without
/// blocking; once the payload sits on the exit link, the driver's receive
/// precondition holds. After a full traversal `relay_once` leaves the chain
/// all-empty, which is its own precondition, so the next payload may be
/// injected as soon as the previous one has fully exited.
pub proof fn lemma_single_in_flight_never_blocks(c: Chain, i: int, v: u64)
    requires
        c.wf(),
        c.single_in_flight(i, v),
    ensures
        i < c.slots().len() - 1 ==> c.slots()[i] is Some && c.slots()[i + 1] is None,
        i == c.slots().len() - 1 ==> c.slots()[i] is Some,
{
}

/// Both transforms keep an in-range payload in range while the increment
/// bound of `relay_once` holds.
proof fn lemma_iterate_bound(t: Transform, v: int, n: nat)
    requires
        0 <= v <= u64::MAX,
        t is IncrementByOne ==> v + n <= u64::MAX,
    ensures
        forall|k: nat| k <= n ==> 0 <= #[trigger] iterate_spec(t, v, k) <= u64::MAX,
{
    assert forall|k: nat| k <= n implies 0 <= #[trigger] iterate_spec(t, v, k) <= u64::MAX by {
        lemma_iterate_identity(v, k);
        lemma_iterate_increment(v, k);
    }
}

} // verus!
