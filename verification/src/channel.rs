//! Bus arbitration.  A channel pairs one peripheral with the CPU through two
//! lines: BRQ (bus request, raised by the peripheral) and BGR (bus grant,
//! raised by the CPU).  The handshake transfers exclusive bus access:
//! BRQ rises, BGR rises, the peripheral holds the bus, BRQ falls, BGR falls.
//!
//! The `Channel` type carries the line state the CPU core polls each cycle.
//! The blocking halves of the protocol run on peripheral threads outside
//! this crate; their admissible interleavings are captured here by the
//! `ArbEvent` transition system, over which the mutual-exclusion and
//! ordering laws are proved.

use vstd::prelude::*;

verus! {

/// The request/grant line pair of one arbitration channel.
#[derive(Clone, Copy, Debug, PartialEq, Eq, Structural)]
pub struct Channel {
    pub brq: bool,
    pub bgr: bool,
}

impl Channel {
    /// A quiet channel: neither line asserted.
    pub fn new() -> (r: Channel)
        ensures
            !r.brq,
            !r.bgr,
    {
        Channel { brq: false, bgr: false }
    }

    /// Another handle onto the same line pair (handles observe one shared
    /// state; here the state is the value itself).
    pub fn clone(ch: &Channel) -> (r: Channel)
        ensures
            r == *ch,
    {
        Channel { brq: ch.brq, bgr: ch.bgr }
    }

    /// Peripheral side, opening move of `in_channel`: assert BRQ.  The
    /// remainder of `in_channel` (waiting on BGR, using the bus, dropping
    /// BRQ) blocks on another thread and is modelled by the events
    /// `Grant`..`Ungrant` below.
    pub fn request(&mut self)
        ensures
            final(self).brq,
            final(self).bgr == old(self).bgr,
    {
        self.brq = true;
    }

    /// CPU side: test the BRQ line without blocking.
    pub fn check_pending(&self) -> (r: bool)
        ensures
            r == self.brq,
    {
        self.brq
    }

    /// CPU side: serve one pending request.  The caller relinquishes the bus
    /// around this call; when it returns, the peripheral's turn is over and
    /// both lines are down.  This is the whole `Grant`, `Acquire`,
    /// `Release`, `Ungrant` sequence seen from the CPU.
    pub fn open(&mut self)
        ensures
            !final(self).brq,
            !final(self).bgr,
    {
        self.brq = false;
        self.bgr = false;
    }
}

/// One atomic step of the arbitration protocol.
#[derive(Clone, Copy, Debug, PartialEq, Eq, Structural)]
pub enum ArbEvent {
    /// Peripheral asserts BRQ.
    Request,
    /// CPU releases the bus and asserts BGR.
    Grant,
    /// Peripheral takes the bus.
    Acquire,
    /// Peripheral drops the bus and deasserts BRQ.
    Release,
    /// CPU deasserts BGR and retakes the bus.
    Ungrant,
}

/// Protocol state: the two lines, and which party holds the bus lock.
#[derive(Clone, Copy, Debug, PartialEq, Eq, Structural)]
pub struct ArbState {
    pub brq: bool,
    pub bgr: bool,
    pub cpu_holds: bool,
    pub periph_holds: bool,
}

/// At reset the CPU holds the bus and both lines are down.
pub open spec fn arb_init() -> ArbState {
    ArbState { brq: false, bgr: false, cpu_holds: true, periph_holds: false }
}

/// When an event may fire.
pub open spec fn arb_enabled(s: ArbState, e: ArbEvent) -> bool {
    match e {
        ArbEvent::Request => !s.brq,
        ArbEvent::Grant => s.brq && s.cpu_holds && !s.bgr,
        ArbEvent::Acquire => s.brq && s.bgr && !s.cpu_holds && !s.periph_holds,
        ArbEvent::Release => s.periph_holds,
        ArbEvent::Ungrant => s.bgr && !s.brq && !s.periph_holds,
    }
}

/// The state an event leads to.
pub open spec fn arb_apply(s: ArbState, e: ArbEvent) -> ArbState {
    match e {
        ArbEvent::Request => ArbState { brq: true, ..s },
        ArbEvent::Grant => ArbState { bgr: true, cpu_holds: false, ..s },
        ArbEvent::Acquire => ArbState { periph_holds: true, ..s },
        ArbEvent::Release => ArbState { periph_holds: false, brq: false, ..s },
        ArbEvent::Ungrant => ArbState { bgr: false, cpu_holds: true, ..s },
    }
}

/// Run a trace from reset; `None` if some event fires while not enabled.
pub open spec fn arb_run(t: Seq<ArbEvent>) -> Option<ArbState>
    decreases t.len(),
{
    if t.len() == 0 {
        Some(arb_init())
    } else {
        match arb_run(t.drop_last()) {
            None => None,
            Some(s) => if arb_enabled(s, t.last()) {
                Some(arb_apply(s, t.last()))
            } else {
                None
            },
        }
    }
}

/// The inductive invariant behind mutual exclusion: the CPU and the
/// peripheral never hold the bus at once, the peripheral holds it only
/// inside the grant window, and outside the grant window the CPU holds it.
pub open spec fn arb_inv(s: ArbState) -> bool {
    &&& !(s.cpu_holds && s.periph_holds)
    &&& s.periph_holds ==> s.bgr && s.brq && !s.cpu_holds
    &&& s.bgr ==> !s.cpu_holds
    &&& !s.bgr ==> s.cpu_holds
}

/// At every instant of every admissible arbitration trace, at most one
/// party holds the bus lock, and whenever no grant is in flight that party
/// is the CPU.
pub proof fn lemma_bus_mutual_exclusion(t: Seq<ArbEvent>)
    requires
        arb_run(t) is Some,
    ensures
        arb_inv(arb_run(t).unwrap()),
    decreases t.len(),
{
    if t.len() > 0 {
        lemma_bus_mutual_exclusion(t.drop_last());
    }
}

/// A prefix of an admissible trace is admissible.
pub proof fn lemma_run_prefix(t: Seq<ArbEvent>, i: int)
    requires
        arb_run(t) is Some,
        0 <= i <= t.len(),
    ensures
        arb_run(t.take(i)) is Some,
    decreases t.len(),
{
    if i == t.len() {
        assert(t.take(i) =~= t);
    } else {
        assert(t.drop_last().take(i) =~= t.take(i));
        lemma_run_prefix(t.drop_last(), i);
    }
}

/// BRQ is down at reset and only `Request` raises it.
proof fn lemma_brq_has_request(t: Seq<ArbEvent>)
    requires
        arb_run(t) is Some,
        arb_run(t).unwrap().brq,
    ensures
        exists|j: int| 0 <= j < t.len() && t[j] == ArbEvent::Request,
    decreases t.len(),
{
    let e = t.last();
    if e == ArbEvent::Request {
        assert(t[t.len() - 1] == ArbEvent::Request);
    } else {
        lemma_brq_has_request(t.drop_last());
        let j = choose|j: int| 0 <= j < t.drop_last().len() && t.drop_last()[j] == ArbEvent::Request;
        assert(t[j] == ArbEvent::Request);
    }
}

/// BGR is down at reset and only `Grant` raises it.
proof fn lemma_bgr_has_grant(t: Seq<ArbEvent>)
    requires
        arb_run(t) is Some,
        arb_run(t).unwrap().bgr,
    ensures
        exists|j: int| 0 <= j < t.len() && t[j] == ArbEvent::Grant,
    decreases t.len(),
{
    let e = t.last();
    if e == ArbEvent::Grant {
        assert(t[t.len() - 1] == ArbEvent::Grant);
    } else {
        lemma_bgr_has_grant(t.drop_last());
        let j = choose|j: int| 0 <= j < t.drop_last().len() && t.drop_last()[j] == ArbEvent::Grant;
        assert(t[j] == ArbEvent::Grant);
    }
}

/// The peripheral does not hold the bus at reset and only `Acquire` hands
/// it over.
proof fn lemma_held_has_acquire(t: Seq<ArbEvent>)
    requires
        arb_run(t) is Some,
        arb_run(t).unwrap().periph_holds,
    ensures
        exists|j: int| 0 <= j < t.len() && t[j] == ArbEvent::Acquire,
    decreases t.len(),
{
    let e = t.last();
    if e == ArbEvent::Acquire {
        assert(t[t.len() - 1] == ArbEvent::Acquire);
    } else {
        lemma_held_has_acquire(t.drop_last());
        let j = choose|j: int| 0 <= j < t.drop_last().len() && t.drop_last()[j] == ArbEvent::Acquire;
        assert(t[j] == ArbEvent::Acquire);
    }
}

/// Only `Release` clears BRQ: if BRQ is up after `p` events and down after
/// `q`, a `Release` fired in between.
proof fn lemma_brq_fall_has_release(t: Seq<ArbEvent>, p: int, q: int)
    requires
        arb_run(t) is Some,
        0 <= p <= q <= t.len(),
        arb_run(t.take(p)).unwrap().brq,
        !arb_run(t.take(q)).unwrap().brq,
    ensures
        exists|k: int| p <= k < q && t[k] == ArbEvent::Release,
    decreases q - p,
{
    lemma_run_prefix(t, p);
    lemma_run_prefix(t, q);
    if q > p {
        lemma_run_prefix(t, q - 1);
        assert(t.take(q).drop_last() =~= t.take(q - 1));
        assert(t.take(q).last() == t[q - 1]);
        if t[q - 1] == ArbEvent::Release {
            assert(p <= q - 1 < q && t[q - 1] == ArbEvent::Release);
        } else {
            // every other event preserves a raised BRQ, so it was already
            // down one step earlier
            assert(!arb_run(t.take(q - 1)).unwrap().brq);
            lemma_brq_fall_has_release(t, p, q - 1);
        }
    }
}

/// A grant is always preceded by a request: BGR rises only after BRQ rose.
pub proof fn lemma_grant_after_request(t: Seq<ArbEvent>, i: int)
    requires
        arb_run(t) is Some,
        0 <= i < t.len(),
        t[i] == ArbEvent::Grant,
    ensures
        exists|j: int| 0 <= j < i && t[j] == ArbEvent::Request,
{
    lemma_run_prefix(t, i + 1);
    lemma_run_prefix(t, i);
    assert(t.take(i + 1).drop_last() =~= t.take(i));
    assert(t.take(i + 1).last() == t[i]);
    let pre = arb_run(t.take(i)).unwrap();
    assert(arb_enabled(pre, ArbEvent::Grant));
    lemma_brq_has_request(t.take(i));
    let j = choose|j: int| 0 <= j < t.take(i).len() && t.take(i)[j] == ArbEvent::Request;
    assert(0 <= j < i && t[j] == ArbEvent::Request);
}

/// The peripheral takes the bus only after the grant: bus tenure follows
/// BGR's rise.
pub proof fn lemma_acquire_after_grant(t: Seq<ArbEvent>, i: int)
    requires
        arb_run(t) is Some,
        0 <= i < t.len(),
        t[i] == ArbEvent::Acquire,
    ensures
        exists|j: int| 0 <= j < i && t[j] == ArbEvent::Grant,
{
    lemma_run_prefix(t, i + 1);
    lemma_run_prefix(t, i);
    assert(t.take(i + 1).drop_last() =~= t.take(i));
    assert(t.take(i + 1).last() == t[i]);
    let pre = arb_run(t.take(i)).unwrap();
    assert(arb_enabled(pre, ArbEvent::Acquire));
    lemma_bgr_has_grant(t.take(i));
    let j = choose|j: int| 0 <= j < t.take(i).len() && t.take(i)[j] == ArbEvent::Grant;
    assert(0 <= j < i && t[j] == ArbEvent::Grant);
}

/// BRQ falls only after the peripheral's bus tenure began.
pub proof fn lemma_release_after_acquire(t: Seq<ArbEvent>, i: int)
    requires
        arb_run(t) is Some,
        0 <= i < t.len(),
        t[i] == ArbEvent::Release,
    ensures
        exists|j: int| 0 <= j < i && t[j] == ArbEvent::Acquire,
{
    lemma_run_prefix(t, i + 1);
    lemma_run_prefix(t, i);
    assert(t.take(i + 1).drop_last() =~= t.take(i));
    assert(t.take(i + 1).last() == t[i]);
    let pre = arb_run(t.take(i)).unwrap();
    assert(arb_enabled(pre, ArbEvent::Release));
    lemma_held_has_acquire(t.take(i));
    let j = choose|j: int| 0 <= j < t.take(i).len() && t.take(i)[j] == ArbEvent::Acquire;
    assert(0 <= j < i && t[j] == ArbEvent::Acquire);
}

/// BGR falls only after BRQ fell: the CPU retakes the bus only once the
/// peripheral's turn is over.
pub proof fn lemma_ungrant_after_release(t: Seq<ArbEvent>, i: int)
    requires
        arb_run(t) is Some,
        0 <= i < t.len(),
        t[i] == ArbEvent::Ungrant,
    ensures
        exists|j: int| 0 <= j < i && t[j] == ArbEvent::Release,
{
    lemma_run_prefix(t, i + 1);
    lemma_run_prefix(t, i);
    assert(t.take(i + 1).drop_last() =~= t.take(i));
    assert(t.take(i + 1).last() == t[i]);
    let pre = arb_run(t.take(i)).unwrap();
    assert(arb_enabled(pre, ArbEvent::Ungrant));
    // BGR is up before the fall, so some grant happened at g < i; at g BRQ
    // was up, and before i it is down again: a release lies between.
    lemma_bgr_has_grant(t.take(i));
    let g = choose|g: int| 0 <= g < i && t.take(i)[g] == ArbEvent::Grant;
    lemma_run_prefix(t, g + 1);
    lemma_run_prefix(t, g);
    assert(t.take(g + 1).drop_last() =~= t.take(g));
    assert(t.take(g + 1).last() == t[g]);
    assert(arb_run(t.take(g + 1)).unwrap().brq);
    lemma_brq_fall_has_release(t, g + 1, i);
    let k = choose|k: int| g + 1 <= k < i && t[k] == ArbEvent::Release;
    assert(0 <= k < i && t[k] == ArbEvent::Release);
}

} // verus!
