use vstd::prelude::*;

verus! {

/// The bounded-permit limiter's accounting: a fixed capacity and the count of
/// permits currently held. Holding a permit authorizes one in-flight request,
/// so at most `capacity` requests are in flight at any instant. The host runs
/// this policy on a counting semaphore; every decision that semaphore may
/// take is the one modelled here.
pub struct Limiter {
    pub capacity: usize,
    pub held: usize,
}

/// One event observed at the limiter.
#[derive(Debug, Clone, Copy, PartialEq, Eq, Structural)]
pub enum PermitEvent {
    /// A task asks for a permit before sending a request.
    Acquire,
    /// A finished attempt gives its permit back — unconditionally, whether
    /// the attempt succeeded, failed or timed out.
    Release,
}

impl Limiter {
    /// The permit count never passes the capacity (and, being unsigned, never
    /// goes negative).
    pub open spec fn wf(&self) -> bool {
        self.held <= self.capacity
    }

    /// A fresh limiter with every permit free.
    pub fn new(capacity: usize) -> (l: Limiter)
        ensures
            l.capacity == capacity,
            l.held == 0,
            l.wf(),
    {
        Limiter { capacity, held: 0 }
    }

    /// Take a permit when one is free. When the limiter is saturated nothing
    /// changes and the caller must wait for a release.
    pub fn try_acquire(&mut self) -> (granted: bool)
        requires
            old(self).wf(),
        ensures
            final(self).capacity == old(self).capacity,
            final(self).wf(),
            granted ==> old(self).held < old(self).capacity && final(self).held == old(self).held
                + 1,
            !granted ==> old(self).held == old(self).capacity && final(self).held == old(
                self,
            ).held,
    {
        if self.held < self.capacity {
            self.held = self.held + 1;
            true
        } else {
            false
        }
    }

    /// Give a permit back: exactly one release per acquisition.
    pub fn release(&mut self)
        requires
            old(self).wf(),
            old(self).held >= 1,
        ensures
            final(self).capacity == old(self).capacity,
            final(self).held == old(self).held - 1,
            final(self).wf(),
    {
        self.held = self.held - 1;
    }
}

/// The limiter after one event: an acquire against a saturated limiter blocks (the
/// count is unchanged until a permit frees), and a release with nothing held
/// changes nothing.
pub open spec fn apply_event(l: Limiter, e: PermitEvent) -> Limiter {
    match e {
        PermitEvent::Acquire => {
            if l.held < l.capacity {
                Limiter { capacity: l.capacity, held: (l.held + 1) as usize }
            } else {
                l
            }
        },
        PermitEvent::Release => {
            if l.held > 0 {
                Limiter { capacity: l.capacity, held: (l.held - 1) as usize }
            } else {
                l
            }
        },
    }
}

/// The limiter after a whole history of events, oldest first.
pub open spec fn apply_events(l: Limiter, es: Seq<PermitEvent>) -> Limiter
    decreases es.len(),
{
    if es.len() == 0 {
        l
    } else {
        apply_events(apply_event(l, es[0]), es.drop_first())
    }
}

/// However acquisitions and releases interleave across concurrent fetches, no
/// observed instant has more permits held than the configured capacity: every
/// state the limiter reaches from a well-formed one is well-formed, and the
/// capacity never drifts.
pub proof fn lemma_capacity_never_exceeded(l: Limiter, es: Seq<PermitEvent>)
    requires
        l.wf(),
    ensures
        apply_events(l, es).wf(),
        apply_events(l, es).capacity == l.capacity,
    decreases es.len(),
{
    if es.len() > 0 {
        lemma_capacity_never_exceeded(apply_event(l, es[0]), es.drop_first());
    }
}

} // verus!
