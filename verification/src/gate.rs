//! The counting admission gate that bounds how many fetch tasks are in
//! flight at once.  The host schedules one task per (repository, query)
//! pair; each task must be admitted before it fetches and reports back
//! when it is done, whatever its outcome was.

use vstd::prelude::*;

verus! {

/// One admission decision point of the dispatcher.
pub enum GateEvent {
    /// A pending task asks to start its fetch.
    Admit,
    /// An admitted task finished its fetch.
    Finish,
}

/// The counting admission gate: at most `limit` holders at a time.
pub struct AdmissionGate {
    pub limit: usize,
    pub in_flight: usize,
}

/// How one event changes the number of admitted tasks: an admission only
/// takes effect below the ceiling, a completion only while something is
/// in flight.
pub open spec fn gate_step(in_flight: nat, limit: nat, ev: GateEvent) -> nat {
    match ev {
        GateEvent::Admit => if in_flight < limit {
            in_flight + 1
        } else {
            in_flight
        },
        GateEvent::Finish => if in_flight > 0 {
            (in_flight - 1) as nat
        } else {
            in_flight
        },
    }
}

/// The number of admitted tasks after a whole history of events, starting
/// from an idle gate.
pub open spec fn gate_run(limit: nat, evs: Seq<GateEvent>) -> nat
    decreases evs.len(),
{
    if evs.len() == 0 {
        0
    } else {
        gate_step(gate_run(limit, evs.drop_last()), limit, evs.last())
    }
}

/// Under a ceiling of `limit`, the number of simultaneously admitted
/// fetches never exceeds `limit`, whatever interleaving of admissions and
/// completions occurred.
pub proof fn lemma_gate_bounded(limit: nat, evs: Seq<GateEvent>)
    ensures
        gate_run(limit, evs) <= limit,
    decreases evs.len(),
{
    if evs.len() > 0 {
        lemma_gate_bounded(limit, evs.drop_last());
    }
}

impl AdmissionGate {
    /// No more than `limit` tasks are admitted at once.
    pub open spec fn wf(self) -> bool {
        self.in_flight <= self.limit
    }

    /// An idle gate with the given ceiling.
    pub fn new(limit: usize) -> (r: AdmissionGate)
        ensures
            r.wf(),
            r.limit == limit,
            r.in_flight == 0,
    {
        AdmissionGate { limit, in_flight: 0 }
    }

    /// Admits one pending task if the ceiling allows it.  The host parks
    /// the task and retries later when the answer is no.
    pub fn try_admit(&mut self) -> (admitted: bool)
        requires
            old(self).wf(),
        ensures
            final(self).wf(),
            final(self).limit == old(self).limit,
            admitted == (old(self).in_flight < old(self).limit),
            final(self).in_flight == gate_step(
                old(self).in_flight as nat,
                old(self).limit as nat,
                GateEvent::Admit,
            ),
    {
        if self.in_flight < self.limit {
            self.in_flight += 1;
            true
        } else {
            false
        }
    }

    /// Releases the unit held by one finished task, whether its fetch
    /// succeeded or failed.
    pub fn finish(&mut self)
        requires
            old(self).wf(),
            old(self).in_flight > 0,
        ensures
            final(self).wf(),
            final(self).limit == old(self).limit,
            final(self).in_flight == gate_step(
                old(self).in_flight as nat,
                old(self).limit as nat,
                GateEvent::Finish,
            ),
    {
        self.in_flight -= 1;
    }
}

} // verus!
