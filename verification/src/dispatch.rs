//! The managed dispatch loop's cooperative-stop protocol.
//!
//! A managed loop drives the dispatch step on a dedicated worker until a
//! cooperative-stop flag is observed; stopping sets the flag and joins
//! the worker, and only the join guarantees that no further delivery
//! callback will fire. [`DispatchControl`] is the verified protocol:
//! every dispatch step must be driven through a control that is in a
//! phase that still allows it, and once `stop` has returned, no phase
//! allowing a step is ever reachable again. The worker thread itself and
//! the flag's atomics live with the embedding; the protocol here is what
//! they must follow.

use vstd::prelude::*;

use crate::client::DeliveryEvent;
use crate::producer::{run_events, Producer};

verus! {

/// The lifecycle phase of a managed dispatch loop.
#[derive(Clone, Copy, Debug, PartialEq, Eq, Structural)]
pub enum LoopPhase {
    /// Created; no worker is running.
    Idle,
    /// The worker loops on the dispatch step.
    Running,
    /// The stop flag is set; the worker may still finish a step before
    /// observing it.
    Stopping,
    /// The worker observed the flag, exited, and was joined.
    Joined,
}

/// Whether a dispatch step may still be driven in this phase.
pub open spec fn may_dispatch(phase: LoopPhase) -> bool {
    phase == LoopPhase::Running || phase == LoopPhase::Stopping
}

/// The control state of one managed dispatch loop.
pub struct DispatchControl {
    phase: LoopPhase,
}

impl DispatchControl {
    /// The phase the loop is in.
    pub closed spec fn spec_phase(&self) -> LoopPhase {
        self.phase
    }

    /// The phase the loop is in.
    pub fn phase(&self) -> (p: LoopPhase)
        ensures
            p == self.spec_phase(),
    {
        self.phase
    }

    /// A loop that has not been started.
    pub fn new() -> (c: DispatchControl)
        ensures
            c.spec_phase() == LoopPhase::Idle,
    {
        DispatchControl { phase: LoopPhase::Idle }
    }

    /// Start the worker. Only an idle loop can be started: one engine
    /// client must never have two dispatch paths at once.
    pub fn start(&mut self)
        requires
            old(self).spec_phase() == LoopPhase::Idle,
        ensures
            final(self).spec_phase() == LoopPhase::Running,
    {
        self.phase = LoopPhase::Running;
    }

    /// Set the cooperative-stop flag: the worker will exit after the step
    /// it may currently be in.
    pub fn request_stop(&mut self)
        requires
            old(self).spec_phase() == LoopPhase::Running,
        ensures
            final(self).spec_phase() == LoopPhase::Stopping,
    {
        self.phase = LoopPhase::Stopping;
    }

    /// Record that the worker observed the flag, exited, and was joined.
    pub fn join(&mut self)
        requires
            old(self).spec_phase() == LoopPhase::Stopping,
        ensures
            final(self).spec_phase() == LoopPhase::Joined,
    {
        self.phase = LoopPhase::Joined;
    }

    /// Stop the loop: set the flag and join the worker; a loop that was
    /// never started has nothing to join. Once this returns, no dispatch
    /// step can be driven through this control any more, so no delivery
    /// callback fires after `stop` returns.
    pub fn stop(&mut self)
        ensures
            !may_dispatch(final(self).spec_phase()),
            old(self).spec_phase() == LoopPhase::Idle ==> final(self).spec_phase()
                == LoopPhase::Idle,
            may_dispatch(old(self).spec_phase()) ==> final(self).spec_phase() == LoopPhase::Joined,
            old(self).spec_phase() == LoopPhase::Joined ==> final(self).spec_phase()
                == LoopPhase::Joined,
    {
        match self.phase {
            LoopPhase::Idle => {},
            LoopPhase::Running => {
                self.request_stop();
                self.join();
            },
            LoopPhase::Stopping => {
                self.join();
            },
            LoopPhase::Joined => {},
        }
    }

    /// Drive one dispatch step through this control: serve the given
    /// completion records on the producer. Requires a phase that still
    /// allows dispatching — after `stop` has returned there is none.
    pub fn step(&self, producer: &mut Producer, events: &Vec<DeliveryEvent>) -> (n: usize)
        requires
            may_dispatch(self.spec_phase()),
            old(producer).wf(),
        ensures
            final(producer).wf(),
            final(producer).issued() == old(producer).issued(),
            final(producer).spec_client() == old(producer).spec_client(),
            n == events@.len(),
            (final(producer).pending(), final(producer).history()) == run_events(
                old(producer).pending(),
                old(producer).history(),
                events@,
            ),
    {
        producer.poll(events)
    }
}

/// Law: a stopped loop allows no further dispatch step — neither an idle
/// loop nor a joined one can drive a delivery callback.
pub proof fn lemma_no_dispatch_after_stop(phase: LoopPhase)
    requires
        phase == LoopPhase::Idle || phase == LoopPhase::Joined,
    ensures
        !may_dispatch(phase),
{
}

} // verus!
