//! The two-phase bootstrap: accumulate the configuration, then hand
//! control to the run loop, exactly once and one way.

use vstd::prelude::*;
use crate::capability::Capability;
use crate::capability::plan_seq;
use crate::capability::registration_plan;

verus! {

/// The two states of a process lifetime: accumulating registrations, then
/// the blocking run loop.  There is no path back.
#[derive(Clone, Copy, PartialEq, Eq, Structural, Debug)]
pub enum Phase {
    Configuring,
    Running,
}

/// The configuration a process accumulates before its run loop starts:
/// the capabilities registered so far, in order, and the named handlers
/// the UI layer may invoke.
pub struct Bootstrapper {
    pub capabilities: Vec<Capability>,
    pub handlers: Vec<String>,
    pub phase: Phase,
}

impl Bootstrapper {
    /// A fresh process: nothing registered, still configuring.
    pub fn new() -> (b: Bootstrapper)
        ensures
            b.phase == Phase::Configuring,
            b.capabilities@.len() == 0,
            b.handlers@.len() == 0,
    {
        Bootstrapper { capabilities: Vec::new(), handlers: Vec::new(), phase: Phase::Configuring }
    }

    /// Registers one capability.  Only a configuring process can register;
    /// the capability is appended after everything registered before it.
    pub fn register(&mut self, c: Capability)
        requires
            old(self).phase == Phase::Configuring,
        ensures
            final(self).phase == Phase::Configuring,
            final(self).capabilities@ == old(self).capabilities@.push(c),
            final(self).handlers == old(self).handlers,
    {
        self.capabilities.push(c);
    }

    /// Registers a whole plan, in the plan's order.
    pub fn register_all(&mut self, plan: &Vec<Capability>)
        requires
            old(self).phase == Phase::Configuring,
        ensures
            final(self).phase == Phase::Configuring,
            final(self).capabilities@ == old(self).capabilities@ + plan@,
            final(self).handlers == old(self).handlers,
    {
        let ghost orig = self.capabilities@;
        let mut i: usize = 0;
        while i < plan.len()
            invariant
                self.phase == Phase::Configuring,
                self.handlers == old(self).handlers,
                i <= plan@.len(),
                self.capabilities@ == orig + plan@.subrange(0, i as int),
            decreases plan@.len() - i,
        {
            self.register(plan[i]);
            proof {
                assert(orig + plan@.subrange(0, i as int + 1)
                    =~= (orig + plan@.subrange(0, i as int)).push(plan@[i as int]));
            }
            i = i + 1;
        }
        proof {
            assert(orig + plan@.subrange(0, plan@.len() as int) =~= orig + plan@);
        }
    }

    /// Replaces the set of handlers the UI layer may invoke.  An empty set
    /// is as valid as any other: nothing later depends on it.
    pub fn set_handlers(&mut self, names: Vec<String>)
        requires
            old(self).phase == Phase::Configuring,
        ensures
            final(self).phase == Phase::Configuring,
            final(self).capabilities == old(self).capabilities,
            final(self).handlers == names,
    {
        self.handlers = names;
    }

    /// The one-way transition: configuration is complete and the run loop
    /// takes over.  It needs nothing but a process still configuring — in
    /// particular, an empty handler set does not prevent it — and after it
    /// no method of this type applies again, so it happens at most once
    /// per process lifetime.
    pub fn start(&mut self)
        requires
            old(self).phase == Phase::Configuring,
        ensures
            final(self).phase == Phase::Running,
            final(self).capabilities == old(self).capabilities,
            final(self).handlers == old(self).handlers,
    {
        self.phase = Phase::Running;
    }
}

/// The whole configuring phase in one step: build the plan for the target
/// platform, register it, install the handlers, and start.  The result is
/// a running process with exactly the planned capabilities, in the
/// planned order, whatever the handler set — including the empty one.
pub fn bootstrap(desktop: bool, handlers: Vec<String>) -> (b: Bootstrapper)
    ensures
        b.phase == Phase::Running,
        b.capabilities@ == plan_seq(desktop),
        b.handlers == handlers,
{
    let plan = registration_plan(desktop);
    let mut b = Bootstrapper::new();
    b.register_all(&plan);
    b.set_handlers(handlers);
    b.start();
    proof {
        assert(b.capabilities@ =~= plan_seq(desktop));
    }
    b
}

/// How a finished run loop ends the process.
pub enum RunOutcome {
    /// The loop ran until the user or the OS ended the application.
    CleanShutdown,
    /// The loop failed to start or failed while running; the process must
    /// terminate at once with this message.
    Fatal { message: String },
}

/// Decides the process outcome from the run loop's result: a failure is
/// fatal, with the loop's own message, and never a silent continuation;
/// only a clean loop exit is a clean shutdown.
pub fn run_outcome(run_result: Result<(), String>) -> (o: RunOutcome)
    ensures
        o is Fatal <==> run_result is Err,
        run_result matches Err(m) ==> (o matches RunOutcome::Fatal { message } && message == m),
{
    match run_result {
        Ok(()) => RunOutcome::CleanShutdown,
        Err(m) => RunOutcome::Fatal { message: m },
    }
}

} // verus!
