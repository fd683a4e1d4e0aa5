//! Cross-process single-instance arbitration: a process-wide lock,
//! acquired once at startup and held for the process lifetime, with
//! argument forwarding to the holder when a later launch finds it taken.

use vstd::prelude::*;

verus! {

/// The process-wide mutual-exclusion resource, modelled by who holds it:
/// no one, or the instance with the given identifier.
pub struct InstanceLock {
    pub holder: Option<u64>,
}

/// What a launching process does after the arbitration.
pub enum LaunchDecision {
    /// The lock was free and is now held by the launcher: it proceeds to
    /// its own run loop.
    StartRunLoop,
    /// Another instance holds the lock: the launcher forwards its launch
    /// arguments to that instance and exits without a run loop of its own.
    Forward { target: u64, argv: Vec<String> },
}

/// Who holds the lock after an instance with identifier `pid` launches
/// against it: a free lock is acquired, a held one keeps its holder.
pub open spec fn holder_after_launch(holder: Option<u64>, pid: u64) -> Option<u64> {
    if holder is None {
        Some(pid)
    } else {
        holder
    }
}

/// Whether a launch against this lock state starts a run loop: only when
/// the lock is free.
pub open spec fn launch_starts_run_loop(holder: Option<u64>) -> bool {
    holder is None
}

impl InstanceLock {
    /// A lock nobody holds yet.
    pub fn new() -> (lock: InstanceLock)
        ensures
            lock.holder is None,
    {
        InstanceLock { holder: None }
    }

    /// One launch attempt by the instance `pid` with launch arguments
    /// `argv`.  A free lock is acquired and the launcher starts its run
    /// loop; a held lock stays with its holder, and the launcher is told
    /// to forward exactly its own arguments to that holder and exit.
    pub fn launch(&mut self, pid: u64, argv: Vec<String>) -> (d: LaunchDecision)
        ensures
            final(self).holder == holder_after_launch(old(self).holder, pid),
            d is StartRunLoop <==> launch_starts_run_loop(old(self).holder),
            old(self).holder matches Some(first) ==> (d matches LaunchDecision::Forward {
                target,
                argv: forwarded,
            } && target == first && forwarded == argv),
    {
        match self.holder {
            None => {
                self.holder = Some(pid);
                LaunchDecision::StartRunLoop
            },
            Some(first) => LaunchDecision::Forward { target: first, argv },
        }
    }

    /// The holder releases the lock on process exit.
    pub fn release(&mut self, pid: u64)
        requires
            old(self).holder == Some(pid),
        ensures
            final(self).holder is None,
    {
        self.holder = None;
    }
}

/// While a first instance holds the lock, a second launch does not start a
/// run loop, and the lock stays with the first instance; by the contract
/// of `InstanceLock::launch`, the second launch's arguments are forwarded
/// to the first instance instead.
pub proof fn lemma_second_launch_blocked(first: u64, second: u64)
    ensures
        launch_starts_run_loop(Option::None),
        holder_after_launch(Option::None, first) == Some(first),
        !launch_starts_run_loop(Some(first)),
        holder_after_launch(Some(first), second) == Some(first),
{
}

} // verus!
