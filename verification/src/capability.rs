//! The fixed, ordered registration plan of platform capabilities.

use vstd::prelude::*;

verus! {

/// One optional platform capability ("plugin") that the shell can enable.
#[derive(Clone, Copy, PartialEq, Eq, Structural, Debug)]
pub enum Capability {
    /// Structured log sink: console and a per-install log directory.
    Logging,
    /// File read/write operations requested by the UI layer.
    Filesystem,
    /// Native open/save/message dialog prompts.
    Dialog,
    /// Query/terminate OS processes.
    ProcessControl,
    /// Platform/version metadata.
    OsInfo,
    /// Cross-process mutual exclusion with argument forwarding.
    SingleInstance,
    /// Check for and apply application updates.
    Updater,
    /// OS-level URL activation events.
    DeepLink,
    /// Outbound HTTP requests on behalf of the UI layer.
    Http,
    /// Open URLs or files with the OS default handler.
    Opener,
}

/// A capability that only desktop builds register.
pub open spec fn desktop_only(c: Capability) -> bool {
    c == Capability::SingleInstance || c == Capability::Updater
}

/// The registration order for a build: logging first, so every later
/// registration step can emit diagnostics; the single-instance guard and
/// the updater only on desktop, with the guard ahead of the updater and of
/// deep-link handling, so a second launch is intercepted before it can
/// trigger a redundant update check.
pub open spec fn plan_seq(desktop: bool) -> Seq<Capability> {
    if desktop {
        seq![
            Capability::Logging,
            Capability::Filesystem,
            Capability::Dialog,
            Capability::ProcessControl,
            Capability::OsInfo,
            Capability::SingleInstance,
            Capability::Updater,
            Capability::DeepLink,
            Capability::Http,
            Capability::Opener,
        ]
    } else {
        seq![
            Capability::Logging,
            Capability::Filesystem,
            Capability::Dialog,
            Capability::ProcessControl,
            Capability::OsInfo,
            Capability::DeepLink,
            Capability::Http,
            Capability::Opener,
        ]
    }
}

/// Builds the registration plan for a desktop or a mobile build.
pub fn registration_plan(desktop: bool) -> (plan: Vec<Capability>)
    ensures
        plan@ == plan_seq(desktop),
{
    let mut plan: Vec<Capability> = Vec::new();
    plan.push(Capability::Logging);
    plan.push(Capability::Filesystem);
    plan.push(Capability::Dialog);
    plan.push(Capability::ProcessControl);
    plan.push(Capability::OsInfo);
    if desktop {
        plan.push(Capability::SingleInstance);
        plan.push(Capability::Updater);
    }
    plan.push(Capability::DeepLink);
    plan.push(Capability::Http);
    plan.push(Capability::Opener);
    proof {
        assert(plan@ =~= plan_seq(desktop));
    }
    plan
}

/// The desktop-only capabilities (the single-instance guard and the
/// updater) stand in the plan if and only if the build targets a desktop
/// platform.
pub proof fn lemma_desktop_only_iff_desktop(desktop: bool, c: Capability)
    requires
        desktop_only(c),
    ensures
        plan_seq(desktop).contains(c) <==> desktop,
{
    if desktop {
        assert(plan_seq(true)[5] == Capability::SingleInstance);
        assert(plan_seq(true)[6] == Capability::Updater);
        assert(plan_seq(true).contains(c));
    } else {
        assert forall|i: int| 0 <= i < plan_seq(false).len() implies plan_seq(false)[i] != c by {
            assert(plan_seq(false)[0] == Capability::Logging);
            assert(plan_seq(false)[1] == Capability::Filesystem);
            assert(plan_seq(false)[2] == Capability::Dialog);
            assert(plan_seq(false)[3] == Capability::ProcessControl);
            assert(plan_seq(false)[4] == Capability::OsInfo);
            assert(plan_seq(false)[5] == Capability::DeepLink);
            assert(plan_seq(false)[6] == Capability::Http);
            assert(plan_seq(false)[7] == Capability::Opener);
        }
    }
}

/// Logging is registered first, before any other capability, and appears
/// nowhere else in the plan: every registration step after the first can
/// rely on a live log sink.
pub proof fn lemma_logging_first(desktop: bool)
    ensures
        plan_seq(desktop).len() > 0,
        plan_seq(desktop)[0] == Capability::Logging,
        forall|i: int|
            0 < i < plan_seq(desktop).len() ==> plan_seq(desktop)[i] != Capability::Logging,
{
}

/// On desktop, the single-instance guard is registered before the updater
/// and before deep-link handling: a second launch is intercepted before it
/// can trigger either.
pub proof fn lemma_guard_precedes_updater_and_deep_link(i: int, j: int)
    requires
        0 <= i < plan_seq(true).len(),
        0 <= j < plan_seq(true).len(),
        plan_seq(true)[i] == Capability::SingleInstance,
        plan_seq(true)[j] == Capability::Updater || plan_seq(true)[j] == Capability::DeepLink,
    ensures
        i < j,
{
}

/// No capability is registered twice.
pub proof fn lemma_plan_no_duplicates(desktop: bool, i: int, j: int)
    requires
        0 <= i < j < plan_seq(desktop).len(),
    ensures
        plan_seq(desktop)[i] != plan_seq(desktop)[j],
{
}

} // verus!
