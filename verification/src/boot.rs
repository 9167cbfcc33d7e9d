//! The application bootstrapper's sequencing: startup runs a fixed chain of
//! steps, each one gated on the success of the one before it; any failure
//! before the event loop is running aborts startup for good, while per-event
//! failures once the loop runs never take it down.

use vstd::prelude::*;

use crate::profile::BuildProfile;

verus! {

/// Where startup stands: the step about to run, the running event loop, or
/// the aborted state that a startup failure leaves behind.
#[derive(Clone, Copy, PartialEq, Eq, Structural, Debug)]
pub enum BootPhase {
    /// Choose the log sinks for the process lifetime.
    SelectLogTargets,
    /// Build the menu tree.
    BuildMenu,
    /// Register the frontend commands.
    RegisterCommands,
    /// Run the diagnostics-panel self-test (debug builds only).
    DevtoolsSelfTest,
    /// Attach the menu and dispatcher to the main window.
    AttachMenu,
    /// Enter the event loop.
    StartEventLoop,
    /// The loop is running; it runs until exit.
    Running,
    /// Startup failed; there is no partial-startup recovery.
    Aborted,
}

/// The reported outcome of one startup step.
#[derive(Clone, Copy, PartialEq, Eq, Structural, Debug)]
pub enum StepResult {
    Succeeded,
    Failed,
}

/// The phase that follows `phase` when its step reports `ok`. Success walks
/// the fixed startup order, skipping the self-test outside debug builds;
/// failure in any startup phase aborts; the running loop and the aborted
/// state absorb every outcome.
pub open spec fn spec_next_phase(profile: BuildProfile, phase: BootPhase, ok: bool) -> BootPhase {
    match phase {
        BootPhase::Running => BootPhase::Running,
        BootPhase::Aborted => BootPhase::Aborted,
        _ => {
            if !ok {
                BootPhase::Aborted
            } else {
                match phase {
                    BootPhase::SelectLogTargets => BootPhase::BuildMenu,
                    BootPhase::BuildMenu => BootPhase::RegisterCommands,
                    BootPhase::RegisterCommands => {
                        if profile is Debug {
                            BootPhase::DevtoolsSelfTest
                        } else {
                            BootPhase::AttachMenu
                        }
                    },
                    BootPhase::DevtoolsSelfTest => BootPhase::AttachMenu,
                    BootPhase::AttachMenu => BootPhase::StartEventLoop,
                    BootPhase::StartEventLoop => BootPhase::Running,
                    BootPhase::Running => BootPhase::Running,
                    BootPhase::Aborted => BootPhase::Aborted,
                }
            }
        },
    }
}

/// The bootstrapper's state: the resolved build profile and the phase
/// startup stands in. The profile is read once at start and never changes.
#[derive(Clone, Copy, PartialEq, Eq, Structural, Debug)]
pub struct BootState {
    pub profile: BuildProfile,
    pub phase: BootPhase,
}

impl BootState {
    /// Startup begins by selecting the log targets, before any log record is
    /// emitted.
    pub fn start(profile: BuildProfile) -> (s: Self)
        ensures
            s.profile == profile,
            s.phase is SelectLogTargets,
    {
        BootState { profile, phase: BootPhase::SelectLogTargets }
    }

    /// Records the outcome of the current step and moves to the next phase.
    /// The profile never changes; the phase follows the startup order.
    pub fn advance(&mut self, outcome: StepResult)
        ensures
            final(self).profile == old(self).profile,
            final(self).phase == spec_next_phase(
                old(self).profile,
                old(self).phase,
                outcome is Succeeded,
            ),
    {
        let ok = match outcome {
            StepResult::Succeeded => true,
            StepResult::Failed => false,
        };
        let next = match self.phase {
            BootPhase::Running => BootPhase::Running,
            BootPhase::Aborted => BootPhase::Aborted,
            BootPhase::SelectLogTargets => {
                if ok {
                    BootPhase::BuildMenu
                } else {
                    BootPhase::Aborted
                }
            },
            BootPhase::BuildMenu => {
                if ok {
                    BootPhase::RegisterCommands
                } else {
                    BootPhase::Aborted
                }
            },
            BootPhase::RegisterCommands => {
                if !ok {
                    BootPhase::Aborted
                } else if self.profile.is_debug() {
                    BootPhase::DevtoolsSelfTest
                } else {
                    BootPhase::AttachMenu
                }
            },
            BootPhase::DevtoolsSelfTest => {
                if ok {
                    BootPhase::AttachMenu
                } else {
                    BootPhase::Aborted
                }
            },
            BootPhase::AttachMenu => {
                if ok {
                    BootPhase::StartEventLoop
                } else {
                    BootPhase::Aborted
                }
            },
            BootPhase::StartEventLoop => {
                if ok {
                    BootPhase::Running
                } else {
                    BootPhase::Aborted
                }
            },
        };
        self.phase = next;
    }
}

/// Startup is all-or-nothing: a failed step in any phase before the loop is
/// running aborts startup.
pub proof fn lemma_failure_aborts(profile: BuildProfile, phase: BootPhase)
    requires
        !(phase is Running),
        !(phase is Aborted),
    ensures
        spec_next_phase(profile, phase, false) is Aborted,
{
}

/// There is no recovery from an aborted startup.
pub proof fn lemma_aborted_is_terminal(profile: BuildProfile, ok: bool)
    ensures
        spec_next_phase(profile, BootPhase::Aborted, ok) is Aborted,
{
}

/// Once the loop runs, per-event failures are isolated: they never take the
/// loop down.
pub proof fn lemma_running_absorbs_failures(profile: BuildProfile, ok: bool)
    ensures
        spec_next_phase(profile, BootPhase::Running, ok) is Running,
{
}

/// A release build never enters the devtools self-test phase: the self-test
/// runs only when the build profile is debug.
pub proof fn lemma_release_skips_selftest(profile: BuildProfile, phase: BootPhase, ok: bool)
    requires
        profile is Release,
        !(phase is DevtoolsSelfTest),
    ensures
        !(spec_next_phase(profile, phase, ok) is DevtoolsSelfTest),
{
}

} // verus!
