//! Startup sequencing: the one-shot bootstrap that must run, in a fixed
//! dependency order, before the steady-state loop may begin.
//!
//! Each hardware step — claiming the peripheral singleton, starting the
//! watchdog, programming the oscillator and both PLLs, creating the USB bus,
//! installing the transport, unmasking the USB interrupt, configuring the
//! pins — either succeeds or fails; the outcome is a typed value, and the
//! decision what to do next is taken here.  A failure at any step halts the
//! bootstrap: nothing may run on a partially configured clock tree, and the
//! interrupt may be unmasked only once the transport stands installed.

use vstd::prelude::*;

verus! {

/// Where the bootstrap stands: each `…` phase names the hardware step about
/// to be attempted; `Running` is the steady state and `Halted` the fatal
/// stop.
#[derive(Clone, Copy, PartialEq, Eq, Structural, Debug)]
pub enum StartupPhase {
    /// About to claim exclusive access to the peripheral register set.
    TakePeripherals,
    /// About to start the watchdog counter the clock bringup needs.
    StartWatchdog,
    /// About to program the crystal oscillator and both PLLs.
    ConfigureClocks,
    /// About to create the USB bus allocator on the USB clock.
    CreateUsbBus,
    /// About to construct the transport and install it into the slot.
    InstallTransport,
    /// About to unmask the USB controller's interrupt line.
    UnmaskInterrupt,
    /// About to configure the single-cycle IO block and the LED pin.
    ConfigurePins,
    /// Bootstrap done; the blink loop owns the processor from here on.
    Running,
    /// A step failed; the device halts and only fault reporting remains.
    Halted,
}

/// How one hardware step ended.
#[derive(Clone, Copy, PartialEq, Eq, Structural, Debug)]
pub enum StepOutcome {
    Succeeded,
    Failed,
}

/// How many hardware steps the bootstrap has.
pub open spec fn step_count() -> int {
    7
}

/// The phase about to be attempted after `k` steps have all succeeded.
pub open spec fn phase_of(k: int) -> StartupPhase {
    if k == 0 {
        StartupPhase::TakePeripherals
    } else if k == 1 {
        StartupPhase::StartWatchdog
    } else if k == 2 {
        StartupPhase::ConfigureClocks
    } else if k == 3 {
        StartupPhase::CreateUsbBus
    } else if k == 4 {
        StartupPhase::InstallTransport
    } else if k == 5 {
        StartupPhase::UnmaskInterrupt
    } else if k == 6 {
        StartupPhase::ConfigurePins
    } else {
        StartupPhase::Running
    }
}

/// How many steps a phase has behind it; the terminal phases sort last.
pub open spec fn phase_index(p: StartupPhase) -> int {
    match p {
        StartupPhase::TakePeripherals => 0,
        StartupPhase::StartWatchdog => 1,
        StartupPhase::ConfigureClocks => 2,
        StartupPhase::CreateUsbBus => 3,
        StartupPhase::InstallTransport => 4,
        StartupPhase::UnmaskInterrupt => 5,
        StartupPhase::ConfigurePins => 6,
        StartupPhase::Running => 7,
        StartupPhase::Halted => 8,
    }
}

/// The bootstrap's one decision: a failed step halts for good, a successful
/// one hands over to the next step in the fixed order, and the two terminal
/// phases absorb everything.
pub open spec fn advance_spec(p: StartupPhase, o: StepOutcome) -> StartupPhase {
    if p == StartupPhase::Running || p == StartupPhase::Halted {
        p
    } else if o == StepOutcome::Failed {
        StartupPhase::Halted
    } else {
        phase_of(phase_index(p) + 1)
    }
}

/// Takes the outcome of the step just attempted and says what to do next.
pub fn advance(p: StartupPhase, o: StepOutcome) -> (next: StartupPhase)
    ensures
        next == advance_spec(p, o),
{
    match p {
        StartupPhase::Running => StartupPhase::Running,
        StartupPhase::Halted => StartupPhase::Halted,
        _ => {
            match o {
                StepOutcome::Failed => StartupPhase::Halted,
                StepOutcome::Succeeded => {
                    match p {
                        StartupPhase::TakePeripherals => StartupPhase::StartWatchdog,
                        StartupPhase::StartWatchdog => StartupPhase::ConfigureClocks,
                        StartupPhase::ConfigureClocks => StartupPhase::CreateUsbBus,
                        StartupPhase::CreateUsbBus => StartupPhase::InstallTransport,
                        StartupPhase::InstallTransport => StartupPhase::UnmaskInterrupt,
                        StartupPhase::UnmaskInterrupt => StartupPhase::ConfigurePins,
                        StartupPhase::ConfigurePins => StartupPhase::Running,
                        StartupPhase::Running => StartupPhase::Running,
                        StartupPhase::Halted => StartupPhase::Halted,
                    }
                },
            }
        },
    }
}

/// The phase the bootstrap stands in after the first `k` recorded outcomes.
pub open spec fn phase_after(outcomes: Seq<StepOutcome>, k: int) -> StartupPhase
    decreases k,
{
    if k <= 0 {
        StartupPhase::TakePeripherals
    } else {
        advance_spec(phase_after(outcomes, k - 1), outcomes[k - 1])
    }
}

/// What any reachable phase says about the path that led to it: a
/// non-terminal phase is reached after exactly its own number of steps, all
/// succeeded; `Running` is reached only once all seven steps have
/// succeeded.
pub proof fn lemma_phase_after_shape(outcomes: Seq<StepOutcome>, k: int)
    requires
        0 <= k <= outcomes.len(),
    ensures
        (phase_after(outcomes, k) != StartupPhase::Halted && phase_after(outcomes, k)
            != StartupPhase::Running) ==> (phase_index(phase_after(outcomes, k)) == k && k
            < step_count() && (forall|i: int|
            0 <= i < k ==> outcomes[i] == StepOutcome::Succeeded)),
        phase_after(outcomes, k) == StartupPhase::Running ==> (k >= step_count() && (forall|i: int|
            0 <= i < step_count() ==> outcomes[i] == StepOutcome::Succeeded)),
    decreases k,
{
    if k > 0 {
        lemma_phase_after_shape(outcomes, k - 1);
    }
}

/// The bootstrap reaches the steady state exactly when every one of its
/// seven hardware steps succeeded; one failed step anywhere halts it.
pub proof fn lemma_startup_completes_iff_all_steps_succeed(outcomes: Seq<StepOutcome>)
    requires
        outcomes.len() >= step_count(),
    ensures
        phase_after(outcomes, outcomes.len() as int) == StartupPhase::Running <==> (forall|i: int|
            0 <= i < step_count() ==> outcomes[i] == StepOutcome::Succeeded),
{
    lemma_phase_after_shape(outcomes, outcomes.len() as int);
    if forall|i: int| 0 <= i < step_count() ==> outcomes[i] == StepOutcome::Succeeded {
        lemma_all_success_runs(outcomes, outcomes.len() as int);
    }
}

/// After a prefix of successes the bootstrap stands exactly where the fixed
/// order puts it; once `Running`, it stays there.
proof fn lemma_all_success_runs(outcomes: Seq<StepOutcome>, k: int)
    requires
        0 <= k <= outcomes.len(),
        forall|i: int|
            0 <= i < k && i < step_count() ==> outcomes[i] == StepOutcome::Succeeded,
    ensures
        phase_after(outcomes, k) == (if k < step_count() {
            phase_of(k)
        } else {
            StartupPhase::Running
        }),
    decreases k,
{
    if k > 0 {
        lemma_all_success_runs(outcomes, k - 1);
    }
}

/// The invariant the whole design leans on: whenever the bootstrap stands
/// at the point of unmasking the USB interrupt, the step that installed the
/// transport has already run and succeeded.
pub proof fn lemma_interrupt_unmasked_only_after_install(outcomes: Seq<StepOutcome>, k: int)
    requires
        0 <= k <= outcomes.len(),
        phase_after(outcomes, k) == StartupPhase::UnmaskInterrupt,
    ensures
        k > phase_index(StartupPhase::InstallTransport),
        outcomes[phase_index(StartupPhase::InstallTransport)] == StepOutcome::Succeeded,
{
    lemma_phase_after_shape(outcomes, k);
}

} // verus!
