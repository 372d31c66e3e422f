use usb_blinky::startup::{advance, StartupPhase, StepOutcome};

fn run(outcomes: &[StepOutcome]) -> StartupPhase {
    let mut phase = StartupPhase::TakePeripherals;
    for outcome in outcomes {
        phase = advance(phase, *outcome);
    }
    phase
}

#[test]
fn all_steps_succeeding_reaches_running() {
    assert_eq!(run(&[StepOutcome::Succeeded; 7]), StartupPhase::Running);
}

#[test]
fn startup_follows_the_fixed_order() {
    let mut phase = StartupPhase::TakePeripherals;
    let expected = [
        StartupPhase::StartWatchdog,
        StartupPhase::ConfigureClocks,
        StartupPhase::CreateUsbBus,
        StartupPhase::InstallTransport,
        StartupPhase::UnmaskInterrupt,
        StartupPhase::ConfigurePins,
        StartupPhase::Running,
    ];
    for next in expected {
        phase = advance(phase, StepOutcome::Succeeded);
        assert_eq!(phase, next);
    }
}

#[test]
fn clock_failure_halts_the_bootstrap() {
    let outcomes = [
        StepOutcome::Succeeded,
        StepOutcome::Succeeded,
        StepOutcome::Failed,  // the clock tree cannot be programmed
        StepOutcome::Succeeded,
        StepOutcome::Succeeded,
        StepOutcome::Succeeded,
        StepOutcome::Succeeded,
    ];
    assert_eq!(run(&outcomes), StartupPhase::Halted);
}

#[test]
fn singleton_already_taken_halts_immediately() {
    assert_eq!(run(&[StepOutcome::Failed]), StartupPhase::Halted);
}

#[test]
fn terminal_phases_absorb_further_outcomes() {
    assert_eq!(
        advance(StartupPhase::Running, StepOutcome::Failed),
        StartupPhase::Running
    );
    assert_eq!(
        advance(StartupPhase::Halted, StepOutcome::Succeeded),
        StartupPhase::Halted
    );
}
