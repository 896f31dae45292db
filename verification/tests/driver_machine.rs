use webvy::barrier::{Directive, PipelineDriver, WAIT_TIMEOUT_MS};

#[test]
fn idle_phase_advances_without_waiting() {
    let mut driver = PipelineDriver::new(2);
    assert!(matches!(driver.directive(), Directive::RunUnits { phase: 0 }));

    // The phase returns with nothing outstanding: straight to applying,
    // never a wait.
    driver.on_phase_returned(0);
    assert!(matches!(driver.directive(), Directive::DrainAndApply));

    driver.on_applied();
    assert!(matches!(driver.directive(), Directive::RunUnits { phase: 1 }));
}

#[test]
fn waiting_always_pumps_the_local_queue() {
    let mut driver = PipelineDriver::new(1);
    driver.on_phase_returned(3);

    match driver.directive() {
        Directive::PumpAndWait { pump_local, timeout_ms } => {
            assert!(pump_local);
            assert_eq!(timeout_ms, WAIT_TIMEOUT_MS);
        },
        other => panic!("expected a wait directive, got {:?}", other),
    }

    // Still outstanding after a timeout: pump again, wait again.
    driver.on_wait_returned(2);
    assert!(matches!(driver.directive(), Directive::PumpAndWait { pump_local: true, .. }));

    // Counter reached zero: only now may commands be applied.
    driver.on_wait_returned(0);
    assert!(matches!(driver.directive(), Directive::DrainAndApply));

    driver.on_applied();
    assert!(matches!(driver.directive(), Directive::Finish));
}

#[test]
fn commands_never_apply_while_units_run() {
    let mut driver = PipelineDriver::new(3);

    for phase in 0..3usize {
        match driver.directive() {
            Directive::RunUnits { phase: p } => assert_eq!(p, phase),
            other => panic!("expected phase work, got {:?}", other),
        }
        // While the machine asks for phase work it never asks to drain.
        assert!(!matches!(driver.directive(), Directive::DrainAndApply));
        driver.on_phase_returned(1);
        assert!(!matches!(driver.directive(), Directive::RunUnits { .. }));
        driver.on_wait_returned(0);
        assert!(matches!(driver.directive(), Directive::DrainAndApply));
        driver.on_applied();
    }
    assert!(matches!(driver.directive(), Directive::Finish));
}

#[test]
fn empty_pipeline_finishes_immediately() {
    let driver = PipelineDriver::new(0);
    assert!(matches!(driver.directive(), Directive::Finish));
}
