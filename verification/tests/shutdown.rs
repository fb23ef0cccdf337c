use openswap_maker::maker::shutdown::{wait_for_shutdown, ShutdownSignal, WaitStep};

#[test]
fn shutdown_signal_latches_request_and_rearms_backend_after_joins() {
    let mut signal = ShutdownSignal::new();
    assert!(!signal.backend_flag());

    signal.store(true);
    assert!(signal.load());
    assert!(signal.backend_flag());

    signal.reset_backend();
    assert!(signal.load());
    assert!(!signal.backend_flag());
}

#[test]
fn shutdown_signal_can_be_taken_back() {
    let mut signal = ShutdownSignal::new();
    signal.store(true);
    signal.store(false);
    assert!(!signal.load());
    assert!(!signal.backend_flag());
}

#[test]
fn wait_sleeps_in_slices_of_at_most_a_second() {
    assert_eq!(
        wait_for_shutdown(2_500, false),
        WaitStep::Sleep { slice: 1_000, remaining: 1_500 }
    );
    assert_eq!(
        wait_for_shutdown(500, false),
        WaitStep::Sleep { slice: 500, remaining: 0 }
    );
    assert_eq!(wait_for_shutdown(500, true), WaitStep::Done { completed: false });
    assert_eq!(wait_for_shutdown(0, false), WaitStep::Done { completed: true });
    assert_eq!(wait_for_shutdown(0, true), WaitStep::Done { completed: false });
}
