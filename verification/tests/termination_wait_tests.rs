use qubit_executor::service::termination_wait::MAX_WAIT_SLICE_NANOS;
use qubit_executor::service::termination_wait_step;
use qubit_executor::service::TerminationWait;

#[test]
fn test_terminated_service_finishes_the_wait() {
    assert_eq!(termination_wait_step(true, 0, 10), TerminationWait::Terminated);
    assert_eq!(termination_wait_step(true, 1_000, 0), TerminationWait::Terminated);
}

#[test]
fn test_elapsed_timeout_fails_the_wait() {
    assert_eq!(termination_wait_step(false, 1_000, 1_000), TerminationWait::TimedOut);
    assert_eq!(termination_wait_step(false, 1_000, 5_000), TerminationWait::TimedOut);
    assert_eq!(termination_wait_step(false, 0, 0), TerminationWait::TimedOut);
}

#[test]
fn test_wait_slice_is_remaining_time_capped_at_one_hour() {
    assert_eq!(termination_wait_step(false, 1_000, 400), TerminationWait::WaitNanos(600));
    assert_eq!(MAX_WAIT_SLICE_NANOS, 3_600_000_000_000);
    let two_hours: u128 = 7_200_000_000_000;
    assert_eq!(termination_wait_step(false, two_hours, 0), TerminationWait::WaitNanos(MAX_WAIT_SLICE_NANOS));
    assert_eq!(termination_wait_step(false, u128::MAX, 1), TerminationWait::WaitNanos(MAX_WAIT_SLICE_NANOS));
}
