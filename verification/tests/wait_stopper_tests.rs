use servicerestarter::wait_stopper::StopResult;
use servicerestarter::wait_stopper::WaitStopper;
use std::time::Duration;
use std::time::Instant;

#[test]
fn stop_results_report_what_they_were_made_as() {
    assert!(StopResult::new_wants_to_stop().wants_to_stop());
    assert!(!StopResult::new_does_not_want_to_stop().wants_to_stop());
    assert!(!StopResult::default().wants_to_stop());
}

#[test]
fn wait_on_an_already_stopped_instance_returns_immediately() {
    let stopper = WaitStopper::new();
    stopper.stop();
    let before = Instant::now();
    let result = stopper.wait_until_stop_timeout(5_000);
    assert!(result.wants_to_stop());
    assert!(before.elapsed() < Duration::from_millis(1_000));
}

#[test]
fn stop_is_idempotent() {
    let stopper = WaitStopper::new();
    stopper.stop();
    stopper.stop();
    assert!(stopper.wait_until_stop_timeout(5_000).wants_to_stop());
    // The flag never resets: a later wait still reports the stop.
    assert!(stopper.wait_until_stop_timeout(5_000).wants_to_stop());
}

#[test]
fn wait_times_out_without_a_stop() {
    let stopper = WaitStopper::new();
    let result = stopper.wait_until_stop_timeout(50);
    assert!(!result.wants_to_stop());
}

#[test]
fn absent_stopper_degenerates_to_a_plain_sleep() {
    let before = Instant::now();
    let result = WaitStopper::wait_until_stop_timeout_opt(None, 50);
    assert!(!result.wants_to_stop());
    assert!(before.elapsed() >= Duration::from_millis(50));
}

#[test]
fn present_stopper_is_waited_on() {
    let stopper = WaitStopper::new();
    stopper.stop();
    let result = WaitStopper::wait_until_stop_timeout_opt(Some(&stopper), 5_000);
    assert!(result.wants_to_stop());
}
