use sarsa::harness::plan_reduction;
use sarsa::harness::validate_config;
use sarsa::harness::ConfigError;

#[test]
fn plan_divides_evenly_when_possible() {
    let p = plan_reduction(20, 20);
    assert_eq!(p.requested, 20);
    assert_eq!(p.workers, 20);
    assert_eq!(p.per_worker, 1);
    assert_eq!(p.effective, 20);
}

#[test]
fn plan_drops_the_remainder() {
    let p = plan_reduction(7, 3);
    assert_eq!(p.per_worker, 2);
    assert_eq!(p.effective, 6);
    assert!(p.effective <= p.requested);
    assert!(p.requested - p.effective < p.workers);
}

#[test]
fn plan_with_more_workers_than_repeats_runs_nothing() {
    let p = plan_reduction(3, 4);
    assert_eq!(p.per_worker, 0);
    assert_eq!(p.effective, 0);
}

#[test]
fn reported_average_divides_by_the_requested_count() {
    // With 7 requested trials over 3 workers only 6 run; dividing their
    // accumulated sum by the requested 7 understates the true average of the
    // executed trials.
    let p = plan_reduction(7, 3);
    let per_trial_average = 10.0f64;
    let accumulated = per_trial_average * p.effective as f64;
    let reported = accumulated / p.requested as f64;
    let true_average = accumulated / p.effective as f64;
    assert!(p.effective < p.requested);
    assert!(reported < true_average);
}

#[test]
fn zero_window_capacity_is_fatal() {
    assert_eq!(validate_config(0, 20, 20, 20), Err(ConfigError::ZeroWindowCapacity));
}

#[test]
fn zero_workers_are_fatal() {
    assert_eq!(validate_config(100, 0, 20, 20), Err(ConfigError::ZeroWorkers));
}

#[test]
fn out_of_grid_goal_is_fatal() {
    assert_eq!(validate_config(100, 20, 12, 12), Err(ConfigError::GoalOutsideGrid));
}

#[test]
fn default_configuration_is_valid() {
    assert_eq!(validate_config(100, 20, 20, 20), Ok(()));
}
