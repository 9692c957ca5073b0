use xero_core::backend_jobs::{cancelled_error, join_error, stale_error, BackendJobRegistry};
use xero_core::error::CommandErrorClass;

#[test]
fn starting_latest_job_cancels_the_previous_job_for_the_same_key() {
    let mut registry = BackendJobRegistry::new();

    let first = registry.start_latest("project-search", "project search");
    assert!(!first.cancellation.is_cancelled(&registry));
    assert!(registry.is_latest(&first));

    let second = registry.start_latest("project-search", "project search");
    assert!(first.cancellation.is_cancelled(&registry));
    assert!(!registry.is_latest(&first));
    assert!(registry.is_latest(&second));
}

#[test]
fn finishing_a_replaced_latest_job_does_not_remove_the_current_job() {
    let mut registry = BackendJobRegistry::new();

    let first = registry.start_latest("repository-diff", "repository diff");
    let second = registry.start_latest("repository-diff", "repository diff");

    registry.finish_latest(&first);

    assert!(registry.is_latest(&second));
}

#[test]
fn finishing_the_current_job_forgets_it_and_other_keys_are_independent() {
    let mut registry = BackendJobRegistry::new();
    let a = registry.start_latest("a", "a work");
    let b = registry.start_latest("b", "b work");
    assert!(!a.cancellation.is_cancelled(&registry));
    registry.finish_latest(&a);
    assert!(!registry.is_latest(&a));
    assert!(registry.is_latest(&b));
    registry.cancel_latest("b");
    assert!(b.cancellation.is_cancelled(&registry));
    assert!(!registry.is_latest(&b));
    let err = b.cancellation.check_cancelled(&registry, "b").unwrap_err();
    assert_eq!(err.code, "backend_job_cancelled");
    assert_eq!(err.message, "Xero cancelled stale b work because a newer request replaced it.");
    assert!(err.retryable);
}

#[test]
fn project_lanes_are_stable_per_project_and_lane() {
    let mut registry = BackendJobRegistry::new();
    let git = registry.project_lane("project-1", "git");
    let other = registry.project_lane("project-1", "index");
    let again = registry.project_lane("project-1", "git");
    let second_project = registry.project_lane("project-2", "git");
    assert_eq!(git, again);
    assert_ne!(git, other);
    assert_ne!(git, second_project);
}

#[test]
fn job_error_messages() {
    let e = stale_error("diff");
    assert_eq!(e.code, "backend_job_stale_result");
    assert_eq!(e.message, "Xero ignored stale diff work because a newer request completed first.");
    let e = join_error("diff", "panicked");
    assert_eq!(e.class, CommandErrorClass::SystemFault);
    assert_eq!(e.message, "Xero could not finish background diff work: panicked");
    assert_eq!(cancelled_error("x").class, CommandErrorClass::Retryable);
}

#[test]
fn cancelling_latest_leaves_other_keys_and_later_jobs_alone() {
    let mut registry = BackendJobRegistry::new();
    let j = registry.start_latest("search", "search");
    let o = registry.start_latest("diff", "diff");
    registry.cancel_latest("search");
    assert!(j.cancellation.is_cancelled(&registry));
    assert!(!registry.is_latest(&j));
    assert!(registry.is_latest(&o));
    assert!(!o.cancellation.is_cancelled(&registry));
    registry.cancel_latest("nothing-here");
    assert!(registry.is_latest(&o));
}

#[test]
fn a_foreign_token_cannot_cancel_a_job_started_later() {
    let mut other = BackendJobRegistry::new();
    let _a = other.start_latest("a", "a");
    let foreign = other.start_latest("b", "b");
    let mut registry = BackendJobRegistry::new();
    foreign.cancellation.cancel(&mut registry);
    let _x = registry.start_latest("x", "x");
    let fresh = registry.start_latest("y", "y");
    assert!(!fresh.cancellation.is_cancelled(&registry));
}
