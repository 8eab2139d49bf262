use nobs::sources::{failures_report, probe_step, walk_step, ProbeStep, WalkStep};

#[test]
fn walk_steps() {
    assert!(matches!(walk_step(false, "README"), WalkStep::Continue));
    assert!(matches!(walk_step(false, ".virtualenv"), WalkStep::Continue));
    assert!(matches!(walk_step(true, ".virtualenv"), WalkStep::SkipDir));
    assert!(matches!(walk_step(true, "project"), WalkStep::ProbeRepository));
}

#[test]
fn verdict_on_failures() {
    assert!(failures_report(&vec![]).is_ok());
    assert!(failures_report(&vec!["a: bad".to_string()]).is_ok());
    assert_eq!(
        failures_report(&vec!["a: bad".to_string(), "b: worse".to_string()]),
        Err("Failed to add sources: \na: bad\nb: worse".to_string())
    );
}

#[test]
fn probe_steps() {
    assert!(matches!(probe_step(false, false), ProbeStep::Descend));
    assert!(matches!(probe_step(false, true), ProbeStep::Descend));
    assert!(matches!(probe_step(true, false), ProbeStep::RecordFailure));
    assert!(matches!(probe_step(true, true), ProbeStep::Register));
}
