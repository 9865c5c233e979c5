use exit_monitor::subscription::SubscriptionGuard;

#[test]
fn first_release_reports_first_and_marks_released() {
    let mut g = SubscriptionGuard::acquire();
    assert!(!g.released);
    assert!(g.release());
    assert!(g.released);
}

#[test]
fn double_release_is_idempotent_and_does_not_err() {
    let mut g = SubscriptionGuard::acquire();
    assert!(g.release());
    // A second termination path may release again: nothing changes and the
    // repeat call reports that it was not the first.
    assert!(!g.release());
    assert!(g.released);
    assert!(!g.release());
    assert!(g.released);
}
