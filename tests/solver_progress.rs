use salinity_rs::Progress;

#[test]
fn stops_at_the_cap_without_converging() {
    let mut p = Progress::new(3);
    let mut rounds = 0;
    while p.should_continue() {
        p.record(false);
        rounds += 1;
    }
    assert_eq!(rounds, 3);
    assert_eq!(p.rounds(), 3);
    assert!(!p.converged());
}

#[test]
fn stops_early_on_convergence() {
    let mut p = Progress::new(30);
    p.record(false);
    p.record(true);
    assert!(!p.should_continue());
    assert!(p.converged());
    assert_eq!(p.rounds(), 2);
}

#[test]
fn zero_cap_runs_no_round() {
    let p = Progress::new(0);
    assert!(!p.should_continue());
    assert!(!p.converged());
    assert_eq!(p.rounds(), 0);
}
