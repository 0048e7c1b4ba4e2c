use two_phase_commit::probability::Probability;

#[test]
fn ratio_must_lie_between_zero_and_one() {
    assert!(Probability::from_ratio(0, 1).is_some());
    assert!(Probability::from_ratio(1, 1).is_some());
    assert!(Probability::from_ratio(7, 10).is_some());
    assert!(Probability::from_ratio(2, 1).is_none());
    assert!(Probability::from_ratio(0, 0).is_none());
    assert!(Probability::from_ratio(1, 0).is_none());
}

#[test]
fn certain_and_impossible_are_told_apart() {
    let half = Probability::from_ratio(1, 2).unwrap();
    assert!(!half.is_certain());
    assert!(!half.is_impossible());
    assert!(Probability::always().is_certain());
    assert!(!Probability::always().is_impossible());
    assert!(Probability::never().is_impossible());
    assert!(!Probability::never().is_certain());
    assert!(Probability::from_ratio(5, 5).unwrap().is_certain());
    assert!(Probability::from_ratio(0, 5).unwrap().is_impossible());
}

#[test]
fn probability_one_always_succeeds() {
    let p = Probability::always();
    for _ in 0..1000 {
        assert!(p.sample());
    }
    let q = Probability::from_ratio(1000000, 1000000).unwrap();
    for _ in 0..1000 {
        assert!(q.sample());
    }
}

#[test]
fn probability_zero_never_succeeds() {
    let p = Probability::never();
    for _ in 0..1000 {
        assert!(!p.sample());
    }
    let q = Probability::from_ratio(0, 1000000).unwrap();
    for _ in 0..1000 {
        assert!(!q.sample());
    }
}

#[test]
fn a_fair_coin_falls_both_ways() {
    let p = Probability::from_ratio(1, 2).unwrap();
    let mut hits = 0;
    for _ in 0..2000 {
        if p.sample() {
            hits += 1;
        }
    }
    assert!(hits > 0);
    assert!(hits < 2000);
}
