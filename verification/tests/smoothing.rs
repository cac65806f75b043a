use nzxt_ctl::smoothing::Smoother;

#[test]
fn smoother_converges_toward_input() {
    let mut s = Smoother::new(500);
    assert_eq!(s.update(Some(40_000)), Some(40_000_000));
    assert_eq!(s.update(Some(50_000)), Some(45_000_000));
    assert_eq!(s.update(Some(50_000)), Some(47_500_000));
}

#[test]
fn smoother_resets_on_missing_reading() {
    let mut s = Smoother::new(500);
    s.update(Some(40_000));
    assert_eq!(s.update(None), None);
    assert_eq!(s.update(Some(60_000)), Some(60_000_000));
}

#[test]
fn smoother_keeps_the_average_below_a_millidegree() {
    let mut s = Smoother::new(300);
    s.update(Some(41_000));
    assert_eq!(s.update(Some(42_001)), Some(41_300_300));
    assert_eq!(s.update(Some(40_000)), Some(40_910_210));
    assert_eq!(s.value(), Some(40_910_210));
    s.reset();
    assert_eq!(s.value(), None);
    assert_eq!(s.alpha_permille(), 300);
}

#[test]
fn smoothing_keeps_steps_smaller_than_a_millidegree() {
    // Closing in on 41.5 degrees the average moves by fractions of a
    // millidegree, and keeps them, while staying below the reading.
    let mut s = Smoother::new(300);
    s.update(Some(41_499));
    let mut v = None;
    for _ in 0..20 {
        v = s.update(Some(41_500));
    }
    let v = v.unwrap();
    assert_eq!(v, 41_499_999);
}
