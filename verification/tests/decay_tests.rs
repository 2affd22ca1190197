use recode::exp_decay::ExpDecayState;

#[test]
fn test_decay_first_update_seeds_exactly() {
    let mut decay: ExpDecayState<f64> = ExpDecayState::new();
    assert!(!decay.is_seeded());
    assert_eq!(decay.value(), None);
    // The first sample is stored as-is: the blend argument is ignored.
    decay.update(2.5, 100, 999.0);
    assert!(decay.is_seeded());
    assert_eq!(decay.last(), Some((2.5, 100)));
}

#[test]
fn test_decay_zero_dt_is_noop() {
    let mut decay: ExpDecayState<f64> = ExpDecayState::new();
    decay.update(2.5, 100, 999.0);
    // A repeated timestamp leaves value and time untouched, whatever blend
    // the caller computed.
    decay.update(7.0, 100, 123.0);
    assert_eq!(decay.last(), Some((2.5, 100)));
}

#[test]
fn test_decay_stores_blend_on_new_time() {
    let mut decay: ExpDecayState<f64> = ExpDecayState::new();
    decay.update(2.0, 100, 999.0);
    decay.update(8.0, 250, 5.0);
    assert_eq!(decay.last(), Some((5.0, 250)));
    assert_eq!(decay.value(), Some(5.0));
}

#[test]
fn test_decay_reset_reseeds() {
    let mut decay: ExpDecayState<i64> = ExpDecayState::new();
    decay.update(4, 10, 0);
    decay.reset();
    assert!(!decay.is_seeded());
    decay.update(9, 20, -1);
    assert_eq!(decay.last(), Some((9, 20)));
}
