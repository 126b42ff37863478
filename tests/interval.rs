use fluxfeed::interval::{next_adaptive_state, AdaptiveState};

fn st(i: i64, c: i64) -> AdaptiveState {
    AdaptiveState { fetch_interval_minutes: i, consecutive_new_articles: c }
}

#[test]
fn single_new_articles_outcome_keeps_interval() {
    assert_eq!(next_adaptive_state(st(240, 0), 5), st(240, 1));
}

#[test]
fn two_new_articles_outcomes_halve_interval() {
    let s1 = next_adaptive_state(st(240, 0), 2);
    let s2 = next_adaptive_state(s1, 1);
    assert_eq!(s2, st(120, 2));
    assert_eq!(next_adaptive_state(s2, 1), st(60, 2));
    assert_eq!(next_adaptive_state(st(90, 1), 1), st(60, 2));
    assert_eq!(next_adaptive_state(st(60, 2), 1), st(60, 2));
}

#[test]
fn no_new_articles_doubles_and_resets() {
    assert_eq!(next_adaptive_state(st(60, 2), 0), st(120, 0));
    assert_eq!(next_adaptive_state(st(6000, 1), 0), st(10080, 0));
    assert_eq!(next_adaptive_state(st(10080, 0), 0), st(10080, 0));
}

#[test]
fn interval_stays_in_bounds_over_a_sequence() {
    let mut s = st(60, 0);
    for n in [0usize, 0, 0, 0, 0, 0, 0, 0, 3, 3, 3, 3, 3, 3, 3, 3, 0, 1, 0, 1, 1] {
        s = next_adaptive_state(s, n);
        assert!(s.fetch_interval_minutes >= 60 && s.fetch_interval_minutes <= 10080);
        assert!(s.consecutive_new_articles >= 0 && s.consecutive_new_articles <= 2);
    }
}
