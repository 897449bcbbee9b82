use kummer::series::{
    RunState, SeriesRun, TermUpdate, Verdict, REFERENCE_MAX_TERMS, SERIES_MAX_TERMS,
    TRACKED_MAX_TERMS,
};

const EPS: f64 = 2.2e-16;

fn plain_sum(a: f64, b: f64, z: f64) -> (f64, SeriesRun) {
    let mut term = 1.0;
    let mut result = 1.0;
    let mut run = SeriesRun::new(SERIES_MAX_TERMS);
    while run.is_running() {
        let k = run.step() as f64;
        term *= (a + k) * z / (b + k) / (k + 1.0);
        result += term;
        run.advance(term.abs() <= EPS * result.abs());
    }
    (result, run)
}

fn tracked_sum(a: f64, b: f64, z: f64) -> (f64, SeriesRun, Verdict) {
    let mut term = 1.0;
    let mut result = 1.0;
    let mut abssum = 1.0;
    let mut run = SeriesRun::new(TRACKED_MAX_TERMS);
    while run.is_running() {
        let k = run.step() as f64;
        let apk = a + k;
        let bpk = b + k;
        match run.term_update(bpk == 0.0, apk == 0.0) {
            TermUpdate::Recur => term *= apk * z / bpk / (k + 1.0),
            TermUpdate::Vanish => term = 0.0,
            TermUpdate::Undefined => break,
        }
        abssum += term.abs();
        result += term;
        run.advance(term.abs() <= EPS * result.abs());
    }
    let within_budget = run.step() as f64 * EPS * abssum <= 1e-7 * result.abs();
    (result, run, run.verdict(within_budget))
}

fn close(x: f64, y: f64, rel: f64) -> bool {
    (x - y).abs() <= rel * y.abs()
}

#[test]
fn caps() {
    assert_eq!(SERIES_MAX_TERMS, 500);
    assert_eq!(TRACKED_MAX_TERMS, 1000);
    assert_eq!(REFERENCE_MAX_TERMS, 101);
}

#[test]
fn new_run() {
    let r = SeriesRun::new(5);
    assert_eq!(r, SeriesRun { step: 0, cap: 5, state: RunState::Running });
    assert!(r.is_running());
    let e = SeriesRun::new(0);
    assert_eq!(e.state, RunState::Exhausted);
    assert!(!e.is_running());
    assert_eq!(e.verdict(true), Verdict::NotConverged);
}

#[test]
fn run_without_small_term_exhausts_at_cap() {
    let mut r = SeriesRun::new(3);
    let mut n = 0;
    while r.is_running() {
        r.advance(false);
        n += 1;
    }
    assert_eq!(n, 3);
    assert_eq!(r, SeriesRun { step: 3, cap: 3, state: RunState::Exhausted });
    assert_eq!(r.verdict(true), Verdict::NotConverged);
}

#[test]
fn run_stops_at_first_small_term() {
    let mut r = SeriesRun::new(10);
    r.advance(false);
    r.advance(false);
    r.advance(true);
    assert_eq!(r, SeriesRun { step: 2, cap: 10, state: RunState::Converged });
    r.advance(false);
    assert_eq!(r.step(), 2);
    assert_eq!(r.verdict(true), Verdict::Accepted);
    assert_eq!(r.verdict(false), Verdict::PrecisionLost);
}

#[test]
fn term_update_rules() {
    let mut r = SeriesRun::new(4);
    assert_eq!(r.term_update(false, false), TermUpdate::Recur);
    assert_eq!(r.term_update(false, true), TermUpdate::Recur);
    assert_eq!(r.term_update(true, true), TermUpdate::Vanish);
    assert!(r.is_running());
    assert_eq!(r.term_update(true, false), TermUpdate::Undefined);
    assert_eq!(r.state, RunState::Undefined);
    assert!(!r.is_running());
    assert_eq!(r.verdict(true), Verdict::UndefinedTerm);
}

#[test]
fn tracked_polynomial_matches_closed_form() {
    for &z in &[0.5, 3.0, -2.0, 10.0] {
        let (v, run, verdict) = tracked_sum(-2.0, -5.0, z);
        // (-2)_1/(-5)_1 = 2/5 and (-2)_2/((-5)_2 2!) = 2/40.
        let expected = 1.0 + 0.4 * z + z * z / 20.0;
        assert_eq!(verdict, Verdict::Accepted);
        assert_eq!(run.step(), 2);
        assert!(close(v, expected, 1e-9), "{v} vs {expected}");
    }
}

#[test]
fn tracked_removable_zero_over_zero() {
    // b = a = -2: the term at k = 2 is 0/0 and vanishes.
    let (v, run, verdict) = tracked_sum(-2.0, -2.0, 1.5);
    assert_eq!(verdict, Verdict::Accepted);
    assert_eq!(run.step(), 2);
    assert!(close(v, 1.0 + 1.5 + 1.5 * 1.5 / 2.0, 1e-12));
}

#[test]
fn tracked_undefined_term() {
    let (v, _, verdict) = tracked_sum(-3.0, -1.0, 1.0);
    assert_eq!(verdict, Verdict::UndefinedTerm);
    assert!(v.is_finite());
}

#[test]
fn tracked_zero_argument_is_one() {
    let (v, run, verdict) = tracked_sum(-2.0, -5.0, 0.0);
    assert_eq!(verdict, Verdict::Accepted);
    assert_eq!(run.step(), 0);
    assert_eq!(v, 1.0);
}

#[test]
fn tracked_slow_series_does_not_converge() {
    let (_, run, verdict) = tracked_sum(1.0, 1.0e5, 1.0e5);
    assert_eq!(run.state, RunState::Exhausted);
    assert_eq!(run.step(), TRACKED_MAX_TERMS);
    assert_eq!(verdict, Verdict::NotConverged);
}

#[test]
fn plain_sum_of_exponential() {
    let (v, run) = plain_sum(2.5, 2.5, 1.0);
    assert_eq!(run.state, RunState::Converged);
    assert!(close(v, std::f64::consts::E, 1e-14));
}

#[test]
fn plain_sum_fallback_scenario() {
    let (v, run) = plain_sum(2.5, 5.33, 6.4);
    assert_eq!(run.state, RunState::Converged);
    let mut term = 1.0;
    let mut sum = 1.0;
    for k in 0..500 {
        let k = k as f64;
        term = term * (2.5 + k) / (5.33 + k) * 6.4 / (k + 1.0);
        sum += term;
    }
    assert!(v.is_finite());
    assert!(close(v, sum, 1e-10), "{v} vs {sum}");
}

#[test]
fn plain_sum_stops_at_cap() {
    let (_, run) = plain_sum(1.0, 1.0e5, 1.0e5);
    assert_eq!(run.state, RunState::Exhausted);
    assert_eq!(run.step(), SERIES_MAX_TERMS);
}
