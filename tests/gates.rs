use orbital::compare::Comparison;
use orbital::lambert::{
    check_inputs, check_regime, flips_plane, guess_regime, psi_branch, GuessRegime,
    IterationBudget, PsiBranch, MAX_ITERATIONS,
};
use orbital::status::SolverStatus;

const ALL: [Comparison; 4] = [
    Comparison::Less,
    Comparison::Equal,
    Comparison::Greater,
    Comparison::Unordered,
];

fn cmp(a: f64, b: f64) -> Comparison {
    match a.partial_cmp(&b) {
        Some(std::cmp::Ordering::Less) => Comparison::Less,
        Some(std::cmp::Ordering::Equal) => Comparison::Equal,
        Some(std::cmp::Ordering::Greater) => Comparison::Greater,
        None => Comparison::Unordered,
    }
}

#[test]
fn comparison_predicates_follow_ieee() {
    for (a, b) in [(1.0, 2.0), (2.0, 2.0), (3.0, 2.0), (f64::NAN, 2.0), (0.0, -0.0)] {
        let c = cmp(a, b);
        assert_eq!(c.lt(), a < b);
        assert_eq!(c.le(), a <= b);
        assert_eq!(c.gt(), a > b);
        assert_eq!(c.ge(), a >= b);
        assert_eq!(c.is_eq(), a == b);
    }
}

#[test]
fn valid_inputs_pass() {
    assert_eq!(
        check_inputs(cmp(398600.4, 0.0), cmp(3600.0, 0.0), cmp(1.0e7, 0.0)),
        Ok(())
    );
}

#[test]
fn non_positive_mu_is_invalid_input() {
    assert_eq!(
        check_inputs(Comparison::Equal, Comparison::Greater, Comparison::Greater),
        Err(SolverStatus::InvalidInput)
    );
    assert_eq!(
        check_inputs(Comparison::Less, Comparison::Greater, Comparison::Greater),
        Err(SolverStatus::InvalidInput)
    );
    assert_eq!(
        check_inputs(Comparison::Unordered, Comparison::Greater, Comparison::Greater),
        Err(SolverStatus::InvalidInput)
    );
}

#[test]
fn non_positive_time_is_invalid_input() {
    assert_eq!(
        check_inputs(Comparison::Greater, Comparison::Equal, Comparison::Greater),
        Err(SolverStatus::InvalidInput)
    );
    assert_eq!(
        check_inputs(Comparison::Greater, Comparison::Less, Comparison::Equal),
        Err(SolverStatus::InvalidInput)
    );
}

#[test]
fn collinear_positions_are_refused() {
    // r1 = (1, 2, 3), r2 = (2, 4, 6): cross product is zero
    let (a, b) = ([1.0f64, 2.0, 3.0], [2.0f64, 4.0, 6.0]);
    let cross = [
        a[1] * b[2] - a[2] * b[1],
        a[2] * b[0] - a[0] * b[2],
        a[0] * b[1] - a[1] * b[0],
    ];
    let mag = (cross[0] * cross[0] + cross[1] * cross[1] + cross[2] * cross[2]).sqrt();
    assert_eq!(
        check_inputs(Comparison::Greater, Comparison::Greater, cmp(mag, 0.0)),
        Err(SolverStatus::CollinearVectors)
    );
}

#[test]
fn collinear_never_internal_error() {
    for mu in ALL {
        for t in ALL {
            let r = check_inputs(mu, t, Comparison::Equal);
            assert!(r.is_err());
            assert_ne!(r, Err(SolverStatus::InternalError));
        }
    }
}

#[test]
fn regime_accepts_single_revolution() {
    assert_eq!(check_regime(Comparison::Less, Comparison::Less), Ok(()));
}

#[test]
fn regime_at_threshold_is_multi_revolution() {
    let t_nd = std::f64::consts::PI;
    assert_eq!(
        check_regime(Comparison::Less, cmp(t_nd / std::f64::consts::PI, 1.0)),
        Err(SolverStatus::MultiRevolution)
    );
    assert_eq!(
        check_regime(Comparison::Less, Comparison::Greater),
        Err(SolverStatus::MultiRevolution)
    );
    assert_eq!(
        check_regime(Comparison::Less, Comparison::Unordered),
        Err(SolverStatus::MultiRevolution)
    );
}

#[test]
fn regime_lambda_out_of_range_is_internal_error() {
    assert_eq!(
        check_regime(Comparison::Equal, Comparison::Less),
        Err(SolverStatus::InternalError)
    );
    assert_eq!(
        check_regime(Comparison::Greater, Comparison::Greater),
        Err(SolverStatus::InternalError)
    );
}

#[test]
fn plane_flips_only_on_negative_normal() {
    assert!(flips_plane(Comparison::Less));
    assert!(!flips_plane(Comparison::Equal));
    assert!(!flips_plane(Comparison::Greater));
    assert!(!flips_plane(Comparison::Unordered));
}

#[test]
fn guess_regime_boundaries() {
    assert_eq!(guess_regime(Comparison::Equal, Comparison::Greater), GuessRegime::AtLeastT0);
    assert_eq!(guess_regime(Comparison::Greater, Comparison::Less), GuessRegime::AtLeastT0);
    assert_eq!(guess_regime(Comparison::Less, Comparison::Less), GuessRegime::BelowT1);
    assert_eq!(guess_regime(Comparison::Less, Comparison::Equal), GuessRegime::Between);
    assert_eq!(guess_regime(Comparison::Less, Comparison::Greater), GuessRegime::Between);
    assert_eq!(
        guess_regime(Comparison::Unordered, Comparison::Unordered),
        GuessRegime::Between
    );
}

#[test]
fn psi_branches() {
    assert_eq!(psi_branch(cmp(0.5, 1.0)), PsiBranch::Elliptic);
    assert_eq!(psi_branch(cmp(1.5, 1.0)), PsiBranch::Hyperbolic);
    assert_eq!(psi_branch(cmp(1.0, 1.0)), PsiBranch::Parabolic);
    assert_eq!(psi_branch(Comparison::Unordered), PsiBranch::Parabolic);
}

#[test]
fn budget_converges_early() {
    let mut b = IterationBudget::start();
    let mut steps: u32 = 0;
    let deltas = [Comparison::Greater, Comparison::Greater, Comparison::Greater, Comparison::Less];
    for d in deltas {
        if b.proceed(d) {
            steps += 1;
        } else {
            break;
        }
    }
    assert_eq!(steps, 3);
    assert_eq!(b.outcome(), SolverStatus::Converged);
}

#[test]
fn budget_exhausted_is_not_converged() {
    let mut b = IterationBudget::start();
    let mut steps: u32 = 0;
    while b.proceed(Comparison::Greater) {
        steps += 1;
    }
    assert_eq!(steps, MAX_ITERATIONS);
    assert_eq!(steps, 10);
    assert_eq!(b.outcome(), SolverStatus::NotConverged);
    assert!(!b.proceed(Comparison::Greater));
}

#[test]
fn budget_met_on_last_step_is_not_converged() {
    let mut b = IterationBudget::start();
    for _ in 0..10 {
        assert!(b.proceed(Comparison::Greater));
    }
    assert!(!b.proceed(Comparison::Equal));
    assert_eq!(b.outcome(), SolverStatus::NotConverged);
}

#[test]
fn budget_stops_on_tolerance() {
    let mut b = IterationBudget::start();
    assert!(b.proceed(Comparison::Greater));
    assert!(!b.proceed(Comparison::Equal));
    assert_eq!(b.outcome(), SolverStatus::Converged);
    let mut c = IterationBudget::start();
    assert!(!c.proceed(Comparison::Less));
    assert_eq!(c.outcome(), SolverStatus::Converged);
}

#[test]
fn budget_nan_correction_is_not_converged() {
    let mut b = IterationBudget::start();
    assert!(b.proceed(Comparison::Greater));
    let mut steps: u32 = 1;
    while b.proceed(Comparison::Unordered) {
        steps += 1;
    }
    assert_eq!(steps, 10);
    assert_eq!(b.outcome(), SolverStatus::NotConverged);
}

#[test]
fn budget_unused_is_not_converged() {
    let b = IterationBudget::start();
    assert_eq!(b.outcome(), SolverStatus::NotConverged);
}
