use vstd::prelude::*;

use crate::compare::Comparison;
use crate::status::SolverStatus;

verus! {

/// Householder steps allowed before a solve is reported `NotConverged`.
pub const MAX_ITERATIONS: u32 = 10;

/// What the input checks decide, from `mu` compared with 0, `t` compared with
/// 0 and `|r1 x r2|` compared with 0.
pub open spec fn input_outcome(mu: Comparison, t: Comparison, cross: Comparison) -> Result<
    (),
    SolverStatus,
> {
    if !mu.gt_spec() || !t.gt_spec() {
        Err(SolverStatus::InvalidInput)
    } else if cross.eq_spec() {
        Err(SolverStatus::CollinearVectors)
    } else {
        Ok(())
    }
}

/// What the checks before root finding decide, from `|lambda|` compared with
/// 1 and `t_nd / pi` compared with 1.
pub open spec fn regime_outcome(lambda_abs: Comparison, revolutions: Comparison) -> Result<
    (),
    SolverStatus,
> {
    if !lambda_abs.lt_spec() {
        Err(SolverStatus::InternalError)
    } else if !revolutions.lt_spec() {
        Err(SolverStatus::MultiRevolution)
    } else {
        Ok(())
    }
}

/// Every check that stands between the inputs and the iteration, in order.
pub open spec fn gate_outcome(
    mu: Comparison,
    t: Comparison,
    cross: Comparison,
    lambda_abs: Comparison,
    revolutions: Comparison,
) -> Result<(), SolverStatus> {
    match input_outcome(mu, t, cross) {
        Err(e) => Err(e),
        Ok(()) => regime_outcome(lambda_abs, revolutions),
    }
}

/// Rejects a problem before any geometry is computed: `InvalidInput` unless
/// `mu > 0` and `t > 0` (NaN included), then `CollinearVectors` when
/// `|r1 x r2| == 0`.
pub fn check_inputs(mu: Comparison, t: Comparison, cross: Comparison) -> (r: Result<
    (),
    SolverStatus,
>)
    ensures
        r == input_outcome(mu, t, cross),
{
    if !(mu.gt() && t.gt()) {
        Err(SolverStatus::InvalidInput)
    } else if cross.is_eq() {
        Err(SolverStatus::CollinearVectors)
    } else {
        Ok(())
    }
}

/// Refuses a geometry the single-revolution iteration cannot take:
/// `InternalError` unless `|lambda| < 1`, then `MultiRevolution` unless
/// `t_nd / pi < 1`. A NaN on either side fails its check.
pub fn check_regime(lambda_abs: Comparison, revolutions: Comparison) -> (r: Result<
    (),
    SolverStatus,
>)
    ensures
        r == regime_outcome(lambda_abs, revolutions),
{
    if !lambda_abs.lt() {
        Err(SolverStatus::InternalError)
    } else if !revolutions.lt() {
        Err(SolverStatus::MultiRevolution)
    } else {
        Ok(())
    }
}

/// Whether the plane normal and the sign of `lambda` are negated, from the
/// normal's `z` component compared with 0: only when it is negative.
pub fn flips_plane(normal_z: Comparison) -> (r: bool)
    ensures
        r == normal_z.lt_spec(),
{
    normal_z.lt()
}

/// Which closed form gives the first guess of `x`.
#[derive(Clone, Copy, Debug, PartialEq, Eq, Structural)]
pub enum GuessRegime {
    /// `t_nd >= t0`: `(t0 / t_nd)^(2/3) - 1`.
    AtLeastT0,
    /// `t_nd < t1`: `2.5 t1 (t1 - t_nd) / t_nd / (1 - lambda^5) + 1`.
    BelowT1,
    /// Otherwise: `(t0 / t_nd)^(log2(t1 / t0)) - 1`.
    Between,
}

pub open spec fn guess_regime_spec(vs_t0: Comparison, vs_t1: Comparison) -> GuessRegime {
    if vs_t0.ge_spec() {
        GuessRegime::AtLeastT0
    } else if vs_t1.lt_spec() {
        GuessRegime::BelowT1
    } else {
        GuessRegime::Between
    }
}

/// Picks the initial-guess formula from `t_nd` compared with `t0` (the time
/// at `x = 0`) and with `t1` (the time at `x = 1`); the first test wins.
pub fn guess_regime(vs_t0: Comparison, vs_t1: Comparison) -> (r: GuessRegime)
    ensures
        r == guess_regime_spec(vs_t0, vs_t1),
{
    if vs_t0.ge() {
        GuessRegime::AtLeastT0
    } else if vs_t1.lt() {
        GuessRegime::BelowT1
    } else {
        GuessRegime::Between
    }
}

/// Which expression gives the auxiliary angle `psi(x)`.
#[derive(Clone, Copy, Debug, PartialEq, Eq, Structural)]
pub enum PsiBranch {
    /// `x < 1`: `acos(x y + lambda (1 - x^2))`.
    Elliptic,
    /// `x > 1`: `acosh(x y - lambda (x^2 - 1))`.
    Hyperbolic,
    /// Neither: `psi` is 0.
    Parabolic,
}

pub open spec fn psi_branch_spec(x_vs_one: Comparison) -> PsiBranch {
    if x_vs_one.lt_spec() {
        PsiBranch::Elliptic
    } else if x_vs_one.gt_spec() {
        PsiBranch::Hyperbolic
    } else {
        PsiBranch::Parabolic
    }
}

/// Picks the branch of `psi` from `x` compared with 1.
pub fn psi_branch(x_vs_one: Comparison) -> (r: PsiBranch)
    ensures
        r == psi_branch_spec(x_vs_one),
{
    if x_vs_one.lt() {
        PsiBranch::Elliptic
    } else if x_vs_one.gt() {
        PsiBranch::Hyperbolic
    } else {
        PsiBranch::Parabolic
    }
}

/// Bookkeeping of the Householder iteration: how many steps may still run,
/// and whether a correction has met the tolerance.
pub struct IterationBudget {
    remaining: u32,
    tolerance_met: bool,
}

impl View for IterationBudget {
    type V = nat;

    /// Steps that may still run.
    closed spec fn view(&self) -> nat {
        self.remaining as nat
    }
}

impl IterationBudget {
    /// Whether the iteration stopped because a correction met the tolerance.
    pub closed spec fn met_tolerance(&self) -> bool {
        self.tolerance_met
    }

    /// A fresh budget of `MAX_ITERATIONS` steps, with no correction yet.
    pub fn start() -> (r: IterationBudget)
        ensures
            r@ == MAX_ITERATIONS as nat,
            !r.met_tolerance(),
    {
        IterationBudget { remaining: MAX_ITERATIONS, tolerance_met: false }
    }

    /// Decides whether one more step runs, from the last correction `|dx|`
    /// compared with the tolerance. The iteration stops once the correction
    /// is `<=` the tolerance; a NaN correction meets nothing and does not stop
    /// it. Otherwise a step runs while budget is left, using one unit of it.
    pub fn proceed(&mut self, delta_vs_tol: Comparison) -> (go: bool)
        ensures
            go == (!delta_vs_tol.le_spec() && old(self)@ > 0),
            final(self)@ == (if go { (old(self)@ - 1) as nat } else { old(self)@ }),
            final(self).met_tolerance() == (old(self).met_tolerance() || delta_vs_tol.le_spec()),
    {
        if delta_vs_tol.le() {
            self.tolerance_met = true;
            false
        } else if self.remaining > 0 {
            self.remaining = self.remaining - 1;
            true
        } else {
            false
        }
    }

    /// Status once the iteration has stopped: `Converged` only when a
    /// correction met the tolerance with budget left, `NotConverged`
    /// otherwise (every step used, or no correction within tolerance).
    pub fn outcome(&self) -> (r: SolverStatus)
        ensures
            r == (if self.met_tolerance() && self@ > 0 {
                SolverStatus::Converged
            } else {
                SolverStatus::NotConverged
            }),
    {
        if self.tolerance_met && self.remaining > 0 {
            SolverStatus::Converged
        } else {
            SolverStatus::NotConverged
        }
    }
}

/// Collinear positions end the solve as `CollinearVectors` whenever `mu` and
/// `t` are valid, and never reach the regime checks: no `InternalError` and no
/// iteration, whatever `lambda` and `t_nd` would have been.
pub proof fn collinear_gate(
    mu: Comparison,
    t: Comparison,
    lambda_abs: Comparison,
    revolutions: Comparison,
)
    ensures
        gate_outcome(mu, t, Comparison::Equal, lambda_abs, revolutions) is Err,
        gate_outcome(mu, t, Comparison::Equal, lambda_abs, revolutions) != Err::<
            (),
            SolverStatus,
        >(SolverStatus::InternalError),
        mu.gt_spec() && t.gt_spec() ==> gate_outcome(
            mu,
            t,
            Comparison::Equal,
            lambda_abs,
            revolutions,
        ) == Err::<(), SolverStatus>(SolverStatus::CollinearVectors),
{
}

/// A dimensionless transfer time exactly at the one-revolution threshold
/// (`t_nd / pi == 1`) is never accepted: it is `MultiRevolution` once the
/// earlier checks pass, and an earlier error otherwise.
pub proof fn revolution_threshold(
    mu: Comparison,
    t: Comparison,
    cross: Comparison,
    lambda_abs: Comparison,
)
    ensures
        gate_outcome(mu, t, cross, lambda_abs, Comparison::Equal) is Err,
        input_outcome(mu, t, cross) is Ok && lambda_abs.lt_spec() ==> gate_outcome(
            mu,
            t,
            cross,
            lambda_abs,
            Comparison::Equal,
        ) == Err::<(), SolverStatus>(SolverStatus::MultiRevolution),
{
}

} // verus!
