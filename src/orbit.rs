use vstd::prelude::*;

use crate::compare::Comparison;

verus! {

/// Which formula gives the true anomaly, chosen by how degenerate the orbit is.
#[derive(Clone, Copy, Debug, PartialEq, Eq, Structural)]
pub enum AnomalyBranch {
    /// `e != 0`: angle between the eccentricity vector and `r`.
    Eccentric,
    /// `e == 0`, `inc != 0`: angle between the node vector and `r`.
    CircularInclined,
    /// `e == 0`, `inc == 0`: angle between the x axis and `r`.
    CircularEquatorial,
}

pub open spec fn anomaly_branch_spec(ecc_vs_zero: Comparison, inc_vs_zero: Comparison) -> AnomalyBranch {
    if ecc_vs_zero.ne_spec() {
        AnomalyBranch::Eccentric
    } else if inc_vs_zero.ne_spec() {
        AnomalyBranch::CircularInclined
    } else {
        AnomalyBranch::CircularEquatorial
    }
}

/// Picks the true-anomaly formula from `e` compared with 0 and `inc` compared
/// with 0. A NaN compares unequal, so it selects the earlier branch.
pub fn select_anomaly_branch(ecc_vs_zero: Comparison, inc_vs_zero: Comparison) -> (r:
    AnomalyBranch)
    ensures
        r == anomaly_branch_spec(ecc_vs_zero, inc_vs_zero),
{
    if !ecc_vs_zero.is_eq() {
        AnomalyBranch::Eccentric
    } else if !inc_vs_zero.is_eq() {
        AnomalyBranch::CircularInclined
    } else {
        AnomalyBranch::CircularEquatorial
    }
}

/// Quadrant correction of the true anomaly, from the branch's selector
/// (`r . v`, `r.z` and `v.x` on the three branches) compared with 0.
pub open spec fn anomaly_reflected_spec(branch: AnomalyBranch, selector_vs_zero: Comparison) -> bool {
    match branch {
        AnomalyBranch::Eccentric => !selector_vs_zero.ge_spec(),
        AnomalyBranch::CircularInclined => !selector_vs_zero.ge_spec(),
        AnomalyBranch::CircularEquatorial => !selector_vs_zero.le_spec(),
    }
}

/// Whether the true anomaly is `2 pi - angle` rather than `angle`, from the
/// branch's selector compared with 0: on the eccentric branch unless
/// `r . v >= 0`, on the circular inclined one unless `r.z >= 0`, on the
/// circular equatorial one unless `v.x <= 0`.
pub fn anomaly_reflected(branch: AnomalyBranch, selector_vs_zero: Comparison) -> (r: bool)
    ensures
        r == anomaly_reflected_spec(branch, selector_vs_zero),
{
    match branch {
        AnomalyBranch::Eccentric => !selector_vs_zero.ge(),
        AnomalyBranch::CircularInclined => !selector_vs_zero.ge(),
        AnomalyBranch::CircularEquatorial => !selector_vs_zero.le(),
    }
}

/// Whether the right ascension of the ascending node is `2 pi - angle`, from
/// the node vector's `y` compared with 0: unless it is `>= 0`.
pub fn node_reflected(node_y_vs_zero: Comparison) -> (r: bool)
    ensures
        r == !node_y_vs_zero.ge_spec(),
{
    !node_y_vs_zero.ge()
}

} // verus!
