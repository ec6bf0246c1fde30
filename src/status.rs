use vstd::prelude::*;

verus! {

/// Where a Lambert solve stands.
#[derive(Clone, Copy, Debug, PartialEq, Eq, Structural)]
pub enum SolverStatus {
    /// Nothing solved yet; the only status that is not terminal.
    Initialized,
    /// The iteration met its tolerance with budget left.
    Converged,
    /// The iteration budget ran out; the last iterate is still reported.
    NotConverged,
    /// The transfer time asks for one revolution or more.
    MultiRevolution,
    /// The two positions are collinear, so no transfer plane exists.
    CollinearVectors,
    /// The gravitational parameter or the transfer time is not positive.
    InvalidInput,
    /// The shape parameter left (-1, 1): a broken invariant of the solver.
    InternalError,
}

impl SolverStatus {
    pub open spec fn is_terminal_spec(self) -> bool {
        self != SolverStatus::Initialized
    }

    pub open spec fn is_solved_spec(self) -> bool {
        self == SolverStatus::Converged
    }

    /// Every status but `Initialized` ends a solve.
    pub fn is_terminal(&self) -> (r: bool)
        ensures
            r == self.is_terminal_spec(),
    {
        !matches!(self, SolverStatus::Initialized)
    }

    /// Whether the velocities come from an iteration that met its tolerance.
    pub fn is_solved(&self) -> (r: bool)
        ensures
            r == self.is_solved_spec(),
    {
        matches!(self, SolverStatus::Converged)
    }
}

} // verus!
