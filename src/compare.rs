use vstd::prelude::*;

verus! {

/// Outcome of comparing two IEEE floats `a` and `b`; `Unordered` when either
/// is NaN.
#[derive(Clone, Copy, Debug, PartialEq, Eq, Structural)]
pub enum Comparison {
    Less,
    Equal,
    Greater,
    Unordered,
}

impl Comparison {
    /// `a < b`
    pub open spec fn lt_spec(self) -> bool {
        self == Comparison::Less
    }

    /// `a <= b`
    pub open spec fn le_spec(self) -> bool {
        self == Comparison::Less || self == Comparison::Equal
    }

    /// `a > b`
    pub open spec fn gt_spec(self) -> bool {
        self == Comparison::Greater
    }

    /// `a >= b`
    pub open spec fn ge_spec(self) -> bool {
        self == Comparison::Greater || self == Comparison::Equal
    }

    /// `a == b`
    pub open spec fn eq_spec(self) -> bool {
        self == Comparison::Equal
    }

    /// `a != b`; true when the operands are unordered.
    pub open spec fn ne_spec(self) -> bool {
        !self.eq_spec()
    }

    /// `a < b`
    pub fn lt(self) -> (r: bool)
        ensures
            r == self.lt_spec(),
    {
        matches!(self, Comparison::Less)
    }

    /// `a >= b`
    pub fn ge(self) -> (r: bool)
        ensures
            r == self.ge_spec(),
    {
        matches!(self, Comparison::Greater | Comparison::Equal)
    }

    /// `a <= b`
    pub fn le(self) -> (r: bool)
        ensures
            r == self.le_spec(),
    {
        matches!(self, Comparison::Less | Comparison::Equal)
    }

    /// `a > b`
    pub fn gt(self) -> (r: bool)
        ensures
            r == self.gt_spec(),
    {
        matches!(self, Comparison::Greater)
    }

    /// `a == b`
    pub fn is_eq(self) -> (r: bool)
        ensures
            r == self.eq_spec(),
    {
        matches!(self, Comparison::Equal)
    }
}

} // verus!
