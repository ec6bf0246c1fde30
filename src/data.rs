use vstd::prelude::*;

verus! {

/// Marker for the text formatter of the interface's float input fields.
/// It holds no state and no logic: showing and reading floats belongs to
/// the interface.
#[derive(Clone, Copy, Debug, PartialEq, Eq, Structural)]
pub struct FloatFormatter;

} // verus!
