use vstd::prelude::*;

verus! {

/// Why an instruction's accounts were refused before the instruction ran.
#[derive(Clone, Copy, Debug, PartialEq, Eq, Structural)]
pub enum ConstraintError {
    /// An account does not hold the key that the instruction names for it
    /// (such as the program state's authority).
    HasOne,
    /// A relation between the accounts does not hold.
    Raw,
}

} // verus!
