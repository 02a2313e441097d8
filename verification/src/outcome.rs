use vstd::prelude::*;

verus! {

/// How an instruction that rewrites one account ended, against the
/// transition that specifies it: when the transition fails the account is
/// unchanged and the instruction returns the same error; when it succeeds the
/// account holds the transition's new value and the instruction returns the
/// event the transition names.
pub open spec fn applied<A, E, X>(before: A, after: A, res: Result<E, X>, transition: Result<(A, E), X>) -> bool {
    match transition {
        Ok((next, event)) => after == next && res == Ok::<E, X>(event),
        Err(e) => after == before && res == Err::<E, X>(e),
    }
}

} // verus!
