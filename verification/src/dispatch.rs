//! The caller of a request, and the rule that only the root may make some.

use vstd::prelude::*;

verus! {

/// Who asks.
#[derive(Clone, Copy, Debug, PartialEq, Eq, Structural)]
pub enum RawOrigin {
    /// The root of the system.
    Root,
    /// A signed account.
    Signed(u64),
    /// Nobody: an unsigned request.
    Unsigned,
}

/// Why a request was refused.
#[derive(Clone, Copy, Debug, PartialEq, Eq, Structural)]
pub enum DispatchError {
    /// The origin may not make the request.
    BadOrigin,
}

/// Outcome of a request.
pub type DispatchResult = Result<(), DispatchError>;

/// Lets the root origin pass and refuses every other.
pub fn ensure_root(origin: RawOrigin) -> (result: DispatchResult)
    ensures
        result == (if origin == RawOrigin::Root {
            Ok::<(), DispatchError>(())
        } else {
            Err::<(), DispatchError>(DispatchError::BadOrigin)
        }),
{
    match origin {
        RawOrigin::Root => Ok(()),
        _ => Err(DispatchError::BadOrigin),
    }
}

/// What [`ensure_root`] answers.
pub open spec fn ensure_root_spec(origin: RawOrigin) -> DispatchResult {
    if origin == RawOrigin::Root {
        Ok(())
    } else {
        Err(DispatchError::BadOrigin)
    }
}

} // verus!
