//! The two error kinds that the bridge core surfaces.

use vstd::prelude::*;

verus! {

/// Either the caller fails the role check required for the attempted
/// action, or the persistent store failed to write. On either, the call is
/// rejected in full and no partial mutation is observable.
#[derive(Clone, Copy, Debug, PartialEq, Eq, Structural)]
pub enum ContractError {
    /// The caller does not hold the role that the action requires.
    Unauthorized,
    /// The persistent store failed to write.
    Internal,
}

} // verus!
