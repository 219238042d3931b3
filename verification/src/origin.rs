//! The classes of callers, and the tests that admit one class each.

use vstd::prelude::*;

use crate::types::AccountId;
use crate::types::Error;

verus! {

/// How the host classified the caller of an operation.
#[derive(Clone, Copy, Debug, PartialEq, Eq, Structural)]
pub enum Origin {
    /// The call carries the ledger's highest privilege.
    Root,
    /// The call was signed by the given account.
    Signed(AccountId),
    /// The call is neither privileged nor signed.
    Unsigned,
}

/// Accepts the origin of a privileged call and refuses every other.
pub fn ensure_root(origin: Origin) -> (res: Result<(), Error>)
    ensures
        res == (if origin == Origin::Root {
            Ok::<(), Error>(())
        } else {
            Err::<(), Error>(Error::BadOrigin)
        }),
{
    match origin {
        Origin::Root => Ok(()),
        _ => Err(Error::BadOrigin),
    }
}

/// Accepts the origin of a signed call, answering the account that signed
/// it, and refuses every other.
pub fn ensure_signed(origin: Origin) -> (res: Result<AccountId, Error>)
    ensures
        res == (match origin {
            Origin::Signed(who) => Ok::<AccountId, Error>(who),
            _ => Err::<AccountId, Error>(Error::BadOrigin),
        }),
{
    match origin {
        Origin::Signed(who) => Ok(who),
        _ => Err(Error::BadOrigin),
    }
}

} // verus!
