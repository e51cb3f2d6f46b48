//! Who is calling: the origin of a call and how it resolves to an account.
use vstd::prelude::*;

verus! {

/// Identifier of a ledger participant, supplied by the host.
pub type AccountId = u64;

/// An amount in the ledger's native unit.
pub type Balance = u128;

/// Where a call comes from, as the host hands it to the module.
#[derive(Clone, Copy, Debug, PartialEq, Eq, Structural)]
pub enum RawOrigin {
    /// The host itself; holds no account.
    Root,
    /// A call signed by the holder of the given account.
    Signed(AccountId),
    /// A call that carries no signature at all.
    Unsigned,
}

/// Why a transition was turned down.
#[derive(Clone, Copy, Debug, PartialEq, Eq, Structural)]
pub enum TransitionError {
    /// The origin does not resolve to an account-holding identity.
    Unauthenticated,
}

/// The account that signed `origin`, if any did.
pub open spec fn signer(origin: RawOrigin) -> Option<AccountId> {
    match origin {
        RawOrigin::Signed(who) => Some(who),
        _ => None,
    }
}

/// Resolves an origin to the account that signed it.
///
/// Succeeds exactly on `Signed` origins and hands back the account they
/// carry; every other origin is `Unauthenticated`.
pub fn ensure_signed(origin: RawOrigin) -> (r: Result<AccountId, TransitionError>)
    ensures
        r == match signer(origin) {
            Some(who) => Ok::<AccountId, TransitionError>(who),
            None => Err::<AccountId, TransitionError>(TransitionError::Unauthenticated),
        },
{
    match origin {
        RawOrigin::Signed(who) => Ok(who),
        _ => Err(TransitionError::Unauthenticated),
    }
}

} // verus!
