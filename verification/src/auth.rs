//! Identities and the authorization guard.
//!
//! A request names a claimed owner and is signed by some key; it may also
//! present a session delegation.  The guard is a pure predicate: it passes
//! iff the signer is the owner, or the delegation binds the signer to the
//! owner.  Delegation lifecycle (issuance, expiry) is an external
//! collaborator's concern: a presented token has already been validated.

use vstd::prelude::*;

use crate::GameErrorCode;

verus! {

/// A ledger account address.  The logic only ever compares addresses for
/// equality, so a single integer id stands for one address.
#[derive(Clone, Copy, Debug, PartialEq, Eq, Hash, Structural)]
pub struct Pubkey {
    pub id: u64,
}

/// A session delegation: a capability binding a delegate signing key to an
/// owner, valid until a deadline.  The deadline is checked by the issuing
/// subsystem before a token reaches this library; the guard itself reads
/// only the two key fields.
#[derive(Clone, Copy, Debug, PartialEq, Eq, Structural)]
pub struct SessionToken {
    /// The delegate key allowed to sign on the owner's behalf.
    pub session_signer: Pubkey,
    /// The owner on whose behalf the delegate may act.
    pub authority: Pubkey,
    /// Expiry deadline, seconds since epoch (validated externally).
    pub valid_until: u64,
}

/// The guard's decision: the signer is the owner, or a presented session
/// token binds this signer to this owner.
pub open spec fn authorized(owner: Pubkey, signer: Pubkey, session_token: Option<SessionToken>) -> bool {
    ||| signer == owner
    ||| match session_token {
        Some(token) => token.session_signer == signer && token.authority == owner,
        None => false,
    }
}

/// The authorization guard.  Evaluated once per request, before any state
/// is touched; fails with `WrongAuthority` and nothing else.
pub fn check_authority(owner: Pubkey, signer: Pubkey, session_token: Option<SessionToken>) -> (r: Result<
    (),
    GameErrorCode,
>)
    ensures
        r is Ok <==> authorized(owner, signer, session_token),
        r is Err ==> r == Err::<(), GameErrorCode>(GameErrorCode::WrongAuthority),
{
    if signer == owner {
        return Ok(());
    }
    match session_token {
        Some(token) => {
            if token.session_signer == signer && token.authority == owner {
                Ok(())
            } else {
                Err(GameErrorCode::WrongAuthority)
            }
        },
        None => Err(GameErrorCode::WrongAuthority),
    }
}

} // verus!
