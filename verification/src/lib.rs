//! A verified model of a small on-chain dungeon game: per-player profile
//! records, a cooldown-gated character-assignment lock, delegated session
//! authorization, and a custodial token vault.
//!
//! The host ledger's concerns (account allocation, signature verification,
//! the token program's bookkeeping, the clock) are external collaborators:
//! callers hand this library plain values (keys, timestamps, amounts) and
//! the library performs and proves every state transition.

use vstd::prelude::*;

pub mod auth;
pub mod character;
pub mod laws;
pub mod profile;
pub mod state;
pub mod vault;

verus! {

/// Seconds a locked character assignment stays locked before the lock is
/// treated as expired by the next `assign_player_character` call.
pub const LOCKIN_TIME: u64 = 1800;

/// Every way a request can be rejected.  `WrongAuthority` is raised by the
/// authorization guard; the others model the external collaborators'
/// rejections (storage collision, missing account, token arithmetic),
/// passed through unmodified.
#[derive(Clone, Copy, Debug, PartialEq, Eq, Structural)]
pub enum GameErrorCode {
    /// The caller is neither the owner nor a validly delegated session.
    WrongAuthority,
    /// A profile already exists for this owner (storage collision).
    ProfileAlreadyExists,
    /// No profile record exists for the claimed owner.
    MissingProfile,
    /// No character lock record exists at the addressed key.
    MissingCharacterLock,
    /// The owner has no token balance account.
    MissingTokenAccount,
    /// A token account already exists for this owner.
    TokenAccountAlreadyExists,
    /// The paying balance does not cover the requested amount.
    InsufficientBalance,
    /// The receiving balance cannot hold the requested amount.
    BalanceOverflow,
}

} // verus!
