//! The character-lock state machine.
//!
//! One `UserCharacter` record exists per (owner, character id) pair.  It is
//! either Unlocked (`locked == false`) or Locked (`locked == true` since
//! `last_locked_time`).  Assignment on an Unlocked record always succeeds
//! and activates the requested character; on a Locked record it is a silent
//! no-op until the cooldown window has elapsed, after which the same call
//! clears the lock and re-activates the record's stored character id —
//! deliberately ignoring the id the caller asked for.  Expiry is lazy:
//! it is only observed at the next call that touches the record.

use vstd::prelude::*;

use crate::LOCKIN_TIME;
use crate::profile::{User, UserView};

verus! {

/// A character lock record for one (owner, character id) pair.
#[derive(Clone, Copy, Debug, PartialEq, Eq, Structural)]
pub struct UserCharacter {
    /// The character id stored in the record.
    pub mint_id: u8,
    /// Whether the character is currently locked to its owner.
    pub locked: bool,
    /// When the current lock started, seconds since epoch; 0 if never locked.
    pub last_locked_time: u64,
}

/// The zeroed record the storage collaborator hands out on first touch of
/// a (owner, character id) key: unlocked, nothing assigned yet.
pub open spec fn spec_fresh_character() -> UserCharacter {
    UserCharacter { mint_id: 0, locked: false, last_locked_time: 0 }
}

/// Whether a lock taken at `last_locked_time` has expired by `now`.
pub open spec fn lock_expired(record: UserCharacter, now: u64) -> bool {
    now - record.last_locked_time > LOCKIN_TIME
}

/// The assignment transition, as one mathematical function of the profile,
/// the lock record, the requested character id and the clock:
/// - Unlocked: store and activate the requested id, clear the lock state.
/// - Locked, cooldown still running: no change at all.
/// - Locked, cooldown elapsed: clear the locked flag and activate the
///   *stored* id, ignoring the requested one; the lock-start timestamp is
///   left as it was.
pub open spec fn spec_assign_character(
    user: UserView,
    record: UserCharacter,
    character_mint_id: u8,
    now: u64,
) -> (UserView, UserCharacter) {
    if record.locked {
        if lock_expired(record, now) {
            (
                UserView { current_character_id: record.mint_id, ..user },
                UserCharacter { locked: false, ..record },
            )
        } else {
            (user, record)
        }
    } else {
        (
            UserView { current_character_id: character_mint_id, ..user },
            UserCharacter { mint_id: character_mint_id, locked: false, last_locked_time: 0 },
        )
    }
}

/// The locking transition: lock the record now, refreshing the timestamp
/// even if it was already locked.
pub open spec fn spec_lock_character(record: UserCharacter, now: u64) -> UserCharacter {
    UserCharacter { locked: true, last_locked_time: now, ..record }
}

/// Runs the assignment transition on a profile and its lock record.
///
/// The clock must not stand before an active lock's start (the host clock
/// is monotonic), so the elapsed time is a well-defined difference.
pub fn assign_character(user: &mut User, record: &mut UserCharacter, character_mint_id: u8, now: u64)
    requires
        old(record).locked ==> old(record).last_locked_time <= now,
    ensures
        (final(user)@, *final(record)) == spec_assign_character(
            old(user)@,
            *old(record),
            character_mint_id,
            now,
        ),
{
    if record.locked {
        let time_passed = now - record.last_locked_time;
        if time_passed > LOCKIN_TIME {
            user.current_character_id = record.mint_id;
            record.locked = false;
        }
    } else {
        record.mint_id = character_mint_id;
        record.last_locked_time = 0;
        record.locked = false;
        user.current_character_id = character_mint_id;
    }
}

/// Runs the locking transition on a lock record.
pub fn lock_character(record: &mut UserCharacter, now: u64)
    ensures
        *final(record) == spec_lock_character(*old(record), now),
{
    record.last_locked_time = now;
    record.locked = true;
}

/// Assigning on a record that is not locked — a fresh pair or one whose
/// lock was already cleared — always activates the requested character and
/// leaves the record Unlocked with a zeroed lock start.
pub proof fn lemma_assign_unlocked(user: UserView, record: UserCharacter, character_mint_id: u8, now: u64)
    requires
        !record.locked,
    ensures
        ({
            let (user2, record2) = spec_assign_character(user, record, character_mint_id, now);
            &&& user2.current_character_id == character_mint_id
            &&& user2.authority == user.authority
            &&& user2.username == user.username
            &&& record2 == (UserCharacter {
                mint_id: character_mint_id,
                locked: false,
                last_locked_time: 0,
            })
        }),
{
}

/// Assigning while Locked within the cooldown window changes nothing:
/// not the profile, not the lock record.
pub proof fn lemma_assign_cooldown_noop(user: UserView, record: UserCharacter, character_mint_id: u8, now: u64)
    requires
        record.locked,
        now - record.last_locked_time <= LOCKIN_TIME,
    ensures
        spec_assign_character(user, record, character_mint_id, now) == (user, record),
{
}

/// Assigning while Locked after the cooldown has elapsed clears the locked
/// flag and activates the record's stored character id — whatever id the
/// caller passed — leaving the stored id and the lock start untouched.
pub proof fn lemma_assign_expired(user: UserView, record: UserCharacter, character_mint_id: u8, now: u64)
    requires
        record.locked,
        now - record.last_locked_time > LOCKIN_TIME,
    ensures
        ({
            let (user2, record2) = spec_assign_character(user, record, character_mint_id, now);
            &&& user2.current_character_id == record.mint_id
            &&& user2.username == user.username
            &&& user2.authority == user.authority
            &&& record2 == (UserCharacter { locked: false, ..record })
        }),
{
}

/// Locking and then assigning on the same record: within the cooldown
/// window the assignment is a no-op; once more than `LOCKIN_TIME` seconds
/// have passed it unlocks the record and re-activates its stored id.
pub proof fn lemma_lock_then_assign(
    user: UserView,
    record: UserCharacter,
    lock_time: u64,
    character_mint_id: u8,
    now: u64,
)
    requires
        lock_time <= now,
    ensures
        ({
            let locked_record = spec_lock_character(record, lock_time);
            let (user2, record2) = spec_assign_character(user, locked_record, character_mint_id, now);
            &&& now - lock_time <= LOCKIN_TIME ==> (user2, record2) == (user, locked_record)
            &&& now - lock_time > LOCKIN_TIME ==> {
                &&& !record2.locked
                &&& record2.mint_id == record.mint_id
                &&& user2.current_character_id == record.mint_id
            }
        }),
{
}

} // verus!
