//! System-wide laws, stated over the spec-level transitions that every
//! executable operation in `crate::state` is proved to implement.

use vstd::prelude::*;

use crate::GameErrorCode;
use crate::auth::{Pubkey, SessionToken, authorized};
use crate::character::UserCharacter;
use crate::state::{StateView, TokenBalance};

verus! {

/// At most one profile exists per owner: in a well-formed world, two
/// profile records with the same owning key are the same record.
pub proof fn lemma_at_most_one_profile(sv: StateView, i: int, j: int)
    requires
        sv.wf(),
        0 <= i < sv.users.len(),
        0 <= j < sv.users.len(),
        sv.users[i].authority == sv.users[j].authority,
    ensures
        i == j,
{
}

/// Profile creation succeeds exactly once per owner: it succeeds iff no
/// profile exists yet, and after a success any further attempt is
/// rejected with `ProfileAlreadyExists` and changes nothing.
pub proof fn lemma_profile_created_once(sv: StateView, signer: Pubkey, name1: Seq<char>, name2: Seq<char>)
    requires
        sv.wf(),
    ensures
        ({
            let (sv1, r1) = sv.initialize_user_spec(signer, name1);
            &&& (r1 is Ok <==> !sv.has_user(signer))
            &&& (r1 is Ok ==> sv1.has_user(signer) && sv1.initialize_user_spec(signer, name2) == (
                sv1,
                Err::<(), GameErrorCode>(GameErrorCode::ProfileAlreadyExists),
            ))
        }),
{
    if !sv.has_user(signer) {
        let (sv1, r1) = sv.initialize_user_spec(signer, name1);
        assert(sv1.users[sv.users.len() as int].authority == signer);
        assert(sv1.has_user(signer));
    }
}

/// A failed authorization guard rejects the request with `WrongAuthority`
/// and guarantees zero mutation, on every guarded operation.
pub proof fn lemma_guard_rejects_unchanged(
    sv: StateView,
    owner: Pubkey,
    signer: Pubkey,
    session_token: Option<SessionToken>,
    username: Seq<char>,
    character_mint_id: u8,
    amount: u64,
    now: u64,
)
    requires
        !authorized(owner, signer, session_token),
    ensures
        sv.update_username_spec(owner, signer, session_token, username) == (
            sv,
            Err::<(), GameErrorCode>(GameErrorCode::WrongAuthority),
        ),
        sv.assign_spec(owner, signer, session_token, character_mint_id, now) == (
            sv,
            Err::<(), GameErrorCode>(GameErrorCode::WrongAuthority),
        ),
        sv.lock_current_spec(owner, signer, session_token, now) == (
            sv,
            Err::<(), GameErrorCode>(GameErrorCode::WrongAuthority),
        ),
        sv.add_token_spec(owner, signer, session_token, amount) == (
            sv,
            Err::<(), GameErrorCode>(GameErrorCode::WrongAuthority),
        ),
        sv.reduce_token_spec(owner, signer, session_token, amount) == (
            sv,
            Err::<(), GameErrorCode>(GameErrorCode::WrongAuthority),
        ),
{
}

/// Assignment on a fresh (owner, character id) pair always succeeds,
/// leaves the new lock record Unlocked with that id stored, and points
/// the profile's active character at it; custody is untouched.
pub proof fn lemma_assign_fresh_pair(
    sv: StateView,
    owner: Pubkey,
    signer: Pubkey,
    session_token: Option<SessionToken>,
    character_mint_id: u8,
    now: u64,
)
    requires
        sv.wf(),
        authorized(owner, signer, session_token),
        sv.has_user(owner),
        !sv.has_lock(owner, character_mint_id),
    ensures
        ({
            let (sv1, r) = sv.assign_spec(owner, signer, session_token, character_mint_id, now);
            &&& r == Ok::<(), GameErrorCode>(())
            &&& sv1.wf()
            &&& sv1.has_lock(owner, character_mint_id)
            &&& sv1.the_lock(owner, character_mint_id) == (UserCharacter {
                mint_id: character_mint_id,
                locked: false,
                last_locked_time: 0,
            })
            &&& sv1.has_user(owner)
            &&& sv1.the_user(owner).current_character_id == character_mint_id
            &&& sv1.the_user(owner).username == sv.the_user(owner).username
            &&& sv1.balances == sv.balances
            &&& sv1.vault == sv.vault
        }),
{
    let ui = sv.user_index_of(owner);
    let (sv1, r) = sv.assign_spec(owner, signer, session_token, character_mint_id, now);
    assert forall|i: int, j: int| 0 <= i < j < sv1.users.len() implies sv1.users[i].authority
        != sv1.users[j].authority by {
        assert(sv.users[i].authority != sv.users[j].authority);
    }
    assert forall|i: int, j: int| 0 <= i < j < sv1.locks.len() implies !(sv1.locks[i].owner
        == sv1.locks[j].owner && sv1.locks[i].character_id == sv1.locks[j].character_id) by {
        if j == sv1.locks.len() - 1 {
            assert(!(0 <= i < sv.locks.len() && sv.locks[i].owner == owner
                && sv.locks[i].character_id == character_mint_id));
        } else {
            assert(!(sv.locks[i].owner == sv.locks[j].owner && sv.locks[i].character_id
                == sv.locks[j].character_id));
        }
    }
    sv1.lemma_user_index(owner, ui);
    sv1.lemma_lock_index(owner, character_mint_id, sv.locks.len() as int);
}

/// Assignment on an existing Locked record, world-wide: within the
/// cooldown window the whole world is left exactly as it was (the silent
/// no-op), and past it the same call clears only the locked flag and
/// points the profile at the record's *stored* character id — whatever id
/// the caller requested — leaving the lock start, the stored id, and all
/// of custody untouched.
pub proof fn lemma_assign_locked_world(
    sv: StateView,
    owner: Pubkey,
    signer: Pubkey,
    session_token: Option<SessionToken>,
    character_mint_id: u8,
    now: u64,
)
    requires
        sv.wf(),
        authorized(owner, signer, session_token),
        sv.has_user(owner),
        sv.has_lock(owner, character_mint_id),
        sv.the_lock(owner, character_mint_id).locked,
        sv.the_lock(owner, character_mint_id).last_locked_time <= now,
    ensures
        ({
            let t0 = sv.the_lock(owner, character_mint_id).last_locked_time;
            let (sv1, r) = sv.assign_spec(owner, signer, session_token, character_mint_id, now);
            &&& r == Ok::<(), GameErrorCode>(())
            &&& (now - t0 <= crate::LOCKIN_TIME ==> sv1 == sv)
            &&& (now - t0 > crate::LOCKIN_TIME ==> {
                &&& sv1.wf()
                &&& sv1.the_lock(owner, character_mint_id) == (UserCharacter {
                    locked: false,
                    ..sv.the_lock(owner, character_mint_id)
                })
                &&& sv1.the_user(owner).current_character_id == sv.the_lock(
                    owner,
                    character_mint_id,
                ).mint_id
                &&& sv1.the_user(owner).username == sv.the_user(owner).username
                &&& sv1.balances == sv.balances
                &&& sv1.vault == sv.vault
            })
        }),
{
    let ui = sv.user_index_of(owner);
    let li = sv.lock_index_of(owner, character_mint_id);
    let t0 = sv.the_lock(owner, character_mint_id).last_locked_time;
    let (sv1, r) = sv.assign_spec(owner, signer, session_token, character_mint_id, now);
    if now - t0 <= crate::LOCKIN_TIME {
        assert(sv1.users =~= sv.users);
        assert(sv1.locks =~= sv.locks);
        assert(sv1 =~= sv);
    } else {
        sv.lemma_wf_same_keys(sv1);
        sv1.lemma_user_index(owner, ui);
        sv1.lemma_lock_index(owner, character_mint_id, li);
    }
}

/// Locking the current character and then asking to assign it again:
/// within the cooldown window the assignment changes nothing; once more
/// than the window has passed, the same call unlocks the record and
/// re-activates its stored character id.
pub proof fn lemma_lock_then_assign_world(
    sv: StateView,
    owner: Pubkey,
    signer: Pubkey,
    session_token: Option<SessionToken>,
    t0: u64,
    now: u64,
)
    requires
        sv.wf(),
        authorized(owner, signer, session_token),
        sv.has_user(owner),
        sv.has_lock(owner, sv.the_user(owner).current_character_id),
        t0 <= now,
    ensures
        ({
            let character_id = sv.the_user(owner).current_character_id;
            let (sv1, r1) = sv.lock_current_spec(owner, signer, session_token, t0);
            let (sv2, r2) = sv1.assign_spec(owner, signer, session_token, character_id, now);
            &&& r1 == Ok::<(), GameErrorCode>(())
            &&& r2 == Ok::<(), GameErrorCode>(())
            &&& (now - t0 <= crate::LOCKIN_TIME ==> sv2 == sv1)
            &&& (now - t0 > crate::LOCKIN_TIME ==> !sv2.the_lock(owner, character_id).locked
                && sv2.the_user(owner).current_character_id == sv.the_lock(
                owner,
                character_id,
            ).mint_id)
        }),
{
    let character_id = sv.the_user(owner).current_character_id;
    let ui = sv.user_index_of(owner);
    let li = sv.lock_index_of(owner, character_id);
    let (sv1, r1) = sv.lock_current_spec(owner, signer, session_token, t0);
    sv.lemma_wf_same_keys(sv1);
    sv1.lemma_user_index(owner, ui);
    sv1.lemma_lock_index(owner, character_id, li);
    lemma_assign_locked_world(sv1, owner, signer, session_token, character_id, now);
}

/// Custody moves are exact and guarded: a deposit decreases the owner's
/// balance and increases the vault's by exactly `amount`, a withdrawal
/// does the exact inverse, and neither succeeds for a caller without a
/// valid owner-or-delegated-session credential.
pub proof fn lemma_custody_exact(
    sv: StateView,
    owner: Pubkey,
    signer: Pubkey,
    session_token: Option<SessionToken>,
    amount: u64,
)
    requires
        sv.wf(),
    ensures
        ({
            let (sv1, r1) = sv.reduce_token_spec(owner, signer, session_token, amount);
            let (sv2, r2) = sv.add_token_spec(owner, signer, session_token, amount);
            &&& (!authorized(owner, signer, session_token) ==> r1 == Err::<(), GameErrorCode>(
                GameErrorCode::WrongAuthority,
            ) && sv1 == sv && r2 == Err::<(), GameErrorCode>(GameErrorCode::WrongAuthority) && sv2
                == sv)
            &&& (r1 is Ok ==> {
                &&& authorized(owner, signer, session_token)
                &&& sv1.the_balance(owner) == sv.the_balance(owner) - amount
                &&& sv1.vault == sv.vault + amount
                &&& sv1.users == sv.users
                &&& sv1.locks == sv.locks
            })
            &&& (r2 is Ok ==> {
                &&& authorized(owner, signer, session_token)
                &&& sv2.the_balance(owner) == sv.the_balance(owner) + amount
                &&& sv2.vault == sv.vault - amount
                &&& sv2.users == sv.users
                &&& sv2.locks == sv.locks
            })
        }),
{
    if authorized(owner, signer, session_token) && sv.has_user(owner) && sv.has_balance(owner) {
        let bi = sv.balance_index_of(owner);
        let (sv1, r1) = sv.reduce_token_spec(owner, signer, session_token, amount);
        if r1 is Ok {
            sv.lemma_wf_same_keys(sv1);
            sv1.lemma_balance_index(owner, bi);
        }
        let (sv2, r2) = sv.add_token_spec(owner, signer, session_token, amount);
        if r2 is Ok {
            sv.lemma_wf_same_keys(sv2);
            sv2.lemma_balance_index(owner, bi);
        }
    }
}

/// A deposit followed by a withdrawal of the same amount restores the
/// world exactly — the two custody paths are inverses.
pub proof fn lemma_deposit_withdraw_roundtrip(
    sv: StateView,
    owner: Pubkey,
    signer: Pubkey,
    session_token: Option<SessionToken>,
    amount: u64,
)
    requires
        sv.wf(),
        authorized(owner, signer, session_token),
        sv.has_user(owner),
        sv.has_balance(owner),
        amount <= sv.the_balance(owner),
        sv.vault + amount <= u64::MAX,
    ensures
        ({
            let (sv1, r1) = sv.reduce_token_spec(owner, signer, session_token, amount);
            let (sv2, r2) = sv1.add_token_spec(owner, signer, session_token, amount);
            &&& r1 == Ok::<(), GameErrorCode>(())
            &&& r2 == Ok::<(), GameErrorCode>(())
            &&& sv2 == sv
        }),
{
    let bi = sv.balance_index_of(owner);
    let bal = sv.balances[bi].amount;
    let (sv1, r1) = sv.reduce_token_spec(owner, signer, session_token, amount);
    sv.lemma_wf_same_keys(sv1);
    sv1.lemma_balance_index(owner, bi);
    let (sv2, r2) = sv1.add_token_spec(owner, signer, session_token, amount);
    assert(sv.balances[bi] == (TokenBalance { owner, amount: bal }));
    assert(sv2.balances =~= sv.balances);
    assert(sv2 =~= sv);
}

} // verus!
