//! The world state: every record the system owns, addressed by key.
//!
//! The host ledger addresses each record by a deterministic derivation
//! from its key fields; this module reproduces that as keyed sequences
//! with a uniqueness invariant — one profile per owner, one lock record
//! per (owner, character id), one token balance per owner — and exposes
//! the six operations the system serves.  Every operation first passes
//! the authorization guard, then touches its records, atomically: a
//! rejected request changes nothing.

use vstd::prelude::*;

use crate::GameErrorCode;
use crate::auth::{Pubkey, SessionToken, authorized, check_authority};
use crate::character::{
    UserCharacter, assign_character, lock_character, spec_assign_character, spec_fresh_character,
    spec_lock_character,
};
use crate::profile::{User, UserView, new_user, rename_user, spec_new_user};

verus! {

/// A character lock record together with the key it is addressed by.
#[derive(Clone, Copy, Debug, PartialEq, Eq, Structural)]
pub struct LockEntry {
    /// The owning key the record is addressed by.
    pub owner: Pubkey,
    /// The character id the record is addressed by.
    pub character_id: u8,
    /// The record itself.
    pub record: UserCharacter,
}

/// One owner's balance in the external token ledger's books.
#[derive(Clone, Copy, Debug, PartialEq, Eq, Structural)]
pub struct TokenBalance {
    /// The owner of the balance account.
    pub owner: Pubkey,
    /// The amount held.
    pub amount: u64,
}

/// The mathematical value of the world state.
#[verifier::ext_equal]
pub struct StateView {
    pub users: Seq<UserView>,
    pub locks: Seq<LockEntry>,
    pub balances: Seq<TokenBalance>,
    pub vault: u64,
}

/// The world state: every profile, lock record and token balance, plus
/// the vault's own balance.
pub struct GameState {
    pub users: Vec<User>,
    pub locks: Vec<LockEntry>,
    pub balances: Vec<TokenBalance>,
    pub vault: u64,
}

impl View for GameState {
    type V = StateView;

    open spec fn view(&self) -> StateView {
        StateView {
            users: self.users@.map_values(|u: User| u@),
            locks: self.locks@,
            balances: self.balances@,
            vault: self.vault,
        }
    }
}

impl StateView {
    /// The world before anything was created.
    pub open spec fn initial() -> StateView {
        StateView { users: Seq::empty(), locks: Seq::empty(), balances: Seq::empty(), vault: 0 }
    }

    /// At most one profile per owning key.
    pub open spec fn users_distinct(self) -> bool {
        forall|i: int, j: int|
            0 <= i < j < self.users.len() ==> self.users[i].authority != self.users[j].authority
    }

    /// At most one lock record per (owner, character id) key.
    pub open spec fn locks_distinct(self) -> bool {
        forall|i: int, j: int|
            0 <= i < j < self.locks.len() ==> !(self.locks[i].owner == self.locks[j].owner
                && self.locks[i].character_id == self.locks[j].character_id)
    }

    /// Every lock record stores the character id it is addressed by.
    pub open spec fn locks_well_keyed(self) -> bool {
        forall|i: int|
            0 <= i < self.locks.len() ==> self.locks[i].record.mint_id == self.locks[i].character_id
    }

    /// At most one token balance per owner.
    pub open spec fn balances_distinct(self) -> bool {
        forall|i: int, j: int|
            0 <= i < j < self.balances.len() ==> self.balances[i].owner != self.balances[j].owner
    }

    /// Well-formedness: the deterministic addressing gives each key at
    /// most one record, and lock records agree with their key.
    pub open spec fn wf(self) -> bool {
        &&& self.users_distinct()
        &&& self.locks_distinct()
        &&& self.locks_well_keyed()
        &&& self.balances_distinct()
    }

    /// Whether a profile exists for `owner`.
    pub open spec fn has_user(self, owner: Pubkey) -> bool {
        exists|i: int| 0 <= i < self.users.len() && self.users[i].authority == owner
    }

    /// The index of `owner`'s profile (meaningful only when it exists).
    pub open spec fn user_index_of(self, owner: Pubkey) -> int {
        choose|i: int| 0 <= i < self.users.len() && self.users[i].authority == owner
    }

    /// `owner`'s profile (meaningful only when it exists).
    pub open spec fn the_user(self, owner: Pubkey) -> UserView {
        self.users[self.user_index_of(owner)]
    }

    /// Whether a lock record exists at key (`owner`, `character_id`).
    pub open spec fn has_lock(self, owner: Pubkey, character_id: u8) -> bool {
        exists|i: int|
            0 <= i < self.locks.len() && self.locks[i].owner == owner && self.locks[i].character_id
                == character_id
    }

    /// The index of the lock record at that key.
    pub open spec fn lock_index_of(self, owner: Pubkey, character_id: u8) -> int {
        choose|i: int|
            0 <= i < self.locks.len() && self.locks[i].owner == owner && self.locks[i].character_id
                == character_id
    }

    /// The lock record at key (`owner`, `character_id`).
    pub open spec fn the_lock(self, owner: Pubkey, character_id: u8) -> UserCharacter {
        self.locks[self.lock_index_of(owner, character_id)].record
    }

    /// Whether a token balance exists for `owner`.
    pub open spec fn has_balance(self, owner: Pubkey) -> bool {
        exists|i: int| 0 <= i < self.balances.len() && self.balances[i].owner == owner
    }

    /// The index of `owner`'s token balance.
    pub open spec fn balance_index_of(self, owner: Pubkey) -> int {
        choose|i: int| 0 <= i < self.balances.len() && self.balances[i].owner == owner
    }

    /// `owner`'s token balance (meaningful only when it exists).
    pub open spec fn the_balance(self, owner: Pubkey) -> u64 {
        self.balances[self.balance_index_of(owner)].amount
    }

    /// In a well-formed state a witness index for an owner's profile is
    /// the index the addressing resolves to.
    pub proof fn lemma_user_index(self, owner: Pubkey, i: int)
        requires
            self.users_distinct(),
            0 <= i < self.users.len(),
            self.users[i].authority == owner,
        ensures
            self.has_user(owner),
            self.user_index_of(owner) == i,
    {
        assert(self.has_user(owner));
        let j = self.user_index_of(owner);
        if i < j {
            assert(self.users[i].authority != self.users[j].authority);
        } else if j < i {
            assert(self.users[j].authority != self.users[i].authority);
        }
    }

    /// The same, for a lock record's composite key.
    pub proof fn lemma_lock_index(self, owner: Pubkey, character_id: u8, i: int)
        requires
            self.locks_distinct(),
            0 <= i < self.locks.len(),
            self.locks[i].owner == owner,
            self.locks[i].character_id == character_id,
        ensures
            self.has_lock(owner, character_id),
            self.lock_index_of(owner, character_id) == i,
    {
        assert(self.has_lock(owner, character_id));
        let j = self.lock_index_of(owner, character_id);
        if i < j {
            assert(!(self.locks[i].owner == self.locks[j].owner && self.locks[i].character_id
                == self.locks[j].character_id));
        } else if j < i {
            assert(!(self.locks[j].owner == self.locks[i].owner && self.locks[j].character_id
                == self.locks[i].character_id));
        }
    }

    /// The same, for an owner's token balance.
    pub proof fn lemma_balance_index(self, owner: Pubkey, i: int)
        requires
            self.balances_distinct(),
            0 <= i < self.balances.len(),
            self.balances[i].owner == owner,
        ensures
            self.has_balance(owner),
            self.balance_index_of(owner) == i,
    {
        assert(self.has_balance(owner));
        let j = self.balance_index_of(owner);
        if i < j {
            assert(self.balances[i].owner != self.balances[j].owner);
        } else if j < i {
            assert(self.balances[j].owner != self.balances[i].owner);
        }
    }
}

impl StateView {
    /// Profile creation: rejected by the storage collaborator when a
    /// record already exists at `signer`'s derived address; otherwise a
    /// fresh profile with no active character appears.  The creator signs
    /// for itself, so no guard is consulted.
    pub open spec fn initialize_user_spec(self, signer: Pubkey, username: Seq<char>) -> (
        StateView,
        Result<(), GameErrorCode>,
    ) {
        if self.has_user(signer) {
            (self, Err(GameErrorCode::ProfileAlreadyExists))
        } else {
            (
                StateView { users: self.users.push(spec_new_user(signer, username)), ..self },
                Ok(()),
            )
        }
    }

    /// Rename: guard first, then the addressed profile's name changes and
    /// nothing else does.
    pub open spec fn update_username_spec(
        self,
        owner: Pubkey,
        signer: Pubkey,
        session_token: Option<SessionToken>,
        username: Seq<char>,
    ) -> (StateView, Result<(), GameErrorCode>) {
        if !authorized(owner, signer, session_token) {
            (self, Err(GameErrorCode::WrongAuthority))
        } else if !self.has_user(owner) {
            (self, Err(GameErrorCode::MissingProfile))
        } else {
            let i = self.user_index_of(owner);
            (
                StateView {
                    users: self.users.update(i, UserView { username, ..self.users[i] }),
                    ..self
                },
                Ok(()),
            )
        }
    }

    /// Assignment: guard first; then the lock record at the requested key
    /// — freshly created and zeroed if absent — and the owner's profile
    /// step together through the character-lock state machine.
    pub open spec fn assign_spec(
        self,
        owner: Pubkey,
        signer: Pubkey,
        session_token: Option<SessionToken>,
        character_mint_id: u8,
        now: u64,
    ) -> (StateView, Result<(), GameErrorCode>) {
        if !authorized(owner, signer, session_token) {
            (self, Err(GameErrorCode::WrongAuthority))
        } else if !self.has_user(owner) {
            (self, Err(GameErrorCode::MissingProfile))
        } else {
            let ui = self.user_index_of(owner);
            if !self.has_lock(owner, character_mint_id) {
                let stepped = spec_assign_character(
                    self.users[ui],
                    spec_fresh_character(),
                    character_mint_id,
                    now,
                );
                (
                    StateView {
                        users: self.users.update(ui, stepped.0),
                        locks: self.locks.push(
                            LockEntry {
                                owner,
                                character_id: character_mint_id,
                                record: stepped.1,
                            },
                        ),
                        ..self
                    },
                    Ok(()),
                )
            } else {
                let li = self.lock_index_of(owner, character_mint_id);
                let stepped = spec_assign_character(
                    self.users[ui],
                    self.locks[li].record,
                    character_mint_id,
                    now,
                );
                (
                    StateView {
                        users: self.users.update(ui, stepped.0),
                        locks: self.locks.update(
                            li,
                            LockEntry {
                                owner,
                                character_id: character_mint_id,
                                record: stepped.1,
                            },
                        ),
                        ..self
                    },
                    Ok(()),
                )
            }
        }
    }

    /// Locking: guard first; then the lock record addressed by the
    /// profile's *current* active character id — which must exist — is
    /// locked as of `now`, refreshing the timestamp if already locked.
    pub open spec fn lock_current_spec(
        self,
        owner: Pubkey,
        signer: Pubkey,
        session_token: Option<SessionToken>,
        now: u64,
    ) -> (StateView, Result<(), GameErrorCode>) {
        if !authorized(owner, signer, session_token) {
            (self, Err(GameErrorCode::WrongAuthority))
        } else if !self.has_user(owner) {
            (self, Err(GameErrorCode::MissingProfile))
        } else {
            let character_id = self.the_user(owner).current_character_id;
            if !self.has_lock(owner, character_id) {
                (self, Err(GameErrorCode::MissingCharacterLock))
            } else {
                let li = self.lock_index_of(owner, character_id);
                (
                    StateView {
                        locks: self.locks.update(
                            li,
                            LockEntry {
                                owner,
                                character_id,
                                record: spec_lock_character(self.locks[li].record, now),
                            },
                        ),
                        ..self
                    },
                    Ok(()),
                )
            }
        }
    }

    /// Token-account creation (an external collaborator's operation,
    /// modeled so custody is closed): gives `owner` a balance account.
    pub open spec fn open_token_account_spec(self, owner: Pubkey, amount: u64) -> (
        StateView,
        Result<(), GameErrorCode>,
    ) {
        if self.has_balance(owner) {
            (self, Err(GameErrorCode::TokenAccountAlreadyExists))
        } else {
            (
                StateView { balances: self.balances.push(TokenBalance { owner, amount }), ..self },
                Ok(()),
            )
        }
    }

    /// Withdrawal (vault to owner): guard first; the transfer is signed by
    /// the program's derived vault authority, never by a user key, and it
    /// only ever pays to the authorized owner's own balance.
    pub open spec fn add_token_spec(
        self,
        owner: Pubkey,
        signer: Pubkey,
        session_token: Option<SessionToken>,
        amount: u64,
    ) -> (StateView, Result<(), GameErrorCode>) {
        if !authorized(owner, signer, session_token) {
            (self, Err(GameErrorCode::WrongAuthority))
        } else if !self.has_user(owner) {
            (self, Err(GameErrorCode::MissingProfile))
        } else if !self.has_balance(owner) {
            (self, Err(GameErrorCode::MissingTokenAccount))
        } else {
            let bi = self.balance_index_of(owner);
            let bal = self.balances[bi].amount;
            if amount > self.vault {
                (self, Err(GameErrorCode::InsufficientBalance))
            } else if bal + amount > u64::MAX {
                (self, Err(GameErrorCode::BalanceOverflow))
            } else {
                (
                    StateView {
                        balances: self.balances.update(
                            bi,
                            TokenBalance { owner, amount: (bal + amount) as u64 },
                        ),
                        vault: (self.vault - amount) as u64,
                        ..self
                    },
                    Ok(()),
                )
            }
        }
    }

    /// Deposit (owner to vault): guard first; the transfer is signed by
    /// the owner itself, and moves exactly `amount` into the vault.
    pub open spec fn reduce_token_spec(
        self,
        owner: Pubkey,
        signer: Pubkey,
        session_token: Option<SessionToken>,
        amount: u64,
    ) -> (StateView, Result<(), GameErrorCode>) {
        if !authorized(owner, signer, session_token) {
            (self, Err(GameErrorCode::WrongAuthority))
        } else if !self.has_user(owner) {
            (self, Err(GameErrorCode::MissingProfile))
        } else if !self.has_balance(owner) {
            (self, Err(GameErrorCode::MissingTokenAccount))
        } else {
            let bi = self.balance_index_of(owner);
            let bal = self.balances[bi].amount;
            if amount > bal {
                (self, Err(GameErrorCode::InsufficientBalance))
            } else if self.vault + amount > u64::MAX {
                (self, Err(GameErrorCode::BalanceOverflow))
            } else {
                (
                    StateView {
                        balances: self.balances.update(
                            bi,
                            TokenBalance { owner, amount: (bal - amount) as u64 },
                        ),
                        vault: (self.vault + amount) as u64,
                        ..self
                    },
                    Ok(()),
                )
            }
        }
    }

    /// Well-formedness depends only on the records' keys and the stored
    /// character ids, so it carries over to any state with the same ones.
    pub proof fn lemma_wf_same_keys(self, other: StateView)
        requires
            self.wf(),
            other.users.len() == self.users.len(),
            forall|k: int|
                0 <= k < self.users.len() ==> other.users[k].authority == self.users[k].authority,
            other.locks.len() == self.locks.len(),
            forall|k: int|
                0 <= k < self.locks.len() ==> other.locks[k].owner == self.locks[k].owner
                    && other.locks[k].character_id == self.locks[k].character_id
                    && other.locks[k].record.mint_id == other.locks[k].character_id,
            other.balances.len() == self.balances.len(),
            forall|k: int|
                0 <= k < self.balances.len() ==> other.balances[k].owner == self.balances[k].owner,
        ensures
            other.wf(),
    {
        assert forall|i: int, j: int| 0 <= i < j < other.users.len() implies other.users[i].authority
            != other.users[j].authority by {
            assert(self.users[i].authority != self.users[j].authority);
        }
        assert forall|i: int, j: int| 0 <= i < j < other.locks.len() implies !(other.locks[i].owner
            == other.locks[j].owner && other.locks[i].character_id
            == other.locks[j].character_id) by {
            assert(!(self.locks[i].owner == self.locks[j].owner && self.locks[i].character_id
                == self.locks[j].character_id));
        }
        assert forall|i: int, j: int| 0 <= i < j < other.balances.len() implies
            other.balances[i].owner != other.balances[j].owner by {
            assert(self.balances[i].owner != self.balances[j].owner);
        }
    }
}

impl GameState {
    /// An empty world.
    pub fn new() -> (s: GameState)
        ensures
            s@ == StateView::initial(),
            s@.wf(),
    {
        let s = GameState { users: Vec::new(), locks: Vec::new(), balances: Vec::new(), vault: 0 };
        proof {
            assert(s@ =~= StateView::initial());
        }
        s
    }

    /// Finds the index of `owner`'s profile, if one exists.
    fn find_user(&self, owner: Pubkey) -> (r: Option<usize>)
        ensures
            match r {
                Some(i) => i < self.users@.len() && self@.users[i as int].authority == owner,
                None => !self@.has_user(owner),
            },
    {
        let n = self.users.len();
        let mut i: usize = 0;
        while i < n
            invariant
                n == self.users@.len(),
                i <= n,
                forall|j: int| 0 <= j < i ==> self@.users[j].authority != owner,
            decreases n - i,
        {
            if self.users[i].authority == owner {
                return Some(i);
            }
            i = i + 1;
        }
        None
    }

    /// Finds the index of the lock record at key (`owner`, `character_id`).
    fn find_lock(&self, owner: Pubkey, character_id: u8) -> (r: Option<usize>)
        ensures
            match r {
                Some(i) => i < self.locks@.len() && self.locks@[i as int].owner == owner
                    && self.locks@[i as int].character_id == character_id,
                None => !self@.has_lock(owner, character_id),
            },
    {
        let n = self.locks.len();
        let mut i: usize = 0;
        while i < n
            invariant
                n == self.locks@.len(),
                i <= n,
                forall|j: int|
                    0 <= j < i ==> !(self.locks@[j].owner == owner && self.locks@[j].character_id
                        == character_id),
            decreases n - i,
        {
            if self.locks[i].owner == owner && self.locks[i].character_id == character_id {
                return Some(i);
            }
            i = i + 1;
        }
        None
    }

    /// Finds the index of `owner`'s token balance, if one exists.
    fn find_balance(&self, owner: Pubkey) -> (r: Option<usize>)
        ensures
            match r {
                Some(i) => i < self.balances@.len() && self.balances@[i as int].owner == owner,
                None => !self@.has_balance(owner),
            },
    {
        let n = self.balances.len();
        let mut i: usize = 0;
        while i < n
            invariant
                n == self.balances@.len(),
                i <= n,
                forall|j: int| 0 <= j < i ==> self.balances@[j].owner != owner,
            decreases n - i,
        {
            if self.balances[i].owner == owner {
                return Some(i);
            }
            i = i + 1;
        }
        None
    }

    /// Creates the profile for `signer`.  Fails only when one already
    /// exists at `signer`'s derived address.
    pub fn initialize_user(&mut self, signer: Pubkey, username: String) -> (r: Result<
        (),
        GameErrorCode,
    >)
        requires
            old(self)@.wf(),
        ensures
            final(self)@.wf(),
            final(self)@ == old(self)@.initialize_user_spec(signer, username@).0,
            r == old(self)@.initialize_user_spec(signer, username@).1,
    {
        match self.find_user(signer) {
            Some(i) => {
                proof {
                    old(self)@.lemma_user_index(signer, i as int);
                }
                Err(GameErrorCode::ProfileAlreadyExists)
            },
            None => {
                let user = new_user(signer, username);
                self.users.push(user);
                proof {
                    let ghost target = old(self)@.initialize_user_spec(signer, username@).0;
                    assert(self@.users =~= target.users);
                    assert(self@ =~= target);
                    assert forall|i: int, j: int| 0 <= i < j < self@.users.len() implies
                        self@.users[i].authority != self@.users[j].authority by {
                        if j == self@.users.len() - 1 {
                            assert(!(0 <= i < old(self)@.users.len() && old(
                                self,
                            )@.users[i].authority == signer));
                        } else {
                            assert(old(self)@.users[i].authority != old(
                                self,
                            )@.users[j].authority);
                        }
                    }
                }
                Ok(())
            },
        }
    }

    /// Replaces the display name of `owner`'s profile.  Requires the
    /// guard to pass; the name may have any new length.
    pub fn update_username(
        &mut self,
        owner: Pubkey,
        signer: Pubkey,
        session_token: Option<SessionToken>,
        username: String,
    ) -> (r: Result<(), GameErrorCode>)
        requires
            old(self)@.wf(),
        ensures
            final(self)@.wf(),
            final(self)@ == old(self)@.update_username_spec(owner, signer, session_token, username@).0,
            r == old(self)@.update_username_spec(owner, signer, session_token, username@).1,
    {
        if let Err(e) = check_authority(owner, signer, session_token) {
            return Err(e);
        }
        match self.find_user(owner) {
            None => Err(GameErrorCode::MissingProfile),
            Some(i) => {
                proof {
                    old(self)@.lemma_user_index(owner, i as int);
                }
                rename_user(&mut self.users[i], username);
                proof {
                    let ghost target = old(self)@.update_username_spec(
                        owner,
                        signer,
                        session_token,
                        username@,
                    ).0;
                    assert(self@.users =~= target.users);
                    assert(self@ =~= target);
                    old(self)@.lemma_wf_same_keys(self@);
                }
                Ok(())
            },
        }
    }

    /// Runs the assignment transition for `(owner, character_mint_id)`:
    /// creates the lock record if absent, then steps it and the profile
    /// through the state machine (first assignment, silent cooldown
    /// no-op, or lazy expiry).  `now` must not stand before an active
    /// lock's start.
    pub fn assign_player_character(
        &mut self,
        owner: Pubkey,
        signer: Pubkey,
        session_token: Option<SessionToken>,
        character_mint_id: u8,
        now: u64,
    ) -> (r: Result<(), GameErrorCode>)
        requires
            old(self)@.wf(),
            old(self)@.has_lock(owner, character_mint_id) && old(self)@.the_lock(
                owner,
                character_mint_id,
            ).locked ==> old(self)@.the_lock(owner, character_mint_id).last_locked_time <= now,
        ensures
            final(self)@.wf(),
            final(self)@ == old(self)@.assign_spec(
                owner,
                signer,
                session_token,
                character_mint_id,
                now,
            ).0,
            r == old(self)@.assign_spec(owner, signer, session_token, character_mint_id, now).1,
    {
        if let Err(e) = check_authority(owner, signer, session_token) {
            return Err(e);
        }
        let ui = match self.find_user(owner) {
            None => return Err(GameErrorCode::MissingProfile),
            Some(i) => i,
        };
        proof {
            old(self)@.lemma_user_index(owner, ui as int);
        }
        match self.find_lock(owner, character_mint_id) {
            None => {
                let mut record = UserCharacter { mint_id: 0, locked: false, last_locked_time: 0 };
                assign_character(&mut self.users[ui], &mut record, character_mint_id, now);
                self.locks.push(LockEntry { owner, character_id: character_mint_id, record });
                proof {
                    let ghost target = old(self)@.assign_spec(
                        owner,
                        signer,
                        session_token,
                        character_mint_id,
                        now,
                    ).0;
                    assert(self@.users =~= target.users);
                    assert(self@.locks =~= target.locks);
                    assert(self@ =~= target);
                    assert forall|i: int, j: int| 0 <= i < j < self@.locks.len() implies !(
                    self@.locks[i].owner == self@.locks[j].owner && self@.locks[i].character_id
                        == self@.locks[j].character_id) by {
                        if j == self@.locks.len() - 1 {
                            assert(!(0 <= i < old(self)@.locks.len() && old(self)@.locks[i].owner
                                == owner && old(self)@.locks[i].character_id
                                == character_mint_id));
                        } else {
                            assert(!(old(self)@.locks[i].owner == old(self)@.locks[j].owner && old(
                                self,
                            )@.locks[i].character_id == old(self)@.locks[j].character_id));
                        }
                    }
                    assert forall|i: int, j: int| 0 <= i < j < self@.users.len() implies
                        self@.users[i].authority != self@.users[j].authority by {
                        assert(old(self)@.users[i].authority != old(self)@.users[j].authority);
                    }
                }
                Ok(())
            },
            Some(li) => {
                proof {
                    old(self)@.lemma_lock_index(owner, character_mint_id, li as int);
                }
                let user = &mut self.users[ui];
                let entry = &mut self.locks[li];
                assign_character(user, &mut entry.record, character_mint_id, now);
                proof {
                    let ghost target = old(self)@.assign_spec(
                        owner,
                        signer,
                        session_token,
                        character_mint_id,
                        now,
                    ).0;
                    assert(self@.users =~= target.users);
                    assert(self@.locks =~= target.locks);
                    assert(self@ =~= target);
                    old(self)@.lemma_wf_same_keys(self@);
                }
                Ok(())
            },
        }
    }

    /// Locks the character the owner's profile currently points at, as of
    /// `now` — refreshing the timestamp if it was already locked.
    pub fn lock_current_user_character(
        &mut self,
        owner: Pubkey,
        signer: Pubkey,
        session_token: Option<SessionToken>,
        now: u64,
    ) -> (r: Result<(), GameErrorCode>)
        requires
            old(self)@.wf(),
        ensures
            final(self)@.wf(),
            final(self)@ == old(self)@.lock_current_spec(owner, signer, session_token, now).0,
            r == old(self)@.lock_current_spec(owner, signer, session_token, now).1,
    {
        if let Err(e) = check_authority(owner, signer, session_token) {
            return Err(e);
        }
        let ui = match self.find_user(owner) {
            None => return Err(GameErrorCode::MissingProfile),
            Some(i) => i,
        };
        proof {
            old(self)@.lemma_user_index(owner, ui as int);
        }
        let character_id = self.users[ui].current_character_id;
        match self.find_lock(owner, character_id) {
            None => Err(GameErrorCode::MissingCharacterLock),
            Some(li) => {
                proof {
                    old(self)@.lemma_lock_index(owner, character_id, li as int);
                }
                let entry = &mut self.locks[li];
                lock_character(&mut entry.record, now);
                proof {
                    let ghost target = old(self)@.lock_current_spec(
                        owner,
                        signer,
                        session_token,
                        now,
                    ).0;
                    assert(self@.locks =~= target.locks);
                    assert(self@ =~= target);
                    old(self)@.lemma_wf_same_keys(self@);
                }
                Ok(())
            },
        }
    }

    /// Withdrawal: pays `amount` out of the vault onto `owner`'s balance,
    /// signed by the program's derived vault authority.
    pub fn add_token(
        &mut self,
        owner: Pubkey,
        signer: Pubkey,
        session_token: Option<SessionToken>,
        amount: u64,
    ) -> (r: Result<(), GameErrorCode>)
        requires
            old(self)@.wf(),
        ensures
            final(self)@.wf(),
            final(self)@ == old(self)@.add_token_spec(owner, signer, session_token, amount).0,
            r == old(self)@.add_token_spec(owner, signer, session_token, amount).1,
    {
        if let Err(e) = check_authority(owner, signer, session_token) {
            return Err(e);
        }
        if self.find_user(owner).is_none() {
            return Err(GameErrorCode::MissingProfile);
        }
        let bi = match self.find_balance(owner) {
            None => return Err(GameErrorCode::MissingTokenAccount),
            Some(i) => i,
        };
        proof {
            old(self)@.lemma_balance_index(owner, bi as int);
        }
        let user_amount = self.balances[bi].amount;
        match crate::vault::token_transfer(self.vault, user_amount, amount) {
            Err(e) => Err(e),
            Ok((new_vault, new_user_amount)) => {
                self.vault = new_vault;
                let entry = &mut self.balances[bi];
                entry.amount = new_user_amount;
                proof {
                    let ghost target = old(self)@.add_token_spec(
                        owner,
                        signer,
                        session_token,
                        amount,
                    ).0;
                    assert(self@.balances =~= target.balances);
                    assert(self@ =~= target);
                    old(self)@.lemma_wf_same_keys(self@);
                }
                Ok(())
            },
        }
    }

    /// Deposit: moves `amount` from `owner`'s balance into the vault,
    /// signed by the owner itself.
    pub fn reduce_token(
        &mut self,
        owner: Pubkey,
        signer: Pubkey,
        session_token: Option<SessionToken>,
        amount: u64,
    ) -> (r: Result<(), GameErrorCode>)
        requires
            old(self)@.wf(),
        ensures
            final(self)@.wf(),
            final(self)@ == old(self)@.reduce_token_spec(owner, signer, session_token, amount).0,
            r == old(self)@.reduce_token_spec(owner, signer, session_token, amount).1,
    {
        if let Err(e) = check_authority(owner, signer, session_token) {
            return Err(e);
        }
        if self.find_user(owner).is_none() {
            return Err(GameErrorCode::MissingProfile);
        }
        let bi = match self.find_balance(owner) {
            None => return Err(GameErrorCode::MissingTokenAccount),
            Some(i) => i,
        };
        proof {
            old(self)@.lemma_balance_index(owner, bi as int);
        }
        let user_amount = self.balances[bi].amount;
        match crate::vault::token_transfer(user_amount, self.vault, amount) {
            Err(e) => Err(e),
            Ok((new_user_amount, new_vault)) => {
                self.vault = new_vault;
                let entry = &mut self.balances[bi];
                entry.amount = new_user_amount;
                proof {
                    let ghost target = old(self)@.reduce_token_spec(
                        owner,
                        signer,
                        session_token,
                        amount,
                    ).0;
                    assert(self@.balances =~= target.balances);
                    assert(self@ =~= target);
                    old(self)@.lemma_wf_same_keys(self@);
                }
                Ok(())
            },
        }
    }

    /// Gives `owner` a token balance account holding `amount`, as the
    /// external token collaborator would on account creation.  Fails only
    /// when one already exists.
    pub fn open_token_account(&mut self, owner: Pubkey, amount: u64) -> (r: Result<
        (),
        GameErrorCode,
    >)
        requires
            old(self)@.wf(),
        ensures
            final(self)@.wf(),
            final(self)@ == old(self)@.open_token_account_spec(owner, amount).0,
            r == old(self)@.open_token_account_spec(owner, amount).1,
    {
        match self.find_balance(owner) {
            Some(i) => {
                proof {
                    old(self)@.lemma_balance_index(owner, i as int);
                }
                Err(GameErrorCode::TokenAccountAlreadyExists)
            },
            None => {
                self.balances.push(TokenBalance { owner, amount });
                proof {
                    let ghost target = old(self)@.open_token_account_spec(owner, amount).0;
                    assert(self@.balances =~= target.balances);
                    assert(self@ =~= target);
                    assert forall|i: int, j: int| 0 <= i < j < self@.balances.len() implies
                        self@.balances[i].owner != self@.balances[j].owner by {
                        if j == self@.balances.len() - 1 {
                            assert(!(0 <= i < old(self)@.balances.len() && old(
                                self,
                            )@.balances[i].owner == owner));
                        } else {
                            assert(old(self)@.balances[i].owner != old(self)@.balances[j].owner);
                        }
                    }
                }
                Ok(())
            },
        }
    }

    /// The active character id on `owner`'s profile, if one exists.
    pub fn current_character(&self, owner: Pubkey) -> (r: Option<u8>)
        requires
            self@.wf(),
        ensures
            r is Some <==> self@.has_user(owner),
            self@.has_user(owner) ==> r == Some(self@.the_user(owner).current_character_id),
    {
        match self.find_user(owner) {
            None => None,
            Some(i) => {
                proof {
                    self@.lemma_user_index(owner, i as int);
                }
                Some(self.users[i].current_character_id)
            },
        }
    }

    /// The display name on `owner`'s profile, if one exists.
    pub fn username_of(&self, owner: Pubkey) -> (r: Option<&String>)
        requires
            self@.wf(),
        ensures
            r is Some <==> self@.has_user(owner),
            match r {
                Some(name) => name@ == self@.the_user(owner).username,
                None => !self@.has_user(owner),
            },
    {
        match self.find_user(owner) {
            None => None,
            Some(i) => {
                proof {
                    self@.lemma_user_index(owner, i as int);
                }
                Some(&self.users[i].username)
            },
        }
    }

    /// The lock record at key (`owner`, `character_id`), if one exists.
    pub fn lock_record(&self, owner: Pubkey, character_id: u8) -> (r: Option<UserCharacter>)
        requires
            self@.wf(),
        ensures
            r is Some <==> self@.has_lock(owner, character_id),
            self@.has_lock(owner, character_id) ==> r == Some(self@.the_lock(owner, character_id)),
    {
        match self.find_lock(owner, character_id) {
            None => None,
            Some(i) => {
                proof {
                    self@.lemma_lock_index(owner, character_id, i as int);
                }
                Some(self.locks[i].record)
            },
        }
    }

    /// `owner`'s token balance, if an account exists.
    pub fn balance_of(&self, owner: Pubkey) -> (r: Option<u64>)
        requires
            self@.wf(),
        ensures
            r is Some <==> self@.has_balance(owner),
            self@.has_balance(owner) ==> r == Some(self@.the_balance(owner)),
    {
        match self.find_balance(owner) {
            None => None,
            Some(i) => {
                proof {
                    self@.lemma_balance_index(owner, i as int);
                }
                Some(self.balances[i].amount)
            },
        }
    }

    /// The vault's balance.
    pub fn vault_balance(&self) -> (r: u64)
        ensures
            r == self@.vault,
    {
        self.vault
    }
}

} // verus!
