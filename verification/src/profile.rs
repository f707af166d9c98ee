//! The per-player profile record.
//!
//! Exactly one `User` record exists per owning key; the world state in
//! `crate::state` addresses it deterministically by that key.  The record
//! holds the owner's address (immutable after creation), a mutable display
//! name, and the currently active character id (0 when none).

use vstd::prelude::*;

use crate::auth::Pubkey;

verus! {

/// A player profile record.
#[derive(Debug, PartialEq)]
pub struct User {
    /// The owning key the profile is permanently bound to.
    pub authority: Pubkey,
    /// Mutable display name; its backing storage is resized by the host.
    pub username: String,
    /// Currently active character id; 0 means none assigned yet.
    pub current_character_id: u8,
}

/// The mathematical value of a `User`: the same fields, with the name as a
/// character sequence.
pub struct UserView {
    pub authority: Pubkey,
    pub username: Seq<char>,
    pub current_character_id: u8,
}

impl View for User {
    type V = UserView;

    open spec fn view(&self) -> UserView {
        UserView {
            authority: self.authority,
            username: self.username@,
            current_character_id: self.current_character_id,
        }
    }
}

/// A fresh profile as creation leaves it: bound to `authority`, named
/// `username`, with no active character.
pub open spec fn spec_new_user(authority: Pubkey, username: Seq<char>) -> UserView {
    UserView { authority, username, current_character_id: 0 }
}

/// Builds the record for a newly created profile.
pub fn new_user(authority: Pubkey, username: String) -> (u: User)
    ensures
        u@ == spec_new_user(authority, username@),
{
    User { authority, username, current_character_id: 0 }
}

/// Replaces the display name, leaving every other field unchanged.  The
/// new name may have any length; storage resizing is the host's concern.
pub fn rename_user(user: &mut User, username: String)
    ensures
        final(user)@ == (UserView { username: username@, ..old(user)@ }),
{
    user.username = username;
}

} // verus!
