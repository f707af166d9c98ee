use sol_dungeons::GameErrorCode;
use sol_dungeons::auth::{Pubkey, SessionToken};
use sol_dungeons::character::UserCharacter;
use sol_dungeons::state::GameState;

fn key(id: u64) -> Pubkey {
    Pubkey { id }
}

fn session(delegate: Pubkey, owner: Pubkey) -> SessionToken {
    SessionToken { session_signer: delegate, authority: owner, valid_until: u64::MAX }
}

#[test]
fn profile_creation_is_rejected_on_second_attempt() {
    let mut world = GameState::new();
    let alice = key(1);
    assert_eq!(world.initialize_user(alice, "Hero".to_string()), Ok(()));
    assert_eq!(
        world.initialize_user(alice, "Hero".to_string()),
        Err(GameErrorCode::ProfileAlreadyExists)
    );
    assert_eq!(
        world.initialize_user(alice, "Other".to_string()),
        Err(GameErrorCode::ProfileAlreadyExists)
    );
    assert_eq!(world.users.len(), 1);
    assert_eq!(world.username_of(alice), Some(&"Hero".to_string()));
}

#[test]
fn fresh_assignment_unlocks_and_activates() {
    let mut world = GameState::new();
    let alice = key(1);
    world.initialize_user(alice, "Hero".to_string()).unwrap();
    assert_eq!(world.current_character(alice), Some(0));
    assert_eq!(world.assign_player_character(alice, alice, None, 3, 10), Ok(()));
    assert_eq!(world.current_character(alice), Some(3));
    assert_eq!(
        world.lock_record(alice, 3),
        Some(UserCharacter { mint_id: 3, locked: false, last_locked_time: 0 })
    );
}

#[test]
fn assignment_within_cooldown_changes_nothing() {
    let mut world = GameState::new();
    let alice = key(1);
    world.initialize_user(alice, "Hero".to_string()).unwrap();
    world.assign_player_character(alice, alice, None, 3, 10).unwrap();
    world.lock_current_user_character(alice, alice, None, 1000).unwrap();

    let name_before = world.username_of(alice).cloned();
    let active_before = world.current_character(alice);
    let lock_before = world.lock_record(alice, 3);
    assert_eq!(
        lock_before,
        Some(UserCharacter { mint_id: 3, locked: true, last_locked_time: 1000 })
    );

    // 1800 seconds elapsed is still within the window: a silent no-op.
    assert_eq!(world.assign_player_character(alice, alice, None, 3, 2800), Ok(()));
    assert_eq!(world.username_of(alice).cloned(), name_before);
    assert_eq!(world.current_character(alice), active_before);
    assert_eq!(world.lock_record(alice, 3), lock_before);
}

#[test]
fn assignment_after_cooldown_reactivates_stored_id() {
    let mut world = GameState::new();
    let alice = key(1);
    world.initialize_user(alice, "Hero".to_string()).unwrap();
    world.assign_player_character(alice, alice, None, 3, 10).unwrap();
    world.lock_current_user_character(alice, alice, None, 1000).unwrap();

    // 1801 seconds elapsed: the lock expires lazily inside this call.
    assert_eq!(world.assign_player_character(alice, alice, None, 3, 2801), Ok(()));
    assert_eq!(world.current_character(alice), Some(3));
    // The locked flag clears; the stored id and lock start stay as they were.
    assert_eq!(
        world.lock_record(alice, 3),
        Some(UserCharacter { mint_id: 3, locked: false, last_locked_time: 1000 })
    );
}

#[test]
fn lock_then_assign_same_character_noop_then_expiry() {
    let mut world = GameState::new();
    let alice = key(1);
    world.initialize_user(alice, "Hero".to_string()).unwrap();
    world.assign_player_character(alice, alice, None, 7, 50).unwrap();
    world.lock_current_user_character(alice, alice, None, 100).unwrap();

    // Immediately retrying the same character within the window: no-op.
    assert_eq!(world.assign_player_character(alice, alice, None, 7, 101), Ok(()));
    assert_eq!(
        world.lock_record(alice, 7),
        Some(UserCharacter { mint_id: 7, locked: true, last_locked_time: 100 })
    );

    // Waiting past 1800 simulated seconds and retrying unlocks it.
    assert_eq!(world.assign_player_character(alice, alice, None, 7, 100 + 1801), Ok(()));
    assert_eq!(
        world.lock_record(alice, 7),
        Some(UserCharacter { mint_id: 7, locked: false, last_locked_time: 100 })
    );
    assert_eq!(world.current_character(alice), Some(7));
}

#[test]
fn relocking_refreshes_the_timestamp() {
    let mut world = GameState::new();
    let alice = key(1);
    world.initialize_user(alice, "Hero".to_string()).unwrap();
    world.assign_player_character(alice, alice, None, 2, 10).unwrap();
    world.lock_current_user_character(alice, alice, None, 100).unwrap();
    world.lock_current_user_character(alice, alice, None, 500).unwrap();
    assert_eq!(
        world.lock_record(alice, 2),
        Some(UserCharacter { mint_id: 2, locked: true, last_locked_time: 500 })
    );
}

#[test]
fn end_to_end_owner_a() {
    // Owner A creates "Hero", assigns character 3, locks it at t0 = 1000,
    // then twice asks to assign character 5.  Each assign call addresses
    // the lock record derived from the *requested* id, so the fresh
    // (A, 5) record is created and activated at once, untouched by the
    // lock held on (A, 3).
    let mut world = GameState::new();
    let a = key(10);
    world.initialize_user(a, "Hero".to_string()).unwrap();

    assert_eq!(world.assign_player_character(a, a, None, 3, 10), Ok(()));
    assert_eq!(world.current_character(a), Some(3));
    assert_eq!(
        world.lock_record(a, 3),
        Some(UserCharacter { mint_id: 3, locked: false, last_locked_time: 0 })
    );

    world.lock_current_user_character(a, a, None, 1000).unwrap();
    assert_eq!(
        world.lock_record(a, 3),
        Some(UserCharacter { mint_id: 3, locked: true, last_locked_time: 1000 })
    );

    assert_eq!(world.assign_player_character(a, a, None, 5, 1100), Ok(()));
    assert_eq!(world.current_character(a), Some(5));
    // The lock on (A, 3) is untouched and still running.
    assert_eq!(
        world.lock_record(a, 3),
        Some(UserCharacter { mint_id: 3, locked: true, last_locked_time: 1000 })
    );

    assert_eq!(world.assign_player_character(a, a, None, 5, 2801), Ok(()));
    assert_eq!(world.current_character(a), Some(5));
}

#[test]
fn end_to_end_same_character() {
    // The same story told on one lock record: assign 3, lock at t0, retry
    // within the window (no-op), retry past it (unlock, reactivate 3).
    let mut world = GameState::new();
    let a = key(10);
    world.initialize_user(a, "Hero".to_string()).unwrap();
    world.assign_player_character(a, a, None, 3, 10).unwrap();
    world.lock_current_user_character(a, a, None, 1000).unwrap();

    assert_eq!(world.assign_player_character(a, a, None, 3, 1100), Ok(()));
    assert_eq!(world.current_character(a), Some(3));
    assert_eq!(
        world.lock_record(a, 3),
        Some(UserCharacter { mint_id: 3, locked: true, last_locked_time: 1000 })
    );

    assert_eq!(world.assign_player_character(a, a, None, 3, 2801), Ok(()));
    assert_eq!(world.current_character(a), Some(3));
    assert_eq!(
        world.lock_record(a, 3),
        Some(UserCharacter { mint_id: 3, locked: false, last_locked_time: 1000 })
    );
}

#[test]
fn rename_by_wrong_key_is_rejected_unchanged() {
    let mut world = GameState::new();
    let b = key(20);
    let mallory = key(21);
    world.initialize_user(b, "Bravo".to_string()).unwrap();
    assert_eq!(
        world.update_username(b, mallory, None, "Taken".to_string()),
        Err(GameErrorCode::WrongAuthority)
    );
    assert_eq!(world.username_of(b), Some(&"Bravo".to_string()));
}

#[test]
fn rename_through_session_delegation() {
    let mut world = GameState::new();
    let b = key(20);
    let delegate = key(30);
    world.initialize_user(b, "Bravo".to_string()).unwrap();
    let token = session(delegate, b);
    assert_eq!(world.update_username(b, delegate, Some(token), "Renamed".to_string()), Ok(()));
    assert_eq!(world.username_of(b), Some(&"Renamed".to_string()));
}

#[test]
fn session_must_bind_this_signer_to_this_owner() {
    let mut world = GameState::new();
    let b = key(20);
    let delegate = key(30);
    let mallory = key(31);
    world.initialize_user(b, "Bravo".to_string()).unwrap();

    // Token names the right owner but a different delegate.
    let token = session(delegate, b);
    assert_eq!(
        world.update_username(b, mallory, Some(token), "Taken".to_string()),
        Err(GameErrorCode::WrongAuthority)
    );

    // Token names the right delegate but a different owner.
    let other_owner = key(40);
    let token = session(mallory, other_owner);
    assert_eq!(
        world.update_username(b, mallory, Some(token), "Taken".to_string()),
        Err(GameErrorCode::WrongAuthority)
    );
    assert_eq!(world.username_of(b), Some(&"Bravo".to_string()));
}

#[test]
fn operations_on_missing_records_report_which() {
    let mut world = GameState::new();
    let ghost_owner = key(99);
    assert_eq!(
        world.assign_player_character(ghost_owner, ghost_owner, None, 1, 0),
        Err(GameErrorCode::MissingProfile)
    );
    assert_eq!(
        world.update_username(ghost_owner, ghost_owner, None, "x".to_string()),
        Err(GameErrorCode::MissingProfile)
    );

    // A profile whose active character (still 0) has no lock record yet.
    let alice = key(1);
    world.initialize_user(alice, "Hero".to_string()).unwrap();
    assert_eq!(
        world.lock_current_user_character(alice, alice, None, 10),
        Err(GameErrorCode::MissingCharacterLock)
    );
}
