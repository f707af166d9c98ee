use sol_dungeons::GameErrorCode;
use sol_dungeons::auth::{Pubkey, SessionToken, check_authority};
use sol_dungeons::state::GameState;
use sol_dungeons::vault::token_transfer;

fn key(id: u64) -> Pubkey {
    Pubkey { id }
}

fn session(delegate: Pubkey, owner: Pubkey) -> SessionToken {
    SessionToken { session_signer: delegate, authority: owner, valid_until: u64::MAX }
}

fn world_with_funded(owner: Pubkey, amount: u64) -> GameState {
    let mut world = GameState::new();
    world.initialize_user(owner, "Hero".to_string()).unwrap();
    world.open_token_account(owner, amount).unwrap();
    world
}

#[test]
fn guard_accepts_owner_and_bound_session_only() {
    let owner = key(1);
    let delegate = key(2);
    let stranger = key(3);
    assert_eq!(check_authority(owner, owner, None), Ok(()));
    assert_eq!(check_authority(owner, delegate, Some(session(delegate, owner))), Ok(()));
    assert_eq!(check_authority(owner, stranger, None), Err(GameErrorCode::WrongAuthority));
    assert_eq!(
        check_authority(owner, stranger, Some(session(delegate, owner))),
        Err(GameErrorCode::WrongAuthority)
    );
    assert_eq!(
        check_authority(owner, delegate, Some(session(delegate, stranger))),
        Err(GameErrorCode::WrongAuthority)
    );
}

#[test]
fn transfer_moves_exactly_the_amount() {
    assert_eq!(token_transfer(100, 40, 30), Ok((70, 70)));
    assert_eq!(token_transfer(100, 40, 0), Ok((100, 40)));
    assert_eq!(token_transfer(100, 40, 100), Ok((0, 140)));
    assert_eq!(token_transfer(99, 40, 100), Err(GameErrorCode::InsufficientBalance));
    assert_eq!(token_transfer(100, u64::MAX, 1), Err(GameErrorCode::BalanceOverflow));
}

#[test]
fn deposit_and_withdraw_move_exact_amounts() {
    let owner = key(1);
    let mut world = world_with_funded(owner, 1000);
    assert_eq!(world.balance_of(owner), Some(1000));
    assert_eq!(world.vault_balance(), 0);

    assert_eq!(world.reduce_token(owner, owner, None, 300), Ok(()));
    assert_eq!(world.balance_of(owner), Some(700));
    assert_eq!(world.vault_balance(), 300);

    assert_eq!(world.add_token(owner, owner, None, 200), Ok(()));
    assert_eq!(world.balance_of(owner), Some(900));
    assert_eq!(world.vault_balance(), 100);
}

#[test]
fn deposit_then_withdraw_is_the_exact_inverse() {
    let owner = key(1);
    let mut world = world_with_funded(owner, 550);
    world.reduce_token(owner, owner, None, 550).unwrap();
    world.add_token(owner, owner, None, 550).unwrap();
    assert_eq!(world.balance_of(owner), Some(550));
    assert_eq!(world.vault_balance(), 0);
}

#[test]
fn custody_requires_a_valid_credential() {
    let owner = key(1);
    let delegate = key(2);
    let stranger = key(3);
    let mut world = world_with_funded(owner, 1000);
    world.reduce_token(owner, owner, None, 400).unwrap();

    // A stranger cannot move funds either way, with or without a token
    // that fails to bind them to this owner.
    assert_eq!(
        world.reduce_token(owner, stranger, None, 100),
        Err(GameErrorCode::WrongAuthority)
    );
    assert_eq!(world.add_token(owner, stranger, None, 100), Err(GameErrorCode::WrongAuthority));
    assert_eq!(
        world.add_token(owner, stranger, Some(session(delegate, owner)), 100),
        Err(GameErrorCode::WrongAuthority)
    );
    assert_eq!(world.balance_of(owner), Some(600));
    assert_eq!(world.vault_balance(), 400);

    // A bound delegate can.
    assert_eq!(world.add_token(owner, delegate, Some(session(delegate, owner)), 150), Ok(()));
    assert_eq!(world.balance_of(owner), Some(750));
    assert_eq!(world.vault_balance(), 250);
}

#[test]
fn custody_error_paths() {
    let owner = key(1);
    let mut world = GameState::new();
    world.initialize_user(owner, "Hero".to_string()).unwrap();

    // No token account yet.
    assert_eq!(world.reduce_token(owner, owner, None, 1), Err(GameErrorCode::MissingTokenAccount));
    assert_eq!(world.add_token(owner, owner, None, 1), Err(GameErrorCode::MissingTokenAccount));

    world.open_token_account(owner, 50).unwrap();
    assert_eq!(
        world.open_token_account(owner, 50),
        Err(GameErrorCode::TokenAccountAlreadyExists)
    );

    // The payer's balance must cover the amount, on either path.
    assert_eq!(world.reduce_token(owner, owner, None, 51), Err(GameErrorCode::InsufficientBalance));
    assert_eq!(world.add_token(owner, owner, None, 1), Err(GameErrorCode::InsufficientBalance));

    // A profile is required before custody moves.
    let ghost_owner = key(9);
    world.open_token_account(ghost_owner, 10).unwrap();
    assert_eq!(
        world.reduce_token(ghost_owner, ghost_owner, None, 1),
        Err(GameErrorCode::MissingProfile)
    );
}

#[test]
fn custody_receiving_side_can_overflow() {
    let alice = key(1);
    let bob = key(2);
    let mut world = GameState::new();
    world.initialize_user(alice, "Hero".to_string()).unwrap();
    world.initialize_user(bob, "Bravo".to_string()).unwrap();
    world.open_token_account(alice, u64::MAX).unwrap();
    world.open_token_account(bob, 10).unwrap();

    // Fill the vault to the brim, then one more unit cannot fit.
    world.reduce_token(alice, alice, None, u64::MAX).unwrap();
    assert_eq!(world.vault_balance(), u64::MAX);
    assert_eq!(world.reduce_token(bob, bob, None, 1), Err(GameErrorCode::BalanceOverflow));
    assert_eq!(world.balance_of(bob), Some(10));

    // And the withdrawing owner's own balance can be the side that
    // cannot hold the amount.
    world.add_token(alice, alice, None, u64::MAX).unwrap();
    world.reduce_token(bob, bob, None, 10).unwrap();
    assert_eq!(world.add_token(alice, alice, None, 10), Err(GameErrorCode::BalanceOverflow));
    assert_eq!(world.balance_of(alice), Some(u64::MAX));
    assert_eq!(world.vault_balance(), 10);
}
