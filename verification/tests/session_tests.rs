//! Session lifecycle behaviour: seeds grow globally, ending clears the
//! session, expiry is exact to the millisecond, and every failure of the
//! start and end requests.

use maze_game_buyer::types::{EndGameEffect, GameError};
use maze_game_buyer::utils::DAY_MS;
use maze_game_buyer::MazeGameBuyerContract;

const DEPOSIT: u128 = 1_000_000_000_000_000_000_000;
const MAX_GAME_DURATION: u64 = 180_000;

fn owner() -> String {
    "alice".to_string()
}

fn setup_contract() -> (u64, MazeGameBuyerContract) {
    let contract = MazeGameBuyerContract::new(
        owner(),
        "token.cheddar.near".to_string(),
        "minter.near".to_string(),
    );
    (DAY_MS, contract)
}

#[test]
fn seed_ids_increase_across_accounts() {
    let (now_ms, mut contract) = setup_contract();
    let first = "first.near".to_string();
    let second = "second.near".to_string();
    assert_eq!(contract.get_seed_id(first.clone(), now_ms, DEPOSIT), Ok(1));
    assert_eq!(contract.get_seed_id(second.clone(), now_ms, DEPOSIT), Ok(2));
    assert_eq!(contract.get_seed_id(first, now_ms + 1, DEPOSIT), Ok(3));
    assert_eq!(contract.get_seed_id(second, now_ms + 1, DEPOSIT), Ok(4));
}

#[test]
fn end_then_query_reports_no_session() {
    let (now_ms, mut contract) = setup_contract();
    let user = owner();
    contract.get_seed_id(user.clone(), now_ms, DEPOSIT).unwrap();
    let effect = contract
        .end_game(&owner(), user.clone(), 0, None, now_ms)
        .unwrap();
    assert_eq!(effect, EndGameEffect::NoMint);
    assert_eq!(contract.get_user_ongoing_game(user, now_ms), Ok(None));
}

#[test]
fn positive_reward_requests_a_mint() {
    let (now_ms, mut contract) = setup_contract();
    let user = "winner.near".to_string();
    contract.get_seed_id(user.clone(), now_ms, DEPOSIT).unwrap();
    let effect = contract
        .end_game(&owner(), user.clone(), 7, Some("friend.near".to_string()), now_ms)
        .unwrap();
    assert_eq!(
        effect,
        EndGameEffect::Mint {
            recipient: user,
            amount: 7,
            referral: Some("friend.near".to_string()),
        }
    );
}

#[test]
fn session_visible_until_the_last_millisecond() {
    let (now_ms, mut contract) = setup_contract();
    let user = owner();
    contract.get_seed_id(user.clone(), now_ms, DEPOSIT).unwrap();
    let just_before = now_ms + MAX_GAME_DURATION - 1;
    assert!(contract
        .get_user_ongoing_game(user.clone(), just_before)
        .unwrap()
        .is_some());
    let at_limit = now_ms + MAX_GAME_DURATION;
    assert_eq!(contract.get_user_ongoing_game(user.clone(), at_limit), Ok(None));
    assert_eq!(
        contract.get_user_ongoing_game(user, at_limit + 12345),
        Ok(None)
    );
}

#[test]
fn end_without_session_fails_and_changes_nothing() {
    let (now_ms, mut contract) = setup_contract();
    let user = "idle.near".to_string();
    let before = contract.get_user_remaining_games(&user, now_ms);
    assert_eq!(
        contract.end_game(&owner(), user.clone(), 5, None, now_ms),
        Err(GameError::NoActiveSession)
    );
    assert_eq!(contract.get_user_remaining_games(&user, now_ms), before);
    assert_eq!(contract.get_user_ongoing_game(user, now_ms), Ok(None));
}

#[test]
fn end_of_expired_session_fails() {
    let (now_ms, mut contract) = setup_contract();
    let user = owner();
    contract.get_seed_id(user.clone(), now_ms, DEPOSIT).unwrap();
    let late = now_ms + MAX_GAME_DURATION;
    assert_eq!(
        contract.end_game(&owner(), user, 5, None, late),
        Err(GameError::NoActiveSession)
    );
}

#[test]
fn only_the_owner_may_end_games() {
    let (now_ms, mut contract) = setup_contract();
    let user = "player.near".to_string();
    contract.get_seed_id(user.clone(), now_ms, DEPOSIT).unwrap();
    assert_eq!(
        contract.end_game(&user.clone(), user.clone(), 5, None, now_ms),
        Err(GameError::UnauthorizedCaller)
    );
    assert!(contract.get_user_ongoing_game(user, now_ms).unwrap().is_some());
}

#[test]
fn low_deposit_refused() {
    let (now_ms, mut contract) = setup_contract();
    let user = owner();
    assert_eq!(
        contract.get_seed_id(user.clone(), now_ms, DEPOSIT - 1),
        Err(GameError::InsufficientDeposit)
    );
    assert_eq!(contract.get_user_remaining_games(&user, now_ms), (5, 0));
}

#[test]
fn start_without_credit_refused() {
    let (now_ms, mut contract) = setup_contract();
    let user = owner();
    for expected in 1..=5u64 {
        assert_eq!(contract.get_seed_id(user.clone(), now_ms, DEPOSIT), Ok(expected));
    }
    assert_eq!(contract.get_user_remaining_games(&user, now_ms), (0, 0));
    assert_eq!(
        contract.get_seed_id(user.clone(), now_ms, DEPOSIT),
        Err(GameError::InsufficientCredit)
    );
}

#[test]
fn clock_running_backwards_is_reported() {
    let (now_ms, mut contract) = setup_contract();
    let user = owner();
    contract.get_seed_id(user.clone(), now_ms, DEPOSIT).unwrap();
    assert_eq!(
        contract.get_user_ongoing_game(user.clone(), now_ms - 1),
        Err(GameError::ClockInconsistency)
    );
    assert_eq!(
        contract.end_game(&owner(), user.clone(), 5, None, now_ms - 1),
        Err(GameError::ClockInconsistency)
    );
    assert_eq!(
        contract.get_seed_id(user, now_ms - 1, DEPOSIT),
        Err(GameError::ClockInconsistency)
    );
}

#[test]
fn forfeited_session_gives_no_reward_and_costs_a_credit() {
    let (now_ms, mut contract) = setup_contract();
    let user = owner();
    assert_eq!(contract.get_seed_id(user.clone(), now_ms, DEPOSIT), Ok(1));
    // The second start forfeits the running session silently and consumes
    // another credit.
    assert_eq!(contract.get_seed_id(user.clone(), now_ms + 10, DEPOSIT), Ok(2));
    let ongoing = contract
        .get_user_ongoing_game(user.clone(), now_ms + 10)
        .unwrap()
        .unwrap();
    assert_eq!(ongoing.seed_id, 2);
    assert_eq!(ongoing.start_time, now_ms + 10);
    assert_eq!(contract.get_user_remaining_games(&user, now_ms), (3, 0));
}

#[test]
fn mint_callback_reports_the_outcome() {
    let (_, contract) = setup_contract();
    assert_eq!(contract.on_mint_callback(true), "Minting successful");
    assert_eq!(contract.on_mint_callback(false), "Minting failed");
}

#[test]
fn validate_ongoing_game_is_always_false() {
    let (_, contract) = setup_contract();
    assert!(!contract.validate_ongoing_game());
}
