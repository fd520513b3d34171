//! The contract's unit tests: defaults, owner-managed settings, the credit
//! ledger, and the session lifecycle.

use maze_game_buyer::types::{GameJson, StartPolicy};
use maze_game_buyer::utils::{to_yocto_u8, DAY_MS};
use maze_game_buyer::MazeGameBuyerContract;

fn owner() -> String {
    "alice".to_string()
}

fn setup_contract() -> (u64, MazeGameBuyerContract) {
    let now_ms = DAY_MS;
    let cheddar_contract = "token.cheddar.near".to_string();
    let maze_minter_contract = "minter.near".to_string();
    let contract = MazeGameBuyerContract::new(owner(), cheddar_contract, maze_minter_contract);
    (now_ms, contract)
}

const DEPOSIT: u128 = 1_000_000_000_000_000_000_000;

#[test]
fn get_default_game_costs() {
    let (_, contract) = setup_contract();
    let game_costs = [
        ["1".to_string(), to_yocto_u8(15).to_string()],
        ["10".to_string(), to_yocto_u8(14).to_string()],
    ];
    assert_eq!(contract.get_games_costs(), game_costs);
}

#[test]
fn set_then_get_game_costs() {
    let (_, mut contract) = setup_contract();
    contract.insert_game_cost(&owner(), 1, to_yocto_u8(20)).unwrap();
    let new_game_costs_1 = [
        ["1".to_string(), to_yocto_u8(20).to_string()],
        ["10".to_string(), to_yocto_u8(14).to_string()],
    ];
    assert_eq!(contract.get_games_costs(), new_game_costs_1);

    contract.remove_game_cost(&owner(), 10).unwrap();
    let new_game_costs_2 = [["1".to_string(), to_yocto_u8(20).to_string()]];
    assert_eq!(contract.get_games_costs(), new_game_costs_2);
}

#[test]
fn get_default_cheddar_contract() {
    let (_, contract) = setup_contract();
    let cheddar_contract = "token.cheddar.near".to_string();
    assert_eq!(contract.get_cheddar_contract(), cheddar_contract);
}

#[test]
fn set_then_get_cheddar_contract() {
    let (_, mut contract) = setup_contract();
    let cheddar_contract = "token-v2.cheddar.near".to_string();
    contract.set_cheddar_contract(&owner(), cheddar_contract.clone()).unwrap();
    assert_eq!(contract.get_cheddar_contract(), cheddar_contract);
}

#[test]
fn get_default_free_games() {
    let (now_ms, contract) = setup_contract();
    let user = "test.near".to_string();
    assert_eq!(contract.get_user_remaining_free_games(&user, now_ms), 5);
}

#[test]
fn set_then_get_free_games() {
    let (now_ms, mut contract) = setup_contract();
    let user = "test.near".to_string();
    contract.give_free_game_to_user(&owner(), user.clone(), now_ms).unwrap();
    assert_eq!(contract.get_user_remaining_free_games(&user, now_ms), 6);
}

#[test]
fn get_free_games_on_new_day() {
    let (now_ms, mut contract) = setup_contract();
    let user = "test.near".to_string();
    contract.give_free_game_to_user(&owner(), user.clone(), now_ms).unwrap();
    assert_eq!(contract.get_user_remaining_free_games(&user, 2 * DAY_MS), 5);
}

#[test]
fn get_paid_games() {
    let (_, contract) = setup_contract();
    let user = "test.near".to_string();
    assert_eq!(contract.get_user_remaining_paid_games(&user), 0);
}

#[test]
fn get_remaining_games() {
    let (now_ms, contract) = setup_contract();
    let user = "test.near".to_string();
    assert_eq!(contract.get_user_remaining_games(&user, now_ms), (5, 0));
}

#[test]
fn get_seed_id() {
    let (now_ms, mut contract) = setup_contract();
    let user = owner();
    assert_eq!(contract.get_seed_id(user.clone(), now_ms, DEPOSIT), Ok(1));
    assert_eq!(contract.get_user_remaining_games(&user, now_ms), (4, 0));
}

#[test]
fn get_seed_id_assume_lose_get_new_seed_id() {
    let (now_ms, mut contract) = setup_contract();
    let user = owner();
    assert_eq!(contract.get_seed_id(user.clone(), now_ms, DEPOSIT), Ok(1));
    assert_eq!(contract.get_user_remaining_games(&user, now_ms), (4, 0));

    assert_eq!(contract.get_seed_id(user.clone(), now_ms, DEPOSIT), Ok(2));
    assert_eq!(contract.get_user_remaining_games(&user, now_ms), (3, 0));
}

#[test]
fn win_and_restart() {
    let (now_ms, mut contract) = setup_contract();
    let user = owner();
    assert_eq!(contract.get_seed_id(user.clone(), now_ms, DEPOSIT), Ok(1));
    assert_eq!(contract.get_user_remaining_games(&user, now_ms), (4, 0));

    contract
        .end_game(&owner(), user.clone(), 1_000_000_000_000_000_000_000_000, None, now_ms)
        .unwrap();
    assert_eq!(contract.get_seed_id(user.clone(), now_ms, DEPOSIT), Ok(2));
    assert_eq!(contract.get_user_remaining_games(&user, now_ms), (3, 0));
}

#[test]
fn test_ongoing_game() {
    let (now_ms, mut contract) = setup_contract();
    let user = owner();
    let ongoing_game = contract.get_user_ongoing_game(user.clone(), now_ms).unwrap();
    assert!(ongoing_game.is_none());
    contract.get_seed_id(user.clone(), now_ms, DEPOSIT).unwrap();
    let ongoing_game = contract.get_user_ongoing_game(user.clone(), now_ms).unwrap();
    assert!(ongoing_game.is_some());
    assert!(ongoing_game.unwrap().seed_id == 1);
}

#[test]
fn set_then_get_maze_minter_contract() {
    let (_, mut contract) = setup_contract();
    let new_maze_minter_contract = "new.maze.minter.near".to_string();
    contract
        .set_maze_minter_contract(&owner(), new_maze_minter_contract.clone())
        .unwrap();
    let contract_state = contract.get_contract_state();
    assert!(contract_state.maze_minter_contract == new_maze_minter_contract);
}

#[test]
fn ensure_game_lost_after_time() {
    let (now_ms, mut contract) = setup_contract();
    let user = owner();

    assert_eq!(contract.get_seed_id(user.clone(), now_ms, DEPOSIT), Ok(1));
    let ongoing_game = contract.get_user_ongoing_game(user.clone(), now_ms).unwrap();
    assert!(ongoing_game.is_some());
    let unwraped_ongoing_game = ongoing_game.unwrap();
    assert!(unwraped_ongoing_game.seed_id == 1);
    assert!(unwraped_ongoing_game.start_time > 0);

    let state = contract.get_contract_state();
    let new_time = now_ms + state.max_game_duration;

    let ongoing_game = contract.get_user_ongoing_game(user.clone(), new_time).unwrap();
    assert!(ongoing_game.is_none());
}

#[test]
fn strict_policy_rejects_second_start() {
    let (now_ms, mut contract) = setup_contract();
    let user = owner();
    contract
        .set_start_policy(&owner(), StartPolicy::RejectActive)
        .unwrap();
    assert_eq!(contract.get_seed_id(user.clone(), now_ms, DEPOSIT), Ok(1));
    assert_eq!(
        contract.get_seed_id(user.clone(), now_ms + 1, DEPOSIT),
        Err(maze_game_buyer::types::GameError::SessionAlreadyActive)
    );
    // The expired session no longer blocks a new start.
    let state = contract.get_contract_state();
    let later = now_ms + state.max_game_duration;
    assert_eq!(contract.get_seed_id(user.clone(), later, DEPOSIT), Ok(2));
}

#[test]
fn default_game_is_empty() {
    let game: maze_game_buyer::types::Game = Default::default();
    assert_eq!(game.seed_id, 0);
    assert_eq!(game.start_time, 0);
    assert!(!game.is_ending_game);
}

#[test]
fn ongoing_game_reports_exact_record() {
    let (now_ms, mut contract) = setup_contract();
    let user = owner();
    contract.get_seed_id(user.clone(), now_ms, DEPOSIT).unwrap();
    let ongoing = contract.get_user_ongoing_game(user, now_ms + 5).unwrap();
    assert_eq!(
        ongoing,
        Some(GameJson {
            seed_id: 1,
            start_time: now_ms,
        })
    );
}
