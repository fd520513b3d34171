//! Administrative endpoints: owner checks, pricing-table capacity, the
//! configuration snapshot, and the schema upgrade.

use maze_game_buyer::account_table::AccountTable;
use maze_game_buyer::costs::CostTable;
use maze_game_buyer::types::{FreeGameInfo, Game, GameError};
use maze_game_buyer::utils::DAY_MS;
use maze_game_buyer::{MazeGameBuyerContract, OldMazeGameBuyerContract};

fn owner() -> String {
    "alice".to_string()
}

fn setup_contract() -> MazeGameBuyerContract {
    MazeGameBuyerContract::new(
        owner(),
        "token.cheddar.near".to_string(),
        "minter.near".to_string(),
    )
}

#[test]
fn non_owner_may_not_administer() {
    let mut contract = setup_contract();
    let intruder = "intruder.near".to_string();
    assert_eq!(
        contract.insert_game_cost(&intruder, 2, 7),
        Err(GameError::UnauthorizedCaller)
    );
    assert_eq!(
        contract.remove_game_cost(&intruder, 1),
        Err(GameError::UnauthorizedCaller)
    );
    assert_eq!(
        contract.set_cheddar_contract(&intruder, "x.near".to_string()),
        Err(GameError::UnauthorizedCaller)
    );
    assert_eq!(
        contract.set_maze_minter_contract(&intruder, "x.near".to_string()),
        Err(GameError::UnauthorizedCaller)
    );
    assert_eq!(
        contract.set_max_game_duration(&intruder, 60),
        Err(GameError::UnauthorizedCaller)
    );
    assert_eq!(
        contract.give_free_game_to_user(&intruder, "test.near".to_string(), DAY_MS),
        Err(GameError::UnauthorizedCaller)
    );
    // Nothing changed.
    assert_eq!(contract.get_cheddar_contract(), "token.cheddar.near");
    assert_eq!(
        contract.get_user_remaining_games(&"test.near".to_string(), DAY_MS),
        (5, 0)
    );
}

#[test]
fn pricing_table_capacity_is_four() {
    let mut contract = setup_contract();
    contract.insert_game_cost(&owner(), 2, 7).unwrap();
    contract.insert_game_cost(&owner(), 3, 6).unwrap();
    assert_eq!(
        contract.insert_game_cost(&owner(), 4, 5),
        Err(GameError::CapacityExceeded)
    );
    // Overwriting a stored tier needs no free slot.
    contract.insert_game_cost(&owner(), 3, 9).unwrap();
    let costs = contract.get_games_costs();
    assert_eq!(costs.len(), 4);
    assert_eq!(costs[2], ["2".to_string(), "7".to_string()]);
    assert_eq!(costs[3], ["3".to_string(), "9".to_string()]);
}

#[test]
fn removing_a_missing_tier_fails() {
    let mut contract = setup_contract();
    assert_eq!(
        contract.remove_game_cost(&owner(), 7),
        Err(GameError::NotFound)
    );
}

#[test]
fn duration_setter_works_in_seconds() {
    let mut contract = setup_contract();
    contract.set_max_game_duration(&owner(), 60).unwrap();
    assert_eq!(contract.get_contract_state().max_game_duration, 60_000);
}

#[test]
fn contract_state_snapshot() {
    let contract = setup_contract();
    let state = contract.get_contract_state();
    assert_eq!(state.owner_id, "alice");
    assert_eq!(state.cheddar_contract, "token.cheddar.near");
    assert_eq!(state.maze_minter_contract, "minter.near");
    assert_eq!(state.seed_id, 0);
    assert_eq!(state.min_deposit, "1000000000000000000000");
    assert_eq!(state.max_game_duration, 180_000);
    assert_eq!(
        state.game_costs,
        [
            ["1".to_string(), "15000000000000000000000000".to_string()],
            ["10".to_string(), "14000000000000000000000000".to_string()],
        ]
    );
}

#[test]
fn migrate_preserves_ledgers_and_adds_duration() {
    let mut game_costs = CostTable::new();
    game_costs.insert(1, 15);
    let mut free = AccountTable::new();
    free.insert(
        "test.near".to_string(),
        FreeGameInfo { day: 1, amount: 2 },
    );
    let mut paid = AccountTable::new();
    paid.insert("test.near".to_string(), 9);
    let mut ongoing = AccountTable::new();
    ongoing.insert(
        "test.near".to_string(),
        Game { seed_id: 41, start_time: DAY_MS, is_ending_game: false },
    );
    let old_state = OldMazeGameBuyerContract {
        owner_id: owner(),
        cheddar_contract: "token.cheddar.near".to_string(),
        game_costs,
        user_remaining_free_games: free,
        user_remaining_paid_games: paid,
        seed_id: 41,
        min_deposit: 5,
        ongoing_games: ongoing,
        maze_minter_contract: "minter.near".to_string(),
    };
    let contract = MazeGameBuyerContract::migrate(old_state);
    let user = "test.near".to_string();
    assert_eq!(contract.get_user_remaining_games(&user, DAY_MS), (2, 9));
    let ongoing = contract.get_user_ongoing_game(user, DAY_MS).unwrap().unwrap();
    assert_eq!(ongoing.seed_id, 41);
    let state = contract.get_contract_state();
    assert_eq!(state.seed_id, 41);
    assert_eq!(state.min_deposit, "5");
    assert_eq!(state.max_game_duration, 180_000);
    assert_eq!(state.game_costs, [["1".to_string(), "15".to_string()]]);
}
