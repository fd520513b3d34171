//! Core logic of a game-session vending contract: a credit ledger with lazy
//! daily resets, a bounded pricing table, a payment-to-credit converter, and a
//! single-session-per-account state machine issuing monotonically increasing
//! session seeds.

pub mod account_table;
pub mod costs;
pub mod deposit;
pub mod types;
pub mod utils;

use vstd::prelude::*;

pub mod internal;
pub mod laws;

use crate::account_table::AccountTable;
use crate::costs::{cost_contains, cost_wf, CostTable};
use crate::types::{ContractState, ContractView, EndGameEffect, FreeGameInfo, Game, GameError};
use crate::types::{GameJson, StartPolicy, DEFAULT_FREE_GAMES};
use crate::utils::{day_of, get_today_day, to_yocto_u8};

verus! {

/// Days elapsed since the Unix epoch.
pub type Day = u64;

/// A count of game credits; the ledger works in 16-bit amounts.
pub type GameAmount = u16;

/// Identifier of a game session, unique over the contract's lifetime.
pub type SeedId = u64;

/// A token amount in the smallest token unit.
pub type Balance = u128;

/// Milliseconds in one minute.
pub const MIN_MS: u64 = 60 * 1000;

/// The game-session vending contract: pricing table, per-account free and
/// paid credit ledgers, the global seed counter, and the per-account session
/// store, together with its configuration.
pub struct MazeGameBuyerContract {
    owner_id: String,
    cheddar_contract: String,
    game_costs: CostTable,
    user_remaining_free_games: AccountTable<FreeGameInfo>,
    user_remaining_paid_games: AccountTable<GameAmount>,
    seed_id: SeedId,
    min_deposit: Balance,
    ongoing_games: AccountTable<Game>,
    maze_minter_contract: String,
    max_game_duration: u64,
    start_policy: StartPolicy,
}

impl View for MazeGameBuyerContract {
    type V = ContractView;

    closed spec fn view(&self) -> ContractView {
        ContractView {
            owner_id: self.owner_id@,
            cheddar_contract: self.cheddar_contract@,
            maze_minter_contract: self.maze_minter_contract@,
            game_costs: self.game_costs@,
            free_games: self.user_remaining_free_games@,
            paid_games: self.user_remaining_paid_games@,
            seed_id: self.seed_id,
            min_deposit: self.min_deposit,
            ongoing_games: self.ongoing_games@,
            max_game_duration: self.max_game_duration,
            start_policy: self.start_policy,
        }
    }
}

impl MazeGameBuyerContract {
    /// The pricing table and the backing tables are well formed.
    pub closed spec fn wf(&self) -> bool {
        &&& cost_wf(self.game_costs@)
        &&& self.user_remaining_free_games.wf()
        &&& self.user_remaining_paid_games.wf()
        &&& self.ongoing_games.wf()
    }

    /// A fresh contract: two default price tiers, empty ledgers, seed counter
    /// at zero, a three-minute session limit, and the forfeit start policy.
    pub fn new(owner_id: String, cheddar_contract: String, maze_minter_contract: String) -> (r:
        Self)
        ensures
            r.wf(),
            r@ == (ContractView {
                owner_id: owner_id@,
                cheddar_contract: cheddar_contract@,
                maze_minter_contract: maze_minter_contract@,
                game_costs: seq![
                    (1u8, 15_000_000_000_000_000_000_000_000u128),
                    (10u8, 14_000_000_000_000_000_000_000_000u128),
                ],
                free_games: Map::<Seq<char>, FreeGameInfo>::empty(),
                paid_games: Map::<Seq<char>, GameAmount>::empty(),
                seed_id: 0,
                min_deposit: 1_000_000_000_000_000_000_000,
                ongoing_games: Map::<Seq<char>, Game>::empty(),
                max_game_duration: (3 * MIN_MS) as u64,
                start_policy: StartPolicy::ForfeitExisting,
            }),
    {
        let mut game_costs = CostTable::new();
        game_costs.insert(1, to_yocto_u8(15));
        game_costs.insert(10, to_yocto_u8(14));
        proof {
            assert(game_costs@ =~= seq![
                (1u8, 15_000_000_000_000_000_000_000_000u128),
                (10u8, 14_000_000_000_000_000_000_000_000u128),
            ]);
        }
        let r = MazeGameBuyerContract {
            owner_id,
            cheddar_contract,
            game_costs,
            user_remaining_free_games: AccountTable::new(),
            user_remaining_paid_games: AccountTable::new(),
            seed_id: 0u64,
            min_deposit: 1_000_000_000_000_000_000_000,
            ongoing_games: AccountTable::new(),
            maze_minter_contract,
            max_game_duration: 3 * MIN_MS,
            start_policy: StartPolicy::ForfeitExisting,
        };
        r
    }

    /// The configured payment-token contract.
    pub fn get_cheddar_contract(&self) -> (r: String)
        ensures
            r@ == self@.cheddar_contract,
    {
        self.cheddar_contract.clone()
    }

    /// Owner-only: points the contract at another payment token.
    pub fn set_cheddar_contract(&mut self, caller: &String, cheddar_contract: String) -> (r:
        Result<(), GameError>)
        requires
            old(self).wf(),
        ensures
            final(self).wf(),
            caller@ != old(self)@.owner_id ==> r == Err::<(), GameError>(
                GameError::UnauthorizedCaller,
            ) && final(self)@ == old(self)@,
            caller@ == old(self)@.owner_id ==> r == Ok::<(), GameError>(()) && final(self)@
                == (ContractView { cheddar_contract: cheddar_contract@, ..old(self)@ }),
    {
        if !self.is_owner(caller) {
            return Err(GameError::UnauthorizedCaller);
        }
        self.cheddar_contract = cheddar_contract;
        Ok(())
    }

    /// Owner-only: points the contract at another mint service.
    pub fn set_maze_minter_contract(&mut self, caller: &String, maze_minter_contract: String) -> (r:
        Result<(), GameError>)
        requires
            old(self).wf(),
        ensures
            final(self).wf(),
            caller@ != old(self)@.owner_id ==> r == Err::<(), GameError>(
                GameError::UnauthorizedCaller,
            ) && final(self)@ == old(self)@,
            caller@ == old(self)@.owner_id ==> r == Ok::<(), GameError>(()) && final(self)@
                == (ContractView { maze_minter_contract: maze_minter_contract@, ..old(self)@ }),
    {
        if !self.is_owner(caller) {
            return Err(GameError::UnauthorizedCaller);
        }
        self.maze_minter_contract = maze_minter_contract;
        Ok(())
    }

    /// Owner-only: sets the session duration limit, given in seconds.
    pub fn set_max_game_duration(&mut self, caller: &String, game_duration_seconds: u64) -> (r:
        Result<(), GameError>)
        requires
            old(self).wf(),
            game_duration_seconds <= u64::MAX / 1000,
        ensures
            final(self).wf(),
            caller@ != old(self)@.owner_id ==> r == Err::<(), GameError>(
                GameError::UnauthorizedCaller,
            ) && final(self)@ == old(self)@,
            caller@ == old(self)@.owner_id ==> r == Ok::<(), GameError>(()) && final(self)@
                == (ContractView {
                max_game_duration: (game_duration_seconds * 1000) as u64,
                ..old(self)@
            }),
    {
        if !self.is_owner(caller) {
            return Err(GameError::UnauthorizedCaller);
        }
        self.max_game_duration = game_duration_seconds * 1000;
        Ok(())
    }

    /// Owner-only: chooses how a start request treats an unexpired session.
    pub fn set_start_policy(&mut self, caller: &String, policy: StartPolicy) -> (r: Result<
        (),
        GameError,
    >)
        requires
            old(self).wf(),
        ensures
            final(self).wf(),
            caller@ != old(self)@.owner_id ==> r == Err::<(), GameError>(
                GameError::UnauthorizedCaller,
            ) && final(self)@ == old(self)@,
            caller@ == old(self)@.owner_id ==> r == Ok::<(), GameError>(()) && final(self)@
                == (ContractView { start_policy: policy, ..old(self)@ }),
    {
        if !self.is_owner(caller) {
            return Err(GameError::UnauthorizedCaller);
        }
        self.start_policy = policy;
        Ok(())
    }

    /// The contract never validates a session this way; kept for interface
    /// compatibility.
    pub fn validate_ongoing_game(self) -> (r: bool)
        ensures
            r == false,
    {
        false
    }

    /// Free games the account can still play at `now_ms`: the amount stored
    /// today, or the daily grant. Reading never mutates the ledger.
    pub fn get_user_remaining_free_games(&self, account_id: &String, now_ms: u64) -> (r: GameAmount)
        requires
            self.wf(),
        ensures
            r == self@.remaining_free(account_id@, now_ms),
    {
        let day = get_today_day(now_ms);
        match self.user_remaining_free_games.get(account_id) {
            Some(info) => if info.day == day {
                info.amount
            } else {
                DEFAULT_FREE_GAMES
            },
            None => DEFAULT_FREE_GAMES,
        }
    }

    /// Owner-only: grants the account one more free game for today,
    /// materialising today's lazy reset.
    pub fn give_free_game_to_user(&mut self, caller: &String, account_id: String, now_ms: u64) -> (r:
        Result<(), GameError>)
        requires
            old(self).wf(),
            caller@ == old(self)@.owner_id ==> old(self)@.remaining_free(account_id@, now_ms)
                < GameAmount::MAX,
        ensures
            final(self).wf(),
            caller@ != old(self)@.owner_id ==> r == Err::<(), GameError>(
                GameError::UnauthorizedCaller,
            ) && final(self)@ == old(self)@,
            caller@ == old(self)@.owner_id ==> r == Ok::<(), GameError>(()) && final(self)@
                == (ContractView {
                free_games: old(self)@.free_games.insert(
                    account_id@,
                    FreeGameInfo {
                        day: day_of(now_ms),
                        amount: (old(self)@.remaining_free(account_id@, now_ms) + 1) as GameAmount,
                    },
                ),
                ..old(self)@
            }),
    {
        if !self.is_owner(caller) {
            return Err(GameError::UnauthorizedCaller);
        }
        let day = get_today_day(now_ms);
        let user_remaining_free_games = self.get_user_remaining_free_games(&account_id, now_ms);
        self.user_remaining_free_games.insert(
            account_id,
            FreeGameInfo { day, amount: user_remaining_free_games + 1 },
        );
        Ok(())
    }

    /// Paid games standing to the account's credit.
    pub fn get_user_remaining_paid_games(&self, account_id: &String) -> (r: GameAmount)
        requires
            self.wf(),
        ensures
            r == self@.remaining_paid(account_id@),
    {
        match self.user_remaining_paid_games.get(account_id) {
            Some(amount) => amount,
            None => 0,
        }
    }

    /// Credits `amount` bought games to the account.
    fn add_games_to_user(&mut self, account_id: String, amount: GameAmount)
        requires
            old(self).wf(),
            old(self)@.remaining_paid(account_id@) + amount <= GameAmount::MAX,
        ensures
            final(self).wf(),
            final(self)@ == (ContractView {
                paid_games: old(self)@.paid_games.insert(
                    account_id@,
                    (old(self)@.remaining_paid(account_id@) + amount) as GameAmount,
                ),
                ..old(self)@
            }),
    {
        let user_remaining_paid_games = self.get_user_remaining_paid_games(&account_id);
        let new_remaining_paid_games = user_remaining_paid_games + amount;
        self.user_remaining_paid_games.insert(account_id, new_remaining_paid_games);
    }

    /// The account's free and paid games remaining at `now_ms`.
    pub fn get_user_remaining_games(&self, account_id: &String, now_ms: u64) -> (r: (
        GameAmount,
        GameAmount,
    ))
        requires
            self.wf(),
        ensures
            r.0 == self@.remaining_free(account_id@, now_ms),
            r.1 == self@.remaining_paid(account_id@),
    {
        (
            self.get_user_remaining_free_games(account_id, now_ms),
            self.get_user_remaining_paid_games(account_id),
        )
    }

    /// Consumes one credit: a free game if any is left today, else a paid one.
    fn decrease_game(&mut self, account_id: String, now_ms: u64)
        requires
            old(self).wf(),
            old(self)@.remaining_free(account_id@, now_ms) > 0 || old(self)@.remaining_paid(
                account_id@,
            ) > 0,
        ensures
            final(self).wf(),
            final(self)@ == old(self)@.consume_one(account_id@, now_ms),
    {
        let (remaining_free_games, remaining_paid_games) = self.get_user_remaining_games(
            &account_id,
            now_ms,
        );
        if remaining_free_games > 0 {
            self.user_remaining_free_games.insert(
                account_id,
                FreeGameInfo { day: get_today_day(now_ms), amount: remaining_free_games - 1 },
            );
        } else {
            let new_remaining_paid_games = remaining_paid_games - 1;
            self.user_remaining_paid_games.insert(account_id, new_remaining_paid_games);
        }
    }

    /// Owner-only: prices one game at `value` for purchases of `key` games at
    /// once. The table holds at most four tiers; overwriting never fails.
    pub fn insert_game_cost(&mut self, caller: &String, key: u8, value: Balance) -> (r: Result<
        (),
        GameError,
    >)
        requires
            old(self).wf(),
            key > 0,
            value > 0,
        ensures
            final(self).wf(),
            caller@ != old(self)@.owner_id ==> r == Err::<(), GameError>(
                GameError::UnauthorizedCaller,
            ) && final(self)@ == old(self)@,
            caller@ == old(self)@.owner_id && !cost_contains(old(self)@.game_costs, key) && old(
                self,
            )@.game_costs.len() >= costs::MAX_COST_ENTRIES ==> r == Err::<(), GameError>(
                GameError::CapacityExceeded,
            ) && final(self)@ == old(self)@,
            caller@ == old(self)@.owner_id && cost_contains(old(self)@.game_costs, key) ==> r
                == Ok::<(), GameError>(()) && final(self)@ == (ContractView {
                game_costs: old(self)@.game_costs.update(
                    costs::cost_index(old(self)@.game_costs, key),
                    (key, value),
                ),
                ..old(self)@
            }),
            caller@ == old(self)@.owner_id && !cost_contains(old(self)@.game_costs, key) && old(
                self,
            )@.game_costs.len() < costs::MAX_COST_ENTRIES ==> r == Ok::<(), GameError>(())
                && final(self)@ == (ContractView {
                game_costs: old(self)@.game_costs.push((key, value)),
                ..old(self)@
            }),
    {
        if !self.is_owner(caller) {
            return Err(GameError::UnauthorizedCaller);
        }
        if !self.game_costs.contains(key) && self.game_costs.len() >= costs::MAX_COST_ENTRIES {
            return Err(GameError::CapacityExceeded);
        }
        self.game_costs.insert(key, value);
        Ok(())
    }

    /// Owner-only: drops the price tier for `key`, keeping the others in
    /// order.
    pub fn remove_game_cost(&mut self, caller: &String, key: u8) -> (r: Result<(), GameError>)
        requires
            old(self).wf(),
        ensures
            final(self).wf(),
            caller@ != old(self)@.owner_id ==> r == Err::<(), GameError>(
                GameError::UnauthorizedCaller,
            ) && final(self)@ == old(self)@,
            caller@ == old(self)@.owner_id && !cost_contains(old(self)@.game_costs, key) ==> r
                == Err::<(), GameError>(GameError::NotFound) && final(self)@ == old(self)@,
            caller@ == old(self)@.owner_id && cost_contains(old(self)@.game_costs, key) ==> r
                == Ok::<(), GameError>(()) && final(self)@ == (ContractView {
                game_costs: old(self)@.game_costs.remove(
                    costs::cost_index(old(self)@.game_costs, key),
                ),
                ..old(self)@
            }),
    {
        if !self.is_owner(caller) {
            return Err(GameError::UnauthorizedCaller);
        }
        if !self.game_costs.contains(key) {
            return Err(GameError::NotFound);
        }
        self.game_costs.remove(key);
        Ok(())
    }

    /// The pricing table in iteration order, each tier as a pair of decimal
    /// strings: bundle size, then the price of one game at that size.
    pub fn get_games_costs(&self) -> (r: Vec<[String; 2]>)
        ensures
            r@.len() == self@.game_costs.len(),
            forall|i: int|
                0 <= i < r@.len() ==> (#[trigger] r@[i])@[0]@ == utils::dec_digits(
                    self@.game_costs[i].0 as nat,
                ) && r@[i]@[1]@ == utils::dec_digits(self@.game_costs[i].1 as nat),
    {
        let n = self.game_costs.len();
        let mut r: Vec<[String; 2]> = Vec::new();
        let mut i: usize = 0;
        while i < n
            invariant
                n == self@.game_costs.len(),
                i <= n,
                r@.len() == i,
                forall|j: int|
                    0 <= j < i ==> (#[trigger] r@[j])@[0]@ == utils::dec_digits(
                        self@.game_costs[j].0 as nat,
                    ) && r@[j]@[1]@ == utils::dec_digits(self@.game_costs[j].1 as nat),
            decreases n - i,
        {
            let (key, value) = self.game_costs.pair_at(i);
            let pair = [utils::u8_to_decimal(key), utils::u128_to_decimal(value)];
            r.push(pair);
            i += 1;
        }
        r
    }

    /// A snapshot of the whole configuration, token amounts in decimal.
    pub fn get_contract_state(&self) -> (r: ContractState)
        ensures
            r.owner_id@ == self@.owner_id,
            r.cheddar_contract@ == self@.cheddar_contract,
            r.maze_minter_contract@ == self@.maze_minter_contract,
            r.game_costs@.len() == self@.game_costs.len(),
            forall|i: int|
                0 <= i < r.game_costs@.len() ==> (#[trigger] r.game_costs@[i])@[0]@
                    == utils::dec_digits(self@.game_costs[i].0 as nat) && r.game_costs@[i]@[1]@
                    == utils::dec_digits(self@.game_costs[i].1 as nat),
            r.seed_id == self@.seed_id,
            r.min_deposit@ == utils::dec_digits(self@.min_deposit as nat),
            r.max_game_duration == self@.max_game_duration,
    {
        ContractState {
            owner_id: self.owner_id.clone(),
            cheddar_contract: self.cheddar_contract.clone(),
            maze_minter_contract: self.maze_minter_contract.clone(),
            game_costs: self.get_games_costs(),
            seed_id: self.seed_id,
            min_deposit: utils::u128_to_decimal(self.min_deposit),
            max_game_duration: self.max_game_duration,
        }
    }

    /// The account's session as seen at `now_ms`: `None` when none is stored
    /// or the stored one has expired (the record is masked, not deleted).
    /// A stored start time in the future is a clock inconsistency.
    pub fn get_user_ongoing_game(&self, account_id: String, now_ms: u64) -> (r: Result<
        Option<GameJson>,
        GameError,
    >)
        requires
            self.wf(),
        ensures
            !self@.clock_ok(account_id@, now_ms) ==> r == Err::<Option<GameJson>, GameError>(
                GameError::ClockInconsistency,
            ),
            self@.clock_ok(account_id@, now_ms) ==> r == Ok::<Option<GameJson>, GameError>(
                self@.active_game(account_id@, now_ms),
            ),
    {
        match self.ongoing_games.get(&account_id) {
            None => Ok(None),
            Some(ongoing_game) => {
                if now_ms < ongoing_game.start_time {
                    return Err(GameError::ClockInconsistency);
                }
                if now_ms - ongoing_game.start_time >= self.max_game_duration {
                    Ok(None)
                } else {
                    Ok(
                        Some(
                            GameJson {
                                seed_id: ongoing_game.seed_id,
                                start_time: ongoing_game.start_time,
                            },
                        ),
                    )
                }
            },
        }
    }

    /// Ends the account's session, whoever asks: clears the stored record and
    /// reports whether a reward mint is owed. With no unexpired session the
    /// call fails and nothing changes.
    fn internal_end_game(
        &mut self,
        account_id: String,
        amount: Balance,
        referral: Option<String>,
        now_ms: u64,
    ) -> (r: Result<EndGameEffect, GameError>)
        requires
            old(self).wf(),
        ensures
            final(self).wf(),
            !old(self)@.clock_ok(account_id@, now_ms) ==> r == Err::<EndGameEffect, GameError>(
                GameError::ClockInconsistency,
            ) && final(self)@ == old(self)@,
            old(self)@.clock_ok(account_id@, now_ms) && old(self)@.active_game(
                account_id@,
                now_ms,
            ).is_none() ==> r == Err::<EndGameEffect, GameError>(GameError::NoActiveSession)
                && final(self)@ == old(self)@,
            old(self)@.clock_ok(account_id@, now_ms) && old(self)@.active_game(
                account_id@,
                now_ms,
            ).is_some() ==> final(self)@ == (ContractView {
                ongoing_games: old(self)@.ongoing_games.remove(account_id@),
                ..old(self)@
            }) && r == Ok::<EndGameEffect, GameError>(
                if amount > 0 {
                    EndGameEffect::Mint { recipient: account_id, amount, referral }
                } else {
                    EndGameEffect::NoMint
                },
            ),
    {
        let ongoing_game = match self.get_user_ongoing_game(account_id.clone(), now_ms) {
            Ok(g) => g,
            Err(e) => {
                return Err(e);
            },
        };
        if ongoing_game.is_none() {
            return Err(GameError::NoActiveSession);
        }
        self.ongoing_games.remove(&account_id);
        if amount > 0 {
            Ok(EndGameEffect::Mint { recipient: account_id, amount, referral })
        } else {
            Ok(EndGameEffect::NoMint)
        }
    }

    /// Owner-only: ends the account's session. A positive `amount` asks the
    /// surroundings to invoke the mint service; the session is cleared either
    /// way, before any mint is dispatched.
    pub fn end_game(
        &mut self,
        caller: &String,
        account_id: String,
        amount: Balance,
        referral: Option<String>,
        now_ms: u64,
    ) -> (r: Result<EndGameEffect, GameError>)
        requires
            old(self).wf(),
        ensures
            final(self).wf(),
            caller@ != old(self)@.owner_id ==> r == Err::<EndGameEffect, GameError>(
                GameError::UnauthorizedCaller,
            ) && final(self)@ == old(self)@,
            caller@ == old(self)@.owner_id && !old(self)@.clock_ok(account_id@, now_ms) ==> r
                == Err::<EndGameEffect, GameError>(GameError::ClockInconsistency) && final(self)@
                == old(self)@,
            caller@ == old(self)@.owner_id && old(self)@.clock_ok(account_id@, now_ms) && old(
                self,
            )@.active_game(account_id@, now_ms).is_none() ==> r == Err::<EndGameEffect, GameError>(
                GameError::NoActiveSession,
            ) && final(self)@ == old(self)@,
            caller@ == old(self)@.owner_id && old(self)@.clock_ok(account_id@, now_ms) && old(
                self,
            )@.active_game(account_id@, now_ms).is_some() ==> final(self)@ == (ContractView {
                ongoing_games: old(self)@.ongoing_games.remove(account_id@),
                ..old(self)@
            }) && r == Ok::<EndGameEffect, GameError>(
                if amount > 0 {
                    EndGameEffect::Mint { recipient: account_id, amount, referral }
                } else {
                    EndGameEffect::NoMint
                },
            ),
    {
        if !self.is_owner(caller) {
            return Err(GameError::UnauthorizedCaller);
        }
        self.internal_end_game(account_id, amount, referral, now_ms)
    }

    /// Starts a session for `account_id`: checks the attached deposit and the
    /// credit balance, consumes one credit, advances the global seed counter,
    /// stores the new session, and returns its seed. An unexpired session is
    /// forfeited or refused according to the start policy.
    pub fn get_seed_id(&mut self, account_id: String, now_ms: u64, attached_deposit: Balance) -> (r:
        Result<SeedId, GameError>)
        requires
            old(self).wf(),
            old(self)@.seed_id < SeedId::MAX,
        ensures
            final(self).wf(),
            !old(self)@.clock_ok(account_id@, now_ms) ==> r == Err::<SeedId, GameError>(
                GameError::ClockInconsistency,
            ) && final(self)@ == old(self)@,
            old(self)@.clock_ok(account_id@, now_ms) && old(self)@.start_policy
                == StartPolicy::RejectActive && old(self)@.active_game(
                account_id@,
                now_ms,
            ).is_some() ==> r == Err::<SeedId, GameError>(GameError::SessionAlreadyActive)
                && final(self)@ == old(self)@,
            old(self)@.clock_ok(account_id@, now_ms) && (old(self)@.start_policy
                == StartPolicy::ForfeitExisting || old(self)@.active_game(
                account_id@,
                now_ms,
            ).is_none()) ==> {
                &&& attached_deposit < old(self)@.min_deposit ==> r == Err::<SeedId, GameError>(
                    GameError::InsufficientDeposit,
                ) && final(self)@ == old(self)@
                &&& attached_deposit >= old(self)@.min_deposit && old(self)@.remaining_free(
                    account_id@,
                    now_ms,
                ) == 0 && old(self)@.remaining_paid(account_id@) == 0 ==> r == Err::<
                    SeedId,
                    GameError,
                >(GameError::InsufficientCredit) && final(self)@ == old(self)@
                &&& attached_deposit >= old(self)@.min_deposit && (old(self)@.remaining_free(
                    account_id@,
                    now_ms,
                ) > 0 || old(self)@.remaining_paid(account_id@) > 0) ==> r == Ok::<
                    SeedId,
                    GameError,
                >((old(self)@.seed_id + 1) as SeedId) && final(self)@ == old(self)@.start_session(
                    account_id@,
                    now_ms,
                ) && ContractView::session_started(old(self)@, final(self)@, r.unwrap())
            },
    {
        let ghost a = account_id@;
        let user_ongoing_game = match self.get_user_ongoing_game(account_id.clone(), now_ms) {
            Ok(g) => g,
            Err(e) => {
                return Err(e);
            },
        };
        if user_ongoing_game.is_some() && self.start_policy == StartPolicy::RejectActive {
            return Err(GameError::SessionAlreadyActive);
        }
        if attached_deposit < self.min_deposit {
            return Err(GameError::InsufficientDeposit);
        }
        let (remaining_free_games, remaining_paid_games) = self.get_user_remaining_games(
            &account_id,
            now_ms,
        );
        if remaining_free_games == 0 && remaining_paid_games == 0 {
            return Err(GameError::InsufficientCredit);
        }
        self.decrease_game(account_id.clone(), now_ms);
        self.seed_id = self.seed_id + 1;
        self.ongoing_games.insert(
            account_id,
            Game { seed_id: self.seed_id, start_time: now_ms, is_ending_game: false },
        );
        proof {
            assert(self@ =~= old(self)@.start_session(a, now_ms));
        }
        Ok(self.seed_id)
    }

    /// What the mint callback reports once the mint's outcome is known.
    pub fn on_mint_callback(&self, mint_succeeded: bool) -> (r: String)
        ensures
            mint_succeeded ==> r@ == "Minting successful"@,
            !mint_succeeded ==> r@ == "Minting failed"@,
    {
        if mint_succeeded {
            "Minting successful".to_owned()
        } else {
            "Minting failed".to_owned()
        }
    }

    /// Upgrades a stored state of the previous schema: every ledger and
    /// session entry is preserved, and the session duration limit that the
    /// old schema lacked gets its default of three minutes.
    pub fn migrate(old_state: OldMazeGameBuyerContract) -> (r: Self)
        requires
            old_state.wf(),
        ensures
            r.wf(),
            r@ == (ContractView {
                owner_id: old_state.owner_id@,
                cheddar_contract: old_state.cheddar_contract@,
                maze_minter_contract: old_state.maze_minter_contract@,
                game_costs: old_state.game_costs@,
                free_games: old_state.user_remaining_free_games@,
                paid_games: old_state.user_remaining_paid_games@,
                seed_id: old_state.seed_id,
                min_deposit: old_state.min_deposit,
                ongoing_games: old_state.ongoing_games@,
                max_game_duration: (3 * MIN_MS) as u64,
                start_policy: StartPolicy::ForfeitExisting,
            }),
    {
        let r = MazeGameBuyerContract {
            owner_id: old_state.owner_id,
            cheddar_contract: old_state.cheddar_contract,
            game_costs: old_state.game_costs,
            user_remaining_free_games: old_state.user_remaining_free_games,
            user_remaining_paid_games: old_state.user_remaining_paid_games,
            seed_id: old_state.seed_id,
            min_deposit: old_state.min_deposit,
            ongoing_games: old_state.ongoing_games,
            maze_minter_contract: old_state.maze_minter_contract,
            max_game_duration: 3 * MIN_MS,
            start_policy: StartPolicy::ForfeitExisting,
        };
        r
    }
}

impl MazeGameBuyerContract {
    /// Reassembles a contract from its parts, as when state is read back
    /// from storage.
    pub fn from_parts(
        owner_id: String,
        cheddar_contract: String,
        game_costs: CostTable,
        user_remaining_free_games: AccountTable<FreeGameInfo>,
        user_remaining_paid_games: AccountTable<GameAmount>,
        seed_id: SeedId,
        min_deposit: Balance,
        ongoing_games: AccountTable<Game>,
        maze_minter_contract: String,
        max_game_duration: u64,
        start_policy: StartPolicy,
    ) -> (r: Self)
        requires
            cost_wf(game_costs@),
            user_remaining_free_games.wf(),
            user_remaining_paid_games.wf(),
            ongoing_games.wf(),
        ensures
            r.wf(),
            r@ == (ContractView {
                owner_id: owner_id@,
                cheddar_contract: cheddar_contract@,
                maze_minter_contract: maze_minter_contract@,
                game_costs: game_costs@,
                free_games: user_remaining_free_games@,
                paid_games: user_remaining_paid_games@,
                seed_id: seed_id,
                min_deposit: min_deposit,
                ongoing_games: ongoing_games@,
                max_game_duration: max_game_duration,
                start_policy: start_policy,
            }),
    {
        MazeGameBuyerContract {
            owner_id,
            cheddar_contract,
            game_costs,
            user_remaining_free_games,
            user_remaining_paid_games,
            seed_id,
            min_deposit,
            ongoing_games,
            maze_minter_contract,
            max_game_duration,
            start_policy,
        }
    }

    /// The owner's account name.
    pub fn get_owner_id(&self) -> (r: &String)
        ensures
            r@ == self@.owner_id,
    {
        &self.owner_id
    }

    /// The configured mint-service contract.
    pub fn get_maze_minter_contract(&self) -> (r: &String)
        ensures
            r@ == self@.maze_minter_contract,
    {
        &self.maze_minter_contract
    }

    /// The deposit a start request must attach.
    pub fn get_min_deposit(&self) -> (r: Balance)
        ensures
            r == self@.min_deposit,
    {
        self.min_deposit
    }

    /// The session duration limit in milliseconds.
    pub fn get_max_game_duration(&self) -> (r: u64)
        ensures
            r == self@.max_game_duration,
    {
        self.max_game_duration
    }

    /// How a start request treats an unexpired session.
    pub fn get_start_policy(&self) -> (r: StartPolicy)
        ensures
            r == self@.start_policy,
    {
        self.start_policy
    }

    /// The last seed handed out.
    pub fn current_seed_id(&self) -> (r: SeedId)
        ensures
            r == self@.seed_id,
    {
        self.seed_id
    }

    /// The pricing table's entries in iteration order, for storage.
    pub fn game_cost_entries(&self) -> (r: &Vec<(u8, Balance)>)
        ensures
            r@ == self@.game_costs,
    {
        self.game_costs.entries()
    }

    /// The free-game ledger's entries, for storage.
    pub fn free_game_entries(&self) -> (r: &Vec<(String, FreeGameInfo)>)
        requires
            self.wf(),
        ensures
            forall|i: int|
                0 <= i < r@.len() ==> self@.free_games.contains_key(#[trigger] r@[i].0@)
                    && self@.free_games[r@[i].0@] == r@[i].1,
            forall|k: Seq<char>|
                self@.free_games.contains_key(k) ==> exists|i: int|
                    0 <= i < r@.len() && r@[i].0@ == k,
    {
        self.user_remaining_free_games.entries()
    }

    /// The paid-game ledger's entries, for storage.
    pub fn paid_game_entries(&self) -> (r: &Vec<(String, GameAmount)>)
        requires
            self.wf(),
        ensures
            forall|i: int|
                0 <= i < r@.len() ==> self@.paid_games.contains_key(#[trigger] r@[i].0@)
                    && self@.paid_games[r@[i].0@] == r@[i].1,
            forall|k: Seq<char>|
                self@.paid_games.contains_key(k) ==> exists|i: int|
                    0 <= i < r@.len() && r@[i].0@ == k,
    {
        self.user_remaining_paid_games.entries()
    }

    /// The session store's entries, for storage.
    pub fn ongoing_game_entries(&self) -> (r: &Vec<(String, Game)>)
        requires
            self.wf(),
        ensures
            forall|i: int|
                0 <= i < r@.len() ==> self@.ongoing_games.contains_key(#[trigger] r@[i].0@)
                    && self@.ongoing_games[r@[i].0@] == r@[i].1,
            forall|k: Seq<char>|
                self@.ongoing_games.contains_key(k) ==> exists|i: int|
                    0 <= i < r@.len() && r@[i].0@ == k,
    {
        self.ongoing_games.entries()
    }
}

/// The previous schema of the persisted state: the same fields except the
/// session duration limit and the start policy, which later schemas added.
pub struct OldMazeGameBuyerContract {
    pub owner_id: String,
    pub cheddar_contract: String,
    pub game_costs: CostTable,
    pub user_remaining_free_games: AccountTable<FreeGameInfo>,
    pub user_remaining_paid_games: AccountTable<GameAmount>,
    pub seed_id: SeedId,
    pub min_deposit: Balance,
    pub ongoing_games: AccountTable<Game>,
    pub maze_minter_contract: String,
}

impl OldMazeGameBuyerContract {
    /// The pricing table and the backing tables are well formed.
    pub open spec fn wf(&self) -> bool {
        &&& cost_wf(self.game_costs@)
        &&& self.user_remaining_free_games.wf()
        &&& self.user_remaining_paid_games.wf()
        &&& self.ongoing_games.wf()
    }
}

} // verus!
