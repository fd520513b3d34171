//! Data types of the contract and its mathematical view: the per-account
//! ledger records, the session record, errors, the start policy, and the
//! ghost `ContractView` over which every contract is stated.

use vstd::prelude::*;

use crate::costs::cost_wf;
use crate::utils::day_of;
use crate::{Balance, Day, GameAmount, SeedId};

verus! {

/// Free games granted to an account each day it plays.
pub const DEFAULT_FREE_GAMES: GameAmount = 5;

/// Free games remaining for one account, meaningful only for the stored day.
#[derive(Clone, Copy, PartialEq, Eq, Structural, Debug)]
pub struct FreeGameInfo {
    pub day: Day,
    pub amount: GameAmount,
}

/// A running game session.
#[derive(Clone, Copy, PartialEq, Eq, Structural, Debug)]
pub struct Game {
    pub seed_id: SeedId,
    pub start_time: u64,
    pub is_ending_game: bool,
}

impl Default for Game {
    fn default() -> (r: Self)
        ensures
            r == (Game { seed_id: 0, start_time: 0, is_ending_game: false }),
    {
        Game { seed_id: 0, start_time: 0, is_ending_game: false }
    }
}

/// The session record shown to callers of the query endpoint.
#[derive(Clone, Copy, PartialEq, Eq, Structural, Debug)]
pub struct GameJson {
    pub seed_id: SeedId,
    pub start_time: u64,
}

/// How a start request treats an existing unexpired session: forfeit it with
/// no reward, or refuse the request.
#[derive(Clone, Copy, PartialEq, Eq, Structural, Debug)]
pub enum StartPolicy {
    ForfeitExisting,
    RejectActive,
}

/// Why a call was refused. `InsufficientPayment` carries the price of a
/// single game, the least payment that buys anything.
#[derive(Clone, Copy, PartialEq, Eq, Structural, Debug)]
pub enum GameError {
    UnauthorizedCaller,
    InsufficientDeposit,
    InsufficientCredit,
    InsufficientPayment(Balance),
    QuantityOverflow,
    CapacityExceeded,
    NotFound,
    NoActiveSession,
    SessionAlreadyActive,
    ClockInconsistency,
}

/// What ending a session asks of the surroundings: invoke the mint service,
/// or nothing.
#[derive(Clone, PartialEq, Eq, Debug)]
pub enum EndGameEffect {
    Mint { recipient: String, amount: Balance, referral: Option<String> },
    NoMint,
}

/// A full-configuration snapshot, with token amounts rendered in decimal.
pub struct ContractState {
    pub owner_id: String,
    pub cheddar_contract: String,
    pub maze_minter_contract: String,
    pub game_costs: Vec<[String; 2]>,
    pub seed_id: SeedId,
    pub min_deposit: String,
    pub max_game_duration: u64,
}

/// The contract's state as mathematics: account names as character
/// sequences, ledgers and sessions as maps, the pricing table as a sequence
/// in iteration order.
#[verifier::ext_equal]
pub ghost struct ContractView {
    pub owner_id: Seq<char>,
    pub cheddar_contract: Seq<char>,
    pub maze_minter_contract: Seq<char>,
    pub game_costs: Seq<(u8, u128)>,
    pub free_games: Map<Seq<char>, FreeGameInfo>,
    pub paid_games: Map<Seq<char>, GameAmount>,
    pub seed_id: SeedId,
    pub min_deposit: Balance,
    pub ongoing_games: Map<Seq<char>, Game>,
    pub max_game_duration: u64,
    pub start_policy: StartPolicy,
}

impl ContractView {
    /// The pricing table is well formed.
    pub open spec fn wf(self) -> bool {
        cost_wf(self.game_costs)
    }

    /// Free games the account can still play at `now_ms`: the stored amount
    /// if it was written on the same day, else the daily grant. The reset is
    /// lazy: reads never mutate, a later write materialises today's day.
    pub open spec fn remaining_free(self, account: Seq<char>, now_ms: u64) -> GameAmount {
        if self.free_games.contains_key(account) {
            let info = self.free_games[account];
            if info.day == day_of(now_ms) {
                info.amount
            } else {
                DEFAULT_FREE_GAMES
            }
        } else {
            DEFAULT_FREE_GAMES
        }
    }

    /// Paid games standing to the account's credit.
    pub open spec fn remaining_paid(self, account: Seq<char>) -> GameAmount {
        if self.paid_games.contains_key(account) {
            self.paid_games[account]
        } else {
            0
        }
    }

    /// The stored session, if any, does not start in the future.
    pub open spec fn clock_ok(self, account: Seq<char>, now_ms: u64) -> bool {
        self.ongoing_games.contains_key(account) ==> self.ongoing_games[account].start_time
            <= now_ms
    }

    /// The session a query at `now_ms` reports: the stored one, unless none
    /// is stored or it has run for `max_game_duration` or longer.
    pub open spec fn active_game(self, account: Seq<char>, now_ms: u64) -> Option<GameJson> {
        if self.ongoing_games.contains_key(account) {
            let g = self.ongoing_games[account];
            if now_ms - g.start_time < self.max_game_duration {
                Some(GameJson { seed_id: g.seed_id, start_time: g.start_time })
            } else {
                None
            }
        } else {
            None
        }
    }

    /// One credit consumed at `now_ms`: a free game if any is left today,
    /// else a paid one. Meaningful only when some credit remains.
    pub open spec fn consume_one(self, account: Seq<char>, now_ms: u64) -> ContractView {
        if self.remaining_free(account, now_ms) > 0 {
            ContractView {
                free_games: self.free_games.insert(
                    account,
                    FreeGameInfo {
                        day: day_of(now_ms),
                        amount: (self.remaining_free(account, now_ms) - 1) as GameAmount,
                    },
                ),
                ..self
            }
        } else {
            ContractView {
                paid_games: self.paid_games.insert(
                    account,
                    (self.remaining_paid(account) - 1) as GameAmount,
                ),
                ..self
            }
        }
    }

    /// The state after a successful session start at `now_ms`: one credit
    /// consumed, the seed counter advanced, the new session stored.
    pub open spec fn start_session(self, account: Seq<char>, now_ms: u64) -> ContractView {
        ContractView {
            seed_id: (self.seed_id + 1) as SeedId,
            ongoing_games: self.ongoing_games.insert(
                account,
                Game {
                    seed_id: (self.seed_id + 1) as SeedId,
                    start_time: now_ms,
                    is_ending_game: false,
                },
            ),
            ..self.consume_one(account, now_ms)
        }
    }

    /// A successful start request moved `pre` to `post` and returned `seed`.
    pub open spec fn session_started(pre: ContractView, post: ContractView, seed: SeedId) -> bool {
        &&& post.seed_id == pre.seed_id + 1
        &&& seed == post.seed_id
    }
}

} // verus!
