//! Laws of the credit ledger and the session state machine, stated over the
//! contract's view and proved from the same spec functions the methods'
//! contracts use.

use vstd::prelude::*;

use crate::types::{ContractView, FreeGameInfo, GameJson, DEFAULT_FREE_GAMES};
use crate::utils::day_of;
use crate::{GameAmount, SeedId};

verus! {

/// An account with no prior activity has the daily grant of free games and
/// no paid games, whatever the day.
pub proof fn lemma_fresh_account_defaults(v: ContractView, account: Seq<char>, now_ms: u64)
    requires
        !v.free_games.contains_key(account),
        !v.paid_games.contains_key(account),
    ensures
        v.remaining_free(account, now_ms) == DEFAULT_FREE_GAMES,
        v.remaining_paid(account) == 0,
{
}

/// Granting a free game raises the balance read on the same day by exactly
/// one, and a read on any other day sees the daily grant again.
pub proof fn lemma_grant_free_then_query(
    v: ContractView,
    granted: ContractView,
    account: Seq<char>,
    now_ms: u64,
    later_ms: u64,
)
    requires
        v.remaining_free(account, now_ms) < GameAmount::MAX,
        granted == (ContractView {
            free_games: v.free_games.insert(
                account,
                FreeGameInfo {
                    day: day_of(now_ms),
                    amount: (v.remaining_free(account, now_ms) + 1) as GameAmount,
                },
            ),
            ..v
        }),
        day_of(later_ms) != day_of(now_ms),
    ensures
        granted.remaining_free(account, now_ms) == v.remaining_free(account, now_ms) + 1,
        granted.remaining_free(account, later_ms) == DEFAULT_FREE_GAMES,
{
}

/// Consuming a credit prefers the free balance: while any free game is left
/// today, the free balance drops by one and the paid ledger is untouched.
pub proof fn lemma_consume_prefers_free(v: ContractView, account: Seq<char>, now_ms: u64)
    requires
        v.remaining_free(account, now_ms) > 0,
    ensures
        v.consume_one(account, now_ms).paid_games == v.paid_games,
        v.consume_one(account, now_ms).remaining_paid(account) == v.remaining_paid(account),
        v.consume_one(account, now_ms).remaining_free(account, now_ms) == v.remaining_free(
            account,
            now_ms,
        ) - 1,
{
}

/// With no free game left, consuming a credit takes a paid one and leaves
/// the free ledger untouched.
pub proof fn lemma_consume_takes_paid(v: ContractView, account: Seq<char>, now_ms: u64)
    requires
        v.remaining_free(account, now_ms) == 0,
        v.remaining_paid(account) > 0,
    ensures
        v.consume_one(account, now_ms).free_games == v.free_games,
        v.consume_one(account, now_ms).remaining_paid(account) == v.remaining_paid(account) - 1,
{
}

/// Seeds of consecutive successful start requests are strictly increasing,
/// whatever the accounts: the counter is global.
pub proof fn lemma_seed_ids_strictly_increase(
    v0: ContractView,
    v1: ContractView,
    v2: ContractView,
    first_seed: SeedId,
    second_seed: SeedId,
)
    requires
        ContractView::session_started(v0, v1, first_seed),
        ContractView::session_started(v1, v2, second_seed),
    ensures
        first_seed < second_seed,
{
}

/// A successful start request hands out exactly the advanced global counter
/// and stores it in the account's new session.
pub proof fn lemma_start_session_seed(v: ContractView, account: Seq<char>, now_ms: u64)
    requires
        v.seed_id < SeedId::MAX,
    ensures
        ContractView::session_started(
            v,
            v.start_session(account, now_ms),
            v.start_session(account, now_ms).seed_id,
        ),
        v.start_session(account, now_ms).ongoing_games[account].seed_id == v.seed_id + 1,
        v.start_session(account, now_ms).active_game(account, now_ms)
            == Some(GameJson { seed_id: (v.seed_id + 1) as SeedId, start_time: now_ms })
            <==> v.max_game_duration > 0,
{
}

/// After a session is ended its account shows no active session, at any
/// query time.
pub proof fn lemma_end_session_clears(
    v: ContractView,
    ended: ContractView,
    account: Seq<char>,
    now_ms: u64,
)
    requires
        ended == (ContractView { ongoing_games: v.ongoing_games.remove(account), ..v }),
    ensures
        ended.active_game(account, now_ms).is_none(),
{
}

/// A session started at time `start` with duration limit `d` is reported up
/// to, and masked from, the moment `start + d`.
pub proof fn lemma_session_expiry(v: ContractView, account: Seq<char>, query_ms: u64)
    requires
        v.ongoing_games.contains_key(account),
        v.ongoing_games[account].start_time <= query_ms,
    ensures
        query_ms - v.ongoing_games[account].start_time >= v.max_game_duration
            ==> v.active_game(account, query_ms).is_none(),
        query_ms - v.ongoing_games[account].start_time < v.max_game_duration ==> v.active_game(
            account,
            query_ms,
        ) == Some(
            GameJson {
                seed_id: v.ongoing_games[account].seed_id,
                start_time: v.ongoing_games[account].start_time,
            },
        ),
{
}

} // verus!
