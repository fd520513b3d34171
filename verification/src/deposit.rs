//! The payment converter: a token deposit reported by the payment token is
//! turned into paid game credits. Tiers are scanned in table iteration order
//! and the scan stops at the first tier that does not qualify, even when a
//! later tier still would — observable behaviour that is kept as it is.

use vstd::prelude::*;

use crate::costs::{cost_contains, cost_entry_ok, cost_index, cost_price, cost_wf};
use crate::types::{ContractView, GameError};
use crate::utils::safe_u128_to_u16;
use crate::{Balance, GameAmount, MazeGameBuyerContract};

verus! {

/// The tier `entry` qualifies for `amount`: the amount spread over the
/// bundle's games reaches the tier's per-game price.
pub open spec fn tier_qualifies(entry: (u8, u128), amount: u128) -> bool {
    amount as nat / entry.0 as nat >= entry.1
}

/// The bundle size the scan starting at `i` settles on, `0` when the entry
/// there already fails: the last entry of the longest qualifying prefix.
pub open spec fn scan_from(s: Seq<(u8, u128)>, amount: u128, i: int) -> u8
    decreases s.len() - i,
{
    if i < 0 || i >= s.len() {
        0
    } else if tier_qualifies(s[i], amount) {
        if scan_from(s, amount, i + 1) == 0 {
            s[i].0
        } else {
            scan_from(s, amount, i + 1)
        }
    } else {
        0
    }
}

/// The bundle size the payment converter picks for `amount`; `0` when the
/// very first tier fails and nothing is bought.
pub open spec fn selected_tier(s: Seq<(u8, u128)>, amount: u128) -> u8 {
    scan_from(s, amount, 0)
}

/// The games a deposit of `amount` buys at the selected tier's price.
pub open spec fn games_bought(s: Seq<(u8, u128)>, amount: u128) -> nat {
    amount as nat / cost_price(s, selected_tier(s, amount)) as nat
}

/// What is left of `amount` after the bought games are paid for; the caller
/// refunds it to the payer.
pub open spec fn purchase_remainder(s: Seq<(u8, u128)>, amount: u128) -> nat {
    amount as nat % cost_price(s, selected_tier(s, amount)) as nat
}

/// A nonzero scan result names a qualifying entry at or after `i`.
proof fn lemma_scan_from_in_table(s: Seq<(u8, u128)>, amount: u128, i: int)
    ensures
        scan_from(s, amount, i) != 0 ==> exists|j: int|
            i <= j < s.len() && s[j] == (scan_from(s, amount, i), #[trigger] s[j].1)
                && tier_qualifies(s[j], amount),
    decreases s.len() - i,
{
    if 0 <= i < s.len() && tier_qualifies(s[i], amount) {
        lemma_scan_from_in_table(s, amount, i + 1);
        if scan_from(s, amount, i + 1) == 0 {
            assert(s[i] == (scan_from(s, amount, i), s[i].1));
        }
    }
}

/// A nonzero selected tier is a bundle size of the table.
pub proof fn lemma_selected_tier_in_table(s: Seq<(u8, u128)>, amount: u128)
    ensures
        selected_tier(s, amount) != 0 ==> cost_contains(s, selected_tier(s, amount)),
{
    lemma_scan_from_in_table(s, amount, 0);
}

impl MazeGameBuyerContract {
    /// Scans the pricing table in iteration order, keeping the last
    /// qualifying tier and stopping at the first that fails.
    fn select_tier(&self, amount: Balance) -> (r: u8)
        requires
            self.wf(),
        ensures
            r == selected_tier(self@.game_costs, amount),
    {
        let ghost s = self@.game_costs;
        let n = self.game_costs.len();
        let mut game_promo_num: u8 = 0;
        let mut i: usize = 0;
        while i < n
            invariant_except_break
                n == s.len(),
                s == self@.game_costs,
                cost_wf(s),
                i <= n,
                selected_tier(s, amount) == if scan_from(s, amount, i as int) != 0 {
                    scan_from(s, amount, i as int)
                } else {
                    game_promo_num
                },
            ensures
                selected_tier(s, amount) == game_promo_num,
            decreases n - i,
        {
            let (key, value) = self.game_costs.pair_at(i);
            proof {
                assert(cost_entry_ok(s[i as int]));
            }
            if amount / (key as u128) >= value {
                game_promo_num = key;
                i += 1;
            } else {
                proof {
                    assert(scan_from(s, amount, (i as int)) == 0);
                }
                break;
            }
        }
        game_promo_num
    }

    /// A deposit of `amount` from `sender_id`, reported by the payment-token
    /// contract. The qualifying tier sets the per-game price; the bought
    /// games are credited to the sender's paid balance and the change is
    /// returned for the caller to refund. The opaque message of the transfer
    /// notification plays no part.
    pub fn ft_on_transfer(
        &mut self,
        caller: &String,
        sender_id: String,
        amount: Balance,
        _msg: String,
    ) -> (r: Result<Balance, GameError>)
        requires
            old(self).wf(),
            caller@ == old(self)@.cheddar_contract ==> cost_contains(old(self)@.game_costs, 1),
        ensures
            final(self).wf(),
            caller@ != old(self)@.cheddar_contract ==> r == Err::<Balance, GameError>(
                GameError::UnauthorizedCaller,
            ) && final(self)@ == old(self)@,
            caller@ == old(self)@.cheddar_contract && selected_tier(old(self)@.game_costs, amount)
                == 0 ==> r == Err::<Balance, GameError>(
                GameError::InsufficientPayment(cost_price(old(self)@.game_costs, 1)),
            ) && final(self)@ == old(self)@,
            caller@ == old(self)@.cheddar_contract && selected_tier(old(self)@.game_costs, amount)
                != 0 && old(self)@.remaining_paid(sender_id@) + games_bought(
                old(self)@.game_costs,
                amount,
            ) > GameAmount::MAX ==> r == Err::<Balance, GameError>(GameError::QuantityOverflow)
                && final(self)@ == old(self)@,
            caller@ == old(self)@.cheddar_contract && selected_tier(old(self)@.game_costs, amount)
                != 0 && old(self)@.remaining_paid(sender_id@) + games_bought(
                old(self)@.game_costs,
                amount,
            ) <= GameAmount::MAX ==> r == Ok::<Balance, GameError>(
                purchase_remainder(old(self)@.game_costs, amount) as u128,
            ) && final(self)@ == (ContractView {
                paid_games: old(self)@.paid_games.insert(
                    sender_id@,
                    (old(self)@.remaining_paid(sender_id@) + games_bought(
                        old(self)@.game_costs,
                        amount,
                    )) as GameAmount,
                ),
                ..old(self)@
            }),
    {
        let ghost s = self@.game_costs;
        if !(*caller == self.cheddar_contract) {
            return Err(GameError::UnauthorizedCaller);
        }
        let game_promo_num = self.select_tier(amount);
        let single_game_cost = self.get_game_cost(1);
        if game_promo_num == 0 {
            return Err(GameError::InsufficientPayment(single_game_cost));
        }
        proof {
            lemma_selected_tier_in_table(s, amount);
            assert(0 <= cost_index(s, game_promo_num) < s.len());
            assert(cost_entry_ok(s[cost_index(s, game_promo_num)]));
        }
        let game_cost = self.get_game_cost(game_promo_num);
        let games_bought_u128 = amount / game_cost;
        let games_bought_u16 = match safe_u128_to_u16(games_bought_u128) {
            Ok(g) => g,
            Err(_) => {
                return Err(GameError::QuantityOverflow);
            },
        };
        let remaining_paid = self.get_user_remaining_paid_games(&sender_id);
        if games_bought_u16 as u32 + remaining_paid as u32 > GameAmount::MAX as u32 {
            return Err(GameError::QuantityOverflow);
        }
        self.add_games_to_user(sender_id, games_bought_u16);
        let remaining_cheddar = amount % game_cost;
        Ok(remaining_cheddar)
    }
}

} // verus!
