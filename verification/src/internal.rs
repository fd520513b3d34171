//! Internal helpers of the contract: the owner check and the pricing lookup
//! used by the payment converter.

use vstd::prelude::*;

use crate::costs::{cost_contains, cost_price};
use crate::{Balance, MazeGameBuyerContract};

verus! {

impl MazeGameBuyerContract {
    /// Whether `caller` is the contract's owner.
    pub fn is_owner(&self, caller: &String) -> (r: bool)
        ensures
            r == (caller@ == self@.owner_id),
    {
        *caller == self.owner_id
    }

    /// The price stored for bundle size `game_promo_num`.
    pub(crate) fn get_game_cost(&self, game_promo_num: u8) -> (r: Balance)
        requires
            self.wf(),
            cost_contains(self@.game_costs, game_promo_num),
        ensures
            r == cost_price(self@.game_costs, game_promo_num),
    {
        match self.game_costs.get(game_promo_num) {
            Some(price) => price,
            None => unreached(),
        }
    }
}

} // verus!
