//! Division of a task's price between the agent and the node, in exact
//! integer arithmetic.

use vstd::prelude::*;

verus! {

/// The whole price, as a revenue split: a split of `SPLIT_SCALE` gives
/// everything to the agent, a split of 0 everything to the node.
pub const SPLIT_SCALE: u32 = 1_000_000;

/// The agent's reward: the price times the split, rounded down.
pub open spec fn agent_reward_of(price: int, revenue_split: int) -> int {
    (price * revenue_split) / (SPLIT_SCALE as int)
}

/// The node's reward: what is left of the price after the agent's reward.
pub open spec fn node_reward_of(price: int, revenue_split: int) -> int {
    price - agent_reward_of(price, revenue_split)
}

/// The two rewards always add up to the price, and neither is negative nor
/// more than the price, for every price and every split in `[0, SPLIT_SCALE]`.
pub proof fn lemma_split_exact(price: u64, revenue_split: u32)
    requires
        revenue_split <= SPLIT_SCALE,
    ensures
        agent_reward_of(price as int, revenue_split as int) + node_reward_of(
            price as int,
            revenue_split as int,
        ) == price,
        0 <= agent_reward_of(price as int, revenue_split as int) <= price,
        0 <= node_reward_of(price as int, revenue_split as int) <= price,
{
    let p = price as int;
    let s = revenue_split as int;
    assert(0 <= p * s <= p * 1_000_000) by (nonlinear_arith)
        requires
            0 <= p,
            0 <= s <= 1_000_000,
    ;
    assert((p * s) / 1_000_000 <= (p * 1_000_000) / 1_000_000) by (nonlinear_arith)
        requires
            0 <= p * s <= p * 1_000_000,
    ;
    assert((p * 1_000_000) / 1_000_000 == p) by (nonlinear_arith);
    assert(0 <= (p * s) / 1_000_000) by (nonlinear_arith)
        requires
            0 <= p * s,
    ;
}

/// Splits `price` into the agent's reward and the node's reward.
pub fn split_price(price: u64, revenue_split: u32) -> (r: (u64, u64))
    requires
        revenue_split <= SPLIT_SCALE,
    ensures
        r.0 == agent_reward_of(price as int, revenue_split as int),
        r.1 == node_reward_of(price as int, revenue_split as int),
        r.0 + r.1 == price,
{
    proof {
        lemma_split_exact(price, revenue_split);
        let p = price as int;
        let s = revenue_split as int;
        assert(p * s <= 0xffff_ffff_ffff_ffff * 1_000_000) by (nonlinear_arith)
            requires
                0 <= p <= 0xffff_ffff_ffff_ffff,
                0 <= s <= 1_000_000,
        ;
    }
    let product: u128 = (price as u128) * (revenue_split as u128);
    let agent_reward: u64 = (product / (SPLIT_SCALE as u128)) as u64;
    (agent_reward, price - agent_reward)
}

} // verus!
