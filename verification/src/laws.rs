//! The laws of the market, stated over the settlement outcomes and proved
//! once for all pools, traders, legs, amounts and prices: a committed trade
//! moves exactly the computed price and exactly the traded amount and nothing
//! else, every trade conserves the combined balances of pool and trader, a
//! trade commits exactly when the funds it moves are covered, a sell mirrors
//! a buy exactly, and a zero-amount trade is a successful no-op.

use vstd::prelude::*;

use crate::curve::linear_total;
use crate::engine::linear_buy_outcome;
use crate::engine::linear_sell_outcome;
use crate::settlement::buy_outcome;
use crate::settlement::sell_outcome;
use crate::state::AssetLeg;
use crate::state::PoolState;
use crate::state::TraderState;

verus! {

/// A committed buy changes the balances by exactly the trade: the reserve
/// gains the price the trader's payment loses, the trader's chosen leg gains
/// the amount pool custody loses, the other leg and the pool's identity are
/// untouched, and both combined totals — payment held by pool and trader,
/// and each leg held by pool and trader — are conserved.
pub proof fn lemma_buy_moves_exactly(
    pool: PoolState,
    trader: TraderState,
    leg: AssetLeg,
    amount: u64,
    price: u64,
)
    ensures
        (buy_outcome(pool, trader, leg, amount, price) matches Ok((p, t)) ==> {
            &&& p.reserve == pool.reserve + price
            &&& t.payment == trader.payment - price
            &&& p.leg_balance(leg) == pool.leg_balance(leg) - amount
            &&& t.leg_balance(leg) == trader.leg_balance(leg) + amount
            &&& p.leg_balance(other_leg(leg)) == pool.leg_balance(other_leg(leg))
            &&& t.leg_balance(other_leg(leg)) == trader.leg_balance(other_leg(leg))
            &&& p.identity() == pool.identity()
            &&& p.curve == pool.curve
            &&& p.reserve + t.payment == pool.reserve + trader.payment
            &&& p.balance_a + t.balance_a == pool.balance_a + trader.balance_a
            &&& p.balance_b + t.balance_b == pool.balance_b + trader.balance_b
        }),
{
}

/// A committed sell changes the balances by exactly the trade, mirroring
/// [`lemma_buy_moves_exactly`]: pool custody gains the amount, the reserve
/// pays out the price, and both combined totals are conserved.
pub proof fn lemma_sell_moves_exactly(
    pool: PoolState,
    trader: TraderState,
    leg: AssetLeg,
    amount: u64,
    price: u64,
)
    ensures
        (sell_outcome(pool, trader, leg, amount, price) matches Ok((p, t)) ==> {
            &&& p.reserve == pool.reserve - price
            &&& t.payment == trader.payment + price
            &&& p.leg_balance(leg) == pool.leg_balance(leg) + amount
            &&& t.leg_balance(leg) == trader.leg_balance(leg) - amount
            &&& p.leg_balance(other_leg(leg)) == pool.leg_balance(other_leg(leg))
            &&& t.leg_balance(other_leg(leg)) == trader.leg_balance(other_leg(leg))
            &&& p.identity() == pool.identity()
            &&& p.curve == pool.curve
            &&& p.reserve + t.payment == pool.reserve + trader.payment
            &&& p.balance_a + t.balance_a == pool.balance_a + trader.balance_a
            &&& p.balance_b + t.balance_b == pool.balance_b + trader.balance_b
        }),
{
}

/// A buy commits exactly when the trader can pay the full price, the pool
/// holds the traded amount in custody, and neither receiving balance would
/// overflow: payment is owed in full before the asset leaves custody, and
/// custody never releases more than it holds.
pub proof fn lemma_buy_succeeds_iff(
    pool: PoolState,
    trader: TraderState,
    leg: AssetLeg,
    amount: u64,
    price: u64,
)
    ensures
        buy_outcome(pool, trader, leg, amount, price) is Ok <==> {
            &&& trader.payment >= price
            &&& pool.reserve + price <= u64::MAX
            &&& pool.leg_balance(leg) >= amount
            &&& trader.leg_balance(leg) + amount <= u64::MAX
        },
{
}

/// A sell commits exactly when the trader holds the traded amount, the
/// reserve covers the full price, and neither receiving balance would
/// overflow: the mirror of [`lemma_buy_succeeds_iff`].
pub proof fn lemma_sell_succeeds_iff(
    pool: PoolState,
    trader: TraderState,
    leg: AssetLeg,
    amount: u64,
    price: u64,
)
    ensures
        sell_outcome(pool, trader, leg, amount, price) is Ok <==> {
            &&& trader.leg_balance(leg) >= amount
            &&& pool.leg_balance(leg) + amount <= u64::MAX
            &&& pool.reserve >= price
            &&& trader.payment + price <= u64::MAX
        },
{
}

/// The leg a trade does not touch.
pub open spec fn other_leg(leg: AssetLeg) -> AssetLeg {
    match leg {
        AssetLeg::A => AssetLeg::B,
        AssetLeg::B => AssetLeg::A,
    }
}

/// A sell immediately following a committed buy of the same amount, leg and
/// price always commits and restores pool and trader exactly to their
/// pre-buy balances: with no fee in the model, buy and sell are perfect
/// mirrors. Pricing both trades from the same pre-trade supply and strategy
/// yields the same price, so this covers a buy/sell pair quoted at unchanged
/// supply under either curve.
pub proof fn lemma_buy_then_sell_restores(
    pool: PoolState,
    trader: TraderState,
    leg: AssetLeg,
    amount: u64,
    price: u64,
)
    requires
        buy_outcome(pool, trader, leg, amount, price) matches Ok(_),
    ensures
        (buy_outcome(pool, trader, leg, amount, price) matches Ok((p, t)) ==> sell_outcome(
            p,
            t,
            leg,
            amount,
            price,
        ) == Ok::<(PoolState, TraderState), crate::state::SwapError>((pool, trader))),
{
}

/// A trade of zero units under the linear curve is a successful no-op in
/// either direction: the total price is zero, the operation commits, and no
/// balance changes.
pub proof fn lemma_zero_amount_linear_trade(
    pool: PoolState,
    trader: TraderState,
    leg: AssetLeg,
    supply: u64,
)
    ensures
        linear_total(pool.curve, supply, 0) == 0,
        linear_buy_outcome(pool, trader, leg, 0, supply) == Ok::<
            (PoolState, TraderState),
            crate::state::SwapError,
        >((pool, trader)),
        linear_sell_outcome(pool, trader, leg, 0, supply) == Ok::<
            (PoolState, TraderState),
            crate::state::SwapError,
        >((pool, trader)),
{
}

} // verus!
