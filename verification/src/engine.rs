//! The swap engine: one atomic buy or one atomic sell against a pool. Each
//! operation prices the trade from the pre-trade circulating supply of the
//! acquired leg, then drives the two-leg settlement protocol to a commit, or
//! aborts it with no observable effect.

use vstd::prelude::*;

use crate::curve::linear_total;
use crate::curve::linear_total_price;
use crate::settlement::buy_outcome;
use crate::settlement::sell_outcome;
use crate::settlement::Direction;
use crate::settlement::SwapTransaction;
use crate::state::AssetLeg;
use crate::state::CustodyAuthority;
use crate::state::PoolState;
use crate::state::SwapError;
use crate::state::TraderState;

verus! {

/// The leg a trade selects: leg A when `swap_a` is set, leg B otherwise.
pub open spec fn leg_for(swap_a: bool) -> AssetLeg {
    if swap_a {
        AssetLeg::A
    } else {
        AssetLeg::B
    }
}

/// The outcome of a buy priced by the linear curve at the given supply: the
/// trade is rejected outright when the exact total price overflows the
/// settlement width, and otherwise settles at that price.
pub open spec fn linear_buy_outcome(
    pool: PoolState,
    trader: TraderState,
    leg: AssetLeg,
    amount: u64,
    supply: u64,
) -> Result<(PoolState, TraderState), SwapError> {
    if linear_total(pool.curve, supply, amount) > u64::MAX {
        Err(SwapError::ArithmeticOverflow)
    } else {
        buy_outcome(pool, trader, leg, amount, linear_total(pool.curve, supply, amount) as u64)
    }
}

/// The outcome of a sell priced by the linear curve at the given supply.
pub open spec fn linear_sell_outcome(
    pool: PoolState,
    trader: TraderState,
    leg: AssetLeg,
    amount: u64,
    supply: u64,
) -> Result<(PoolState, TraderState), SwapError> {
    if linear_total(pool.curve, supply, amount) > u64::MAX {
        Err(SwapError::ArithmeticOverflow)
    } else {
        sell_outcome(pool, trader, leg, amount, linear_total(pool.curve, supply, amount) as u64)
    }
}

/// The outcome of a buy at a quote the platform evaluated off-engine: a
/// missing quote means the evaluation overflowed or was not finite, and the
/// trade is rejected before any effect.
pub open spec fn quoted_buy_outcome(
    pool: PoolState,
    trader: TraderState,
    leg: AssetLeg,
    amount: u64,
    quoted_total: Option<u64>,
) -> Result<(PoolState, TraderState), SwapError> {
    match quoted_total {
        None => Err(SwapError::ArithmeticOverflow),
        Some(price) => buy_outcome(pool, trader, leg, amount, price),
    }
}

/// The outcome of a sell at a quote the platform evaluated off-engine.
pub open spec fn quoted_sell_outcome(
    pool: PoolState,
    trader: TraderState,
    leg: AssetLeg,
    amount: u64,
    quoted_total: Option<u64>,
) -> Result<(PoolState, TraderState), SwapError> {
    match quoted_total {
        None => Err(SwapError::ArithmeticOverflow),
        Some(price) => sell_outcome(pool, trader, leg, amount, price),
    }
}

/// Settles one buy at an already-computed total price: collects the price
/// into the reserve, releases the amount from pool custody under the pool's
/// own authority, and commits both effects as one unit. On any error the
/// balances are exactly as they were before the call.
pub fn settle_buy(
    pool: &mut PoolState,
    trader: &mut TraderState,
    auth: &CustodyAuthority,
    leg: AssetLeg,
    amount: u64,
    price: u64,
) -> (r: Result<(), SwapError>)
    requires
        auth.authorizes(*old(pool)),
    ensures
        (buy_outcome(*old(pool), *old(trader), leg, amount, price) matches Ok((p, t)) ==> r
            == Ok::<(), SwapError>(()) && *final(pool) == p && *final(trader) == t),
        (buy_outcome(*old(pool), *old(trader), leg, amount, price) matches Err(e) ==> r
            == Err::<(), SwapError>(e) && *final(pool) == *old(pool) && *final(trader) == *old(
            trader,
        )),
        final(pool).identity() == old(pool).identity(),
        final(pool).curve == old(pool).curve,
        final(pool).reserve + final(trader).payment == old(pool).reserve + old(trader).payment,
        final(pool).balance_a + final(trader).balance_a == old(pool).balance_a + old(
            trader,
        ).balance_a,
        final(pool).balance_b + final(trader).balance_b == old(pool).balance_b + old(
            trader,
        ).balance_b,
{
    let mut tx = SwapTransaction::begin(*pool, *trader, auth, Direction::Buy, leg, amount, price);
    match tx.collect() {
        Err(e) => {
            return Err(e);
        },
        Ok(()) => {},
    }
    match tx.release() {
        Err(e) => {
            return Err(e);
        },
        Ok(()) => {},
    }
    let (p, t) = tx.commit();
    *pool = p;
    *trader = t;
    Ok(())
}

/// Settles one sell at an already-computed total price: collects the amount
/// into pool custody, releases the price from the reserve under the pool's
/// own authority, and commits both effects as one unit. On any error the
/// balances are exactly as they were before the call.
pub fn settle_sell(
    pool: &mut PoolState,
    trader: &mut TraderState,
    auth: &CustodyAuthority,
    leg: AssetLeg,
    amount: u64,
    price: u64,
) -> (r: Result<(), SwapError>)
    requires
        auth.authorizes(*old(pool)),
    ensures
        (sell_outcome(*old(pool), *old(trader), leg, amount, price) matches Ok((p, t)) ==> r
            == Ok::<(), SwapError>(()) && *final(pool) == p && *final(trader) == t),
        (sell_outcome(*old(pool), *old(trader), leg, amount, price) matches Err(e) ==> r
            == Err::<(), SwapError>(e) && *final(pool) == *old(pool) && *final(trader) == *old(
            trader,
        )),
        final(pool).identity() == old(pool).identity(),
        final(pool).curve == old(pool).curve,
        final(pool).reserve + final(trader).payment == old(pool).reserve + old(trader).payment,
        final(pool).balance_a + final(trader).balance_a == old(pool).balance_a + old(
            trader,
        ).balance_a,
        final(pool).balance_b + final(trader).balance_b == old(pool).balance_b + old(
            trader,
        ).balance_b,
{
    let mut tx = SwapTransaction::begin(*pool, *trader, auth, Direction::Sell, leg, amount, price);
    match tx.collect() {
        Err(e) => {
            return Err(e);
        },
        Ok(()) => {},
    }
    match tx.release() {
        Err(e) => {
            return Err(e);
        },
        Ok(()) => {},
    }
    let (p, t) = tx.commit();
    *pool = p;
    *trader = t;
    Ok(())
}

/// One buy instruction: the pool, the buyer's balances, and the pre-trade
/// circulating supply of each leg's mint, all as the platform reports them
/// for this invocation.
#[derive(Clone, Copy, PartialEq, Eq, Structural, Debug)]
pub struct Buy {
    /// The pool traded against.
    pub pool: PoolState,
    /// The buyer's balances.
    pub buyer: TraderState,
    /// Circulating supply of leg A's mint before the trade.
    pub supply_a: u64,
    /// Circulating supply of leg B's mint before the trade.
    pub supply_b: u64,
}

impl Buy {
    /// The pre-trade supply of the selected leg's mint.
    pub open spec fn supply_of(self, swap_a: bool) -> u64 {
        if swap_a {
            self.supply_a
        } else {
            self.supply_b
        }
    }

    /// Buys `amount` units of the selected leg at the linear price for that
    /// leg's pre-trade supply. Collects the total price from the buyer into
    /// the reserve, then releases the amount from pool custody, atomically.
    pub fn buy_linear(&mut self, amount: u64, swap_a: bool) -> (r: Result<(), SwapError>)
        ensures
            final(self).supply_a == old(self).supply_a,
            final(self).supply_b == old(self).supply_b,
            (linear_buy_outcome(
                old(self).pool,
                old(self).buyer,
                leg_for(swap_a),
                amount,
                old(self).supply_of(swap_a),
            ) matches Ok((p, t)) ==> r == Ok::<(), SwapError>(()) && final(self).pool == p
                && final(self).buyer == t),
            (linear_buy_outcome(
                old(self).pool,
                old(self).buyer,
                leg_for(swap_a),
                amount,
                old(self).supply_of(swap_a),
            ) matches Err(e) ==> r == Err::<(), SwapError>(e) && final(self).pool == old(self).pool
                && final(self).buyer == old(self).buyer),
    {
        let supply = if swap_a {
            self.supply_a
        } else {
            self.supply_b
        };
        let config = self.pool.curve;
        let price = match linear_total_price(&config, supply, amount) {
            Ok(price) => price,
            Err(e) => {
                return Err(e);
            },
        };
        let leg = if swap_a {
            AssetLeg::A
        } else {
            AssetLeg::B
        };
        let auth = self.pool.derive_authority();
        let mut pool = self.pool;
        let mut buyer = self.buyer;
        let r = settle_buy(&mut pool, &mut buyer, &auth, leg, amount, price);
        self.pool = pool;
        self.buyer = buyer;
        r
    }

    /// Buys `amount` units of the selected leg at the exponential price for
    /// that leg's pre-trade supply. The platform evaluates the curve — ten
    /// payment units per unit at supply zero, growing as the exponential of
    /// the supply, truncated to an integer — and passes the result as
    /// `quoted_total`, or `None` when the evaluation overflowed or was not
    /// finite; a missing quote rejects the trade before any effect.
    pub fn buy_exponent(&mut self, amount: u64, swap_a: bool, quoted_total: Option<u64>) -> (r:
        Result<(), SwapError>)
        ensures
            final(self).supply_a == old(self).supply_a,
            final(self).supply_b == old(self).supply_b,
            (quoted_buy_outcome(
                old(self).pool,
                old(self).buyer,
                leg_for(swap_a),
                amount,
                quoted_total,
            ) matches Ok((p, t)) ==> r == Ok::<(), SwapError>(()) && final(self).pool == p
                && final(self).buyer == t),
            (quoted_buy_outcome(
                old(self).pool,
                old(self).buyer,
                leg_for(swap_a),
                amount,
                quoted_total,
            ) matches Err(e) ==> r == Err::<(), SwapError>(e) && final(self).pool == old(self).pool
                && final(self).buyer == old(self).buyer),
    {
        let price = match quoted_total {
            Some(price) => price,
            None => {
                return Err(SwapError::ArithmeticOverflow);
            },
        };
        let leg = if swap_a {
            AssetLeg::A
        } else {
            AssetLeg::B
        };
        let auth = self.pool.derive_authority();
        let mut pool = self.pool;
        let mut buyer = self.buyer;
        let r = settle_buy(&mut pool, &mut buyer, &auth, leg, amount, price);
        self.pool = pool;
        self.buyer = buyer;
        r
    }
}

/// One sell instruction, the mirror of [`Buy`]: the pool, the seller's
/// balances, and the pre-trade circulating supply of each leg's mint.
#[derive(Clone, Copy, PartialEq, Eq, Structural, Debug)]
pub struct Sell {
    /// The pool traded against.
    pub pool: PoolState,
    /// The seller's balances.
    pub seller: TraderState,
    /// Circulating supply of leg A's mint before the trade.
    pub supply_a: u64,
    /// Circulating supply of leg B's mint before the trade.
    pub supply_b: u64,
}

impl Sell {
    /// The pre-trade supply of the selected leg's mint.
    pub open spec fn supply_of(self, swap_a: bool) -> u64 {
        if swap_a {
            self.supply_a
        } else {
            self.supply_b
        }
    }

    /// Sells `amount` units of the selected leg at the linear price for that
    /// leg's pre-trade supply. Collects the amount into pool custody, then
    /// releases the total price from the reserve, atomically.
    pub fn sell_linear(&mut self, amount: u64, swap_a: bool) -> (r: Result<(), SwapError>)
        ensures
            final(self).supply_a == old(self).supply_a,
            final(self).supply_b == old(self).supply_b,
            (linear_sell_outcome(
                old(self).pool,
                old(self).seller,
                leg_for(swap_a),
                amount,
                old(self).supply_of(swap_a),
            ) matches Ok((p, t)) ==> r == Ok::<(), SwapError>(()) && final(self).pool == p
                && final(self).seller == t),
            (linear_sell_outcome(
                old(self).pool,
                old(self).seller,
                leg_for(swap_a),
                amount,
                old(self).supply_of(swap_a),
            ) matches Err(e) ==> r == Err::<(), SwapError>(e) && final(self).pool == old(self).pool
                && final(self).seller == old(self).seller),
    {
        let supply = if swap_a {
            self.supply_a
        } else {
            self.supply_b
        };
        let config = self.pool.curve;
        let price = match linear_total_price(&config, supply, amount) {
            Ok(price) => price,
            Err(e) => {
                return Err(e);
            },
        };
        let leg = if swap_a {
            AssetLeg::A
        } else {
            AssetLeg::B
        };
        let auth = self.pool.derive_authority();
        let mut pool = self.pool;
        let mut seller = self.seller;
        let r = settle_sell(&mut pool, &mut seller, &auth, leg, amount, price);
        self.pool = pool;
        self.seller = seller;
        r
    }

    /// Sells `amount` units of the selected leg at the exponential price for
    /// that leg's pre-trade supply, quoted by the platform exactly as for
    /// [`Buy::buy_exponent`].
    pub fn sell_exponent(&mut self, amount: u64, swap_a: bool, quoted_total: Option<u64>) -> (r:
        Result<(), SwapError>)
        ensures
            final(self).supply_a == old(self).supply_a,
            final(self).supply_b == old(self).supply_b,
            (quoted_sell_outcome(
                old(self).pool,
                old(self).seller,
                leg_for(swap_a),
                amount,
                quoted_total,
            ) matches Ok((p, t)) ==> r == Ok::<(), SwapError>(()) && final(self).pool == p
                && final(self).seller == t),
            (quoted_sell_outcome(
                old(self).pool,
                old(self).seller,
                leg_for(swap_a),
                amount,
                quoted_total,
            ) matches Err(e) ==> r == Err::<(), SwapError>(e) && final(self).pool == old(self).pool
                && final(self).seller == old(self).seller),
    {
        let price = match quoted_total {
            Some(price) => price,
            None => {
                return Err(SwapError::ArithmeticOverflow);
            },
        };
        let leg = if swap_a {
            AssetLeg::A
        } else {
            AssetLeg::B
        };
        let auth = self.pool.derive_authority();
        let mut pool = self.pool;
        let mut seller = self.seller;
        let r = settle_sell(&mut pool, &mut seller, &auth, leg, amount, price);
        self.pool = pool;
        self.seller = seller;
        r
    }
}

} // verus!
