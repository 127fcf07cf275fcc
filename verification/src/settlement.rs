//! The atomic two-leg settlement protocol. A trade settles in two legs —
//! collect, then release — and commits as a single all-or-nothing unit: a
//! failure in either leg, or a platform abort between them, rolls every
//! effect back, so an observer of the balances sees either the pre-trade or
//! the fully post-trade state, never an intermediate one.

use vstd::prelude::*;

use crate::state::AssetLeg;
use crate::state::CustodyAuthority;
use crate::state::PoolState;
use crate::state::SwapError;
use crate::state::TraderState;

verus! {

/// Whether the trader acquires the asset leg (buy) or surrenders it (sell).
#[derive(Clone, Copy, PartialEq, Eq, Structural, Debug)]
pub enum Direction {
    Buy,
    Sell,
}

/// The states of one settlement: a trade is validated, collects its inbound
/// leg, releases its outbound leg, and commits; any failure on that path
/// aborts it with every effect undone.
#[derive(Clone, Copy, PartialEq, Eq, Structural, Debug)]
pub enum Phase {
    Validated,
    Collected,
    Released,
    Committed,
    Aborted,
}

/// The pool after `amount` units of `leg` enter its custody.
pub open spec fn pool_credit_leg(pool: PoolState, leg: AssetLeg, amount: u64) -> PoolState {
    match leg {
        AssetLeg::A => PoolState { balance_a: (pool.balance_a + amount) as u64, ..pool },
        AssetLeg::B => PoolState { balance_b: (pool.balance_b + amount) as u64, ..pool },
    }
}

/// The pool after `amount` units of `leg` leave its custody.
pub open spec fn pool_debit_leg(pool: PoolState, leg: AssetLeg, amount: u64) -> PoolState {
    match leg {
        AssetLeg::A => PoolState { balance_a: (pool.balance_a - amount) as u64, ..pool },
        AssetLeg::B => PoolState { balance_b: (pool.balance_b - amount) as u64, ..pool },
    }
}

/// The trader after receiving `amount` units of `leg`.
pub open spec fn trader_credit_leg(trader: TraderState, leg: AssetLeg, amount: u64) -> TraderState {
    match leg {
        AssetLeg::A => TraderState { balance_a: (trader.balance_a + amount) as u64, ..trader },
        AssetLeg::B => TraderState { balance_b: (trader.balance_b + amount) as u64, ..trader },
    }
}

/// The trader after surrendering `amount` units of `leg`.
pub open spec fn trader_debit_leg(trader: TraderState, leg: AssetLeg, amount: u64) -> TraderState {
    match leg {
        AssetLeg::A => TraderState { balance_a: (trader.balance_a - amount) as u64, ..trader },
        AssetLeg::B => TraderState { balance_b: (trader.balance_b - amount) as u64, ..trader },
    }
}

/// The collection leg of a buy: the total price moves from the trader's
/// payment balance into the pool's reserve. Fails, with no effect, when the
/// trader cannot pay in full or the reserve would overflow.
pub open spec fn buy_collect_outcome(pool: PoolState, trader: TraderState, price: u64) -> Result<
    (PoolState, TraderState),
    SwapError,
> {
    if trader.payment < price {
        Err(SwapError::InsufficientPayment)
    } else if pool.reserve + price > u64::MAX {
        Err(SwapError::ArithmeticOverflow)
    } else {
        Ok(
            (
                PoolState { reserve: (pool.reserve + price) as u64, ..pool },
                TraderState { payment: (trader.payment - price) as u64, ..trader },
            ),
        )
    }
}

/// The release leg of a buy: the traded amount leaves pool custody for the
/// trader's asset account. Fails, with no effect, when the pool does not
/// hold the amount or the trader's balance would overflow.
pub open spec fn buy_release_outcome(
    pool: PoolState,
    trader: TraderState,
    leg: AssetLeg,
    amount: u64,
) -> Result<(PoolState, TraderState), SwapError> {
    if pool.leg_balance(leg) < amount {
        Err(SwapError::InsufficientAssetBalance)
    } else if trader.leg_balance(leg) + amount > u64::MAX {
        Err(SwapError::ArithmeticOverflow)
    } else {
        Ok((pool_debit_leg(pool, leg, amount), trader_credit_leg(trader, leg, amount)))
    }
}

/// The collection leg of a sell: the traded amount moves from the trader
/// into pool custody. Fails, with no effect, when the trader does not hold
/// the amount or the pool's balance would overflow.
pub open spec fn sell_collect_outcome(
    pool: PoolState,
    trader: TraderState,
    leg: AssetLeg,
    amount: u64,
) -> Result<(PoolState, TraderState), SwapError> {
    if trader.leg_balance(leg) < amount {
        Err(SwapError::InsufficientAssetBalance)
    } else if pool.leg_balance(leg) + amount > u64::MAX {
        Err(SwapError::ArithmeticOverflow)
    } else {
        Ok((pool_credit_leg(pool, leg, amount), trader_debit_leg(trader, leg, amount)))
    }
}

/// The release leg of a sell: the total price leaves the pool's reserve for
/// the trader's payment balance. Fails, with no effect, when the reserve
/// cannot cover the price or the trader's payment balance would overflow.
pub open spec fn sell_release_outcome(pool: PoolState, trader: TraderState, price: u64) -> Result<
    (PoolState, TraderState),
    SwapError,
> {
    if pool.reserve < price {
        Err(SwapError::InsufficientPayment)
    } else if trader.payment + price > u64::MAX {
        Err(SwapError::ArithmeticOverflow)
    } else {
        Ok(
            (
                PoolState { reserve: (pool.reserve - price) as u64, ..pool },
                TraderState { payment: (trader.payment + price) as u64, ..trader },
            ),
        )
    }
}

/// The collection leg of a trade in either direction.
pub open spec fn collect_outcome(
    direction: Direction,
    pool: PoolState,
    trader: TraderState,
    leg: AssetLeg,
    amount: u64,
    price: u64,
) -> Result<(PoolState, TraderState), SwapError> {
    match direction {
        Direction::Buy => buy_collect_outcome(pool, trader, price),
        Direction::Sell => sell_collect_outcome(pool, trader, leg, amount),
    }
}

/// The release leg of a trade in either direction.
pub open spec fn release_outcome(
    direction: Direction,
    pool: PoolState,
    trader: TraderState,
    leg: AssetLeg,
    amount: u64,
    price: u64,
) -> Result<(PoolState, TraderState), SwapError> {
    match direction {
        Direction::Buy => buy_release_outcome(pool, trader, leg, amount),
        Direction::Sell => sell_release_outcome(pool, trader, price),
    }
}

/// The end-to-end outcome of a trade: its collection leg followed by its
/// release leg, the first failure aborting the whole trade with no effect.
pub open spec fn trade_outcome(
    direction: Direction,
    pool: PoolState,
    trader: TraderState,
    leg: AssetLeg,
    amount: u64,
    price: u64,
) -> Result<(PoolState, TraderState), SwapError> {
    match collect_outcome(direction, pool, trader, leg, amount, price) {
        Err(e) => Err(e),
        Ok((p, t)) => release_outcome(direction, p, t, leg, amount, price),
    }
}

/// The end-to-end outcome of a buy at the given total price.
pub open spec fn buy_outcome(
    pool: PoolState,
    trader: TraderState,
    leg: AssetLeg,
    amount: u64,
    price: u64,
) -> Result<(PoolState, TraderState), SwapError> {
    trade_outcome(Direction::Buy, pool, trader, leg, amount, price)
}

/// The end-to-end outcome of a sell at the given total price.
pub open spec fn sell_outcome(
    pool: PoolState,
    trader: TraderState,
    leg: AssetLeg,
    amount: u64,
    price: u64,
) -> Result<(PoolState, TraderState), SwapError> {
    trade_outcome(Direction::Sell, pool, trader, leg, amount, price)
}

/// One settlement in flight: a snapshot of the balances as they stood before
/// the trade, the working balances the legs act on, the trade's parameters,
/// and the phase reached so far.
///
/// The snapshot is what makes the protocol all-or-nothing: a failed leg, or
/// an explicit abort, restores it exactly.
pub struct SwapTransaction {
    pre_pool: PoolState,
    pre_trader: TraderState,
    cur_pool: PoolState,
    cur_trader: TraderState,
    direction: Direction,
    leg: AssetLeg,
    amount: u64,
    price: u64,
    phase: Phase,
}

impl SwapTransaction {
    /// The phase this settlement has reached.
    pub closed spec fn phase(self) -> Phase {
        self.phase
    }

    /// The pool balances as they stood when the settlement began.
    pub closed spec fn pre_pool(self) -> PoolState {
        self.pre_pool
    }

    /// The trader balances as they stood when the settlement began.
    pub closed spec fn pre_trader(self) -> TraderState {
        self.pre_trader
    }

    /// The working pool balances, with the completed legs applied.
    pub closed spec fn cur_pool(self) -> PoolState {
        self.cur_pool
    }

    /// The working trader balances, with the completed legs applied.
    pub closed spec fn cur_trader(self) -> TraderState {
        self.cur_trader
    }

    /// The direction of the trade being settled.
    pub closed spec fn direction(self) -> Direction {
        self.direction
    }

    /// The asset leg of the trade being settled.
    pub closed spec fn leg(self) -> AssetLeg {
        self.leg
    }

    /// The traded amount, in units of the asset leg.
    pub closed spec fn amount(self) -> u64 {
        self.amount
    }

    /// The total price, in payment-currency smallest units.
    pub closed spec fn price(self) -> u64 {
        self.price
    }

    /// Everything that does not change after validation: the snapshot and
    /// the trade parameters.
    pub open spec fn same_trade(self, other: SwapTransaction) -> bool {
        &&& self.pre_pool() == other.pre_pool()
        &&& self.pre_trader() == other.pre_trader()
        &&& self.direction() == other.direction()
        &&& self.leg() == other.leg()
        &&& self.amount() == other.amount()
        &&& self.price() == other.price()
    }

    /// Validates a trade and opens its settlement. Releasing from pool
    /// custody requires the pool's own authority, so the capability must be
    /// presented here, before any leg runs.
    pub fn begin(
        pool: PoolState,
        trader: TraderState,
        auth: &CustodyAuthority,
        direction: Direction,
        leg: AssetLeg,
        amount: u64,
        price: u64,
    ) -> (tx: SwapTransaction)
        requires
            auth.authorizes(pool),
        ensures
            tx.phase() is Validated,
            tx.pre_pool() == pool,
            tx.pre_trader() == trader,
            tx.cur_pool() == pool,
            tx.cur_trader() == trader,
            tx.direction() == direction,
            tx.leg() == leg,
            tx.amount() == amount,
            tx.price() == price,
    {
        SwapTransaction {
            pre_pool: pool,
            pre_trader: trader,
            cur_pool: pool,
            cur_trader: trader,
            direction,
            leg,
            amount,
            price,
            phase: Phase::Validated,
        }
    }

    /// Runs the collection leg: payment into the reserve for a buy, the
    /// asset into pool custody for a sell. On failure nothing has moved and
    /// the settlement is aborted with the working balances at the snapshot.
    pub fn collect(&mut self) -> (r: Result<(), SwapError>)
        requires
            old(self).phase() is Validated,
        ensures
            final(self).same_trade(*old(self)),
            (collect_outcome(
                old(self).direction(),
                old(self).cur_pool(),
                old(self).cur_trader(),
                old(self).leg(),
                old(self).amount(),
                old(self).price(),
            ) matches Ok((p, t)) ==> r == Ok::<(), SwapError>(()) && final(self).phase()
                is Collected && final(self).cur_pool() == p && final(self).cur_trader() == t),
            (collect_outcome(
                old(self).direction(),
                old(self).cur_pool(),
                old(self).cur_trader(),
                old(self).leg(),
                old(self).amount(),
                old(self).price(),
            ) matches Err(e) ==> r == Err::<(), SwapError>(e) && final(self).phase() is Aborted
                && final(self).cur_pool() == old(self).pre_pool() && final(self).cur_trader()
                == old(self).pre_trader()),
    {
        match self.direction {
            Direction::Buy => {
                if self.cur_trader.payment < self.price {
                    self.roll_back();
                    return Err(SwapError::InsufficientPayment);
                }
                match self.cur_pool.reserve.checked_add(self.price) {
                    None => {
                        self.roll_back();
                        Err(SwapError::ArithmeticOverflow)
                    },
                    Some(reserve) => {
                        self.cur_pool.reserve = reserve;
                        self.cur_trader.payment = self.cur_trader.payment - self.price;
                        self.phase = Phase::Collected;
                        Ok(())
                    },
                }
            },
            Direction::Sell => {
                if trader_leg_balance(&self.cur_trader, self.leg) < self.amount {
                    self.roll_back();
                    return Err(SwapError::InsufficientAssetBalance);
                }
                match pool_leg_balance(&self.cur_pool, self.leg).checked_add(self.amount) {
                    None => {
                        self.roll_back();
                        Err(SwapError::ArithmeticOverflow)
                    },
                    Some(balance) => {
                        set_pool_leg(&mut self.cur_pool, self.leg, balance);
                        let debited = trader_leg_balance(&self.cur_trader, self.leg)
                            - self.amount;
                        set_trader_leg(&mut self.cur_trader, self.leg, debited);
                        self.phase = Phase::Collected;
                        Ok(())
                    },
                }
            },
        }
    }

    /// Runs the release leg: the asset out of pool custody for a buy, the
    /// price out of the reserve for a sell. On failure the collection leg is
    /// rolled back, so the working balances stand exactly at the snapshot
    /// again and the settlement is aborted.
    pub fn release(&mut self) -> (r: Result<(), SwapError>)
        requires
            old(self).phase() is Collected,
        ensures
            final(self).same_trade(*old(self)),
            (release_outcome(
                old(self).direction(),
                old(self).cur_pool(),
                old(self).cur_trader(),
                old(self).leg(),
                old(self).amount(),
                old(self).price(),
            ) matches Ok((p, t)) ==> r == Ok::<(), SwapError>(()) && final(self).phase()
                is Released && final(self).cur_pool() == p && final(self).cur_trader() == t),
            (release_outcome(
                old(self).direction(),
                old(self).cur_pool(),
                old(self).cur_trader(),
                old(self).leg(),
                old(self).amount(),
                old(self).price(),
            ) matches Err(e) ==> r == Err::<(), SwapError>(e) && final(self).phase() is Aborted
                && final(self).cur_pool() == old(self).pre_pool() && final(self).cur_trader()
                == old(self).pre_trader()),
    {
        match self.direction {
            Direction::Buy => {
                if pool_leg_balance(&self.cur_pool, self.leg) < self.amount {
                    self.roll_back();
                    return Err(SwapError::InsufficientAssetBalance);
                }
                match trader_leg_balance(&self.cur_trader, self.leg).checked_add(self.amount) {
                    None => {
                        self.roll_back();
                        Err(SwapError::ArithmeticOverflow)
                    },
                    Some(balance) => {
                        let debited = pool_leg_balance(&self.cur_pool, self.leg) - self.amount;
                        set_pool_leg(&mut self.cur_pool, self.leg, debited);
                        set_trader_leg(&mut self.cur_trader, self.leg, balance);
                        self.phase = Phase::Released;
                        Ok(())
                    },
                }
            },
            Direction::Sell => {
                if self.cur_pool.reserve < self.price {
                    self.roll_back();
                    return Err(SwapError::InsufficientPayment);
                }
                match self.cur_trader.payment.checked_add(self.price) {
                    None => {
                        self.roll_back();
                        Err(SwapError::ArithmeticOverflow)
                    },
                    Some(payment) => {
                        self.cur_pool.reserve = self.cur_pool.reserve - self.price;
                        self.cur_trader.payment = payment;
                        self.phase = Phase::Released;
                        Ok(())
                    },
                }
            },
        }
    }

    /// Commits a settlement whose two legs both succeeded, yielding the
    /// post-trade balances the platform is to persist as one atomic unit.
    pub fn commit(&mut self) -> (out: (PoolState, TraderState))
        requires
            old(self).phase() is Released,
        ensures
            final(self).same_trade(*old(self)),
            final(self).phase() is Committed,
            out == (old(self).cur_pool(), old(self).cur_trader()),
            final(self).cur_pool() == old(self).cur_pool(),
            final(self).cur_trader() == old(self).cur_trader(),
    {
        self.phase = Phase::Committed;
        (self.cur_pool, self.cur_trader)
    }

    /// Aborts an uncommitted settlement, however far it got: every applied
    /// leg is undone and the balances handed back are exactly the snapshot
    /// taken before the trade. The platform-severity error is surfaced,
    /// never masked as success.
    pub fn abort(&mut self) -> (out: ((PoolState, TraderState), SwapError))
        requires
            !(old(self).phase() is Committed),
        ensures
            final(self).same_trade(*old(self)),
            final(self).phase() is Aborted,
            out.0 == (old(self).pre_pool(), old(self).pre_trader()),
            out.1 == SwapError::SettlementAborted,
            final(self).cur_pool() == old(self).pre_pool(),
            final(self).cur_trader() == old(self).pre_trader(),
    {
        self.roll_back();
        ((self.cur_pool, self.cur_trader), SwapError::SettlementAborted)
    }

    /// Restores the working balances to the snapshot and marks the
    /// settlement aborted.
    fn roll_back(&mut self)
        ensures
            final(self).same_trade(*old(self)),
            final(self).phase() is Aborted,
            final(self).cur_pool() == old(self).pre_pool(),
            final(self).cur_trader() == old(self).pre_trader(),
    {
        self.cur_pool = self.pre_pool;
        self.cur_trader = self.pre_trader;
        self.phase = Phase::Aborted;
    }
}

/// The pool-held balance of the given leg.
fn pool_leg_balance(pool: &PoolState, leg: AssetLeg) -> (b: u64)
    ensures
        b == pool.leg_balance(leg),
{
    match leg {
        AssetLeg::A => pool.balance_a,
        AssetLeg::B => pool.balance_b,
    }
}

/// The trader's balance of the given leg.
fn trader_leg_balance(trader: &TraderState, leg: AssetLeg) -> (b: u64)
    ensures
        b == trader.leg_balance(leg),
{
    match leg {
        AssetLeg::A => trader.balance_a,
        AssetLeg::B => trader.balance_b,
    }
}

/// Overwrites the pool-held balance of the given leg.
fn set_pool_leg(pool: &mut PoolState, leg: AssetLeg, balance: u64)
    ensures
        final(pool).leg_balance(leg) == balance,
        final(pool).reserve == old(pool).reserve,
        final(pool).identity() == old(pool).identity(),
        final(pool).curve == old(pool).curve,
        leg is A ==> final(pool).balance_b == old(pool).balance_b,
        leg is B ==> final(pool).balance_a == old(pool).balance_a,
{
    match leg {
        AssetLeg::A => pool.balance_a = balance,
        AssetLeg::B => pool.balance_b = balance,
    }
}

/// Overwrites the trader's balance of the given leg.
fn set_trader_leg(trader: &mut TraderState, leg: AssetLeg, balance: u64)
    ensures
        final(trader).leg_balance(leg) == balance,
        final(trader).payment == old(trader).payment,
        leg is A ==> final(trader).balance_b == old(trader).balance_b,
        leg is B ==> final(trader).balance_a == old(trader).balance_a,
{
    match leg {
        AssetLeg::A => trader.balance_a = balance,
        AssetLeg::B => trader.balance_b = balance,
    }
}

} // verus!
