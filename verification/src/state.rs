//! Data model of the market: the asset legs, the pricing strategies, the
//! error kinds, the custodial pool state, the trader's balances, and the
//! custody authority that alone may release pool-held funds.

use vstd::prelude::*;

use crate::curve::CurveConfig;

verus! {

/// One of the two assets held by a pool.
#[derive(Clone, Copy, PartialEq, Eq, Structural, Debug)]
pub enum AssetLeg {
    A,
    B,
}

/// How the price per unit is derived from the circulating supply.
#[derive(Clone, Copy, PartialEq, Eq, Structural, Debug)]
pub enum PricingStrategy {
    /// Price per unit grows by one payment unit per supply step of the
    /// pool's curve parameters.
    Linear,
    /// Price per unit grows exponentially with supply; the platform evaluates
    /// this curve and hands the engine the resulting integer quote.
    Exponential,
}

/// Every way a swap invocation can fail. All are terminal for the current
/// invocation; none leaves a partial effect behind.
#[derive(Clone, Copy, PartialEq, Eq, Structural, Debug)]
pub enum SwapError {
    /// The strategy selector was not recognized: a configuration error.
    InvalidStrategy,
    /// A price or a balance would not fit the settlement integer width.
    ArithmeticOverflow,
    /// The payer's payment-currency balance cannot cover the total price.
    InsufficientPayment,
    /// The asset-leg balance to be debited cannot cover the trade amount.
    InsufficientAssetBalance,
    /// The platform failed between the two settlement legs; every effect of
    /// the invocation has been rolled back.
    SettlementAborted,
}

/// Custodial state of one market: the identifiers of its two asset mints,
/// the payment-currency reserve, and the pool-held balance of each leg.
///
/// A pool is identified by its ordered pair of asset identifiers; the pair is
/// fixed at initialization and never changes afterwards.
#[derive(Clone, Copy, PartialEq, Eq, Structural, Debug)]
pub struct PoolState {
    /// Identifier of the mint of asset leg A.
    pub asset_a: u64,
    /// Identifier of the mint of asset leg B.
    pub asset_b: u64,
    /// The curve parameters this market trades under, fixed at creation.
    pub curve: CurveConfig,
    /// Payment currency collected from buyers, owed to sellers.
    pub reserve: u64,
    /// Pool-held balance of asset leg A.
    pub balance_a: u64,
    /// Pool-held balance of asset leg B.
    pub balance_b: u64,
}

/// The caller's balances, as the surrounding ledger platform reports them:
/// payment currency plus one balance per asset leg.
#[derive(Clone, Copy, PartialEq, Eq, Structural, Debug)]
pub struct TraderState {
    /// Payment-currency balance.
    pub payment: u64,
    /// Balance of asset leg A.
    pub balance_a: u64,
    /// Balance of asset leg B.
    pub balance_b: u64,
}

impl PoolState {
    /// The pool-held balance of the given leg.
    pub open spec fn leg_balance(self, leg: AssetLeg) -> u64 {
        match leg {
            AssetLeg::A => self.balance_a,
            AssetLeg::B => self.balance_b,
        }
    }

    /// The two mint identifiers, which fix the pool's identity.
    pub open spec fn identity(self) -> (u64, u64) {
        (self.asset_a, self.asset_b)
    }

    /// The capability that authorizes releases from this pool's custody.
    /// It is constructed on demand from the pool's stable identity, never
    /// from a held secret, and this is its only constructor.
    pub fn derive_authority(&self) -> (auth: CustodyAuthority)
        ensures
            auth.authorizes(*self),
    {
        CustodyAuthority { asset_a: self.asset_a, asset_b: self.asset_b }
    }
}

impl TraderState {
    /// The trader's balance of the given leg.
    pub open spec fn leg_balance(self, leg: AssetLeg) -> u64 {
        match leg {
            AssetLeg::A => self.balance_a,
            AssetLeg::B => self.balance_b,
        }
    }
}

/// Permission to move pool-held balances. A value of this type is obtained
/// only from [`PoolState::derive_authority`], so holding one that authorizes
/// a pool proves it was derived from that pool's own identity.
pub struct CustodyAuthority {
    asset_a: u64,
    asset_b: u64,
}

impl CustodyAuthority {
    /// Whether this capability was derived from the identity of `pool`.
    pub closed spec fn authorizes(self, pool: PoolState) -> bool {
        self.asset_a == pool.asset_a && self.asset_b == pool.asset_b
    }
}

impl PricingStrategy {
    /// Decodes the strategy selector the platform passes with each
    /// instruction. Any selector other than the two known ones is a
    /// configuration error and aborts the operation.
    pub fn from_code(code: u8) -> (r: Result<PricingStrategy, SwapError>)
        ensures
            code == 0 ==> r == Ok::<PricingStrategy, SwapError>(PricingStrategy::Linear),
            code == 1 ==> r == Ok::<PricingStrategy, SwapError>(PricingStrategy::Exponential),
            code >= 2 ==> r == Err::<PricingStrategy, SwapError>(SwapError::InvalidStrategy),
    {
        match code {
            0 => Ok(PricingStrategy::Linear),
            1 => Ok(PricingStrategy::Exponential),
            _ => Err(SwapError::InvalidStrategy),
        }
    }
}

/// The inputs of the one-time pool setup operation: the ordered pair of
/// asset mint identifiers the new market will trade.
#[derive(Clone, Copy, PartialEq, Eq, Structural, Debug)]
pub struct Initialize {
    /// Identifier of the mint of asset leg A.
    pub asset_a: u64,
    /// Identifier of the mint of asset leg B.
    pub asset_b: u64,
    /// The curve parameters the new market will trade under.
    pub curve: CurveConfig,
}

/// Creates the market for the given pair of assets: an empty pool whose
/// identity is exactly the ordered pair, carrying the requested curve
/// parameters, with nothing yet in custody.
pub fn initialize(ctx: Initialize) -> (pool: PoolState)
    ensures
        pool.asset_a == ctx.asset_a,
        pool.asset_b == ctx.asset_b,
        pool.curve == ctx.curve,
        pool.reserve == 0,
        pool.balance_a == 0,
        pool.balance_b == 0,
{
    PoolState {
        asset_a: ctx.asset_a,
        asset_b: ctx.asset_b,
        curve: ctx.curve,
        reserve: 0,
        balance_a: 0,
        balance_b: 0,
    }
}

} // verus!
