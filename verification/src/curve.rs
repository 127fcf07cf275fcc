//! The curve model: the total price, in payment-currency smallest units, of
//! trading `amount` units of a leg whose mint currently has `supply` units in
//! circulation. Pure arithmetic over the pool's curve parameters; no state
//! and no side effects.

use vstd::prelude::*;

use crate::state::SwapError;

verus! {

/// The standard number of supply units that raise the linear price per unit
/// by one payment unit.
pub const STANDARD_SUPPLY_STEP: u64 = 1000;

/// The standard price per unit at supply zero, the base both curves grow
/// from.
pub const STANDARD_BASE_UNIT_PRICE: u64 = 10;

/// The curve parameters of one pool, fixed at pool creation, so that
/// differently shaped markets can run side by side. The supply step is never
/// zero: every constructor refuses that, and the pricing functions divide by
/// it freely.
#[derive(Clone, Copy, PartialEq, Eq, Structural, Debug)]
pub struct CurveConfig {
    supply_step: u64,
    base_unit_price: u64,
}

impl CurveConfig {
    /// How many units of supply raise the linear price per unit by one.
    pub closed spec fn supply_step(self) -> u64 {
        self.supply_step
    }

    /// The price per unit at supply zero.
    pub closed spec fn base_unit_price(self) -> u64 {
        self.base_unit_price
    }

    #[verifier::type_invariant]
    spec fn divisor_nonzero(self) -> bool {
        self.supply_step >= 1
    }

    /// Fixes a curve shape for a new pool. A zero supply step would make the
    /// price undefined, so it is refused here, once, rather than checked at
    /// every quote.
    pub fn new(supply_step: u64, base_unit_price: u64) -> (config: CurveConfig)
        requires
            supply_step >= 1,
        ensures
            config.supply_step() == supply_step,
            config.base_unit_price() == base_unit_price,
    {
        CurveConfig { supply_step, base_unit_price }
    }

    /// The curve shape with the standard parameters: the price per unit
    /// starts at ten payment units and grows by one per thousand units of
    /// supply.
    pub fn standard() -> (config: CurveConfig)
        ensures
            config.supply_step() == STANDARD_SUPPLY_STEP,
            config.base_unit_price() == STANDARD_BASE_UNIT_PRICE,
    {
        CurveConfig {
            supply_step: STANDARD_SUPPLY_STEP,
            base_unit_price: STANDARD_BASE_UNIT_PRICE,
        }
    }
}

/// Price of one unit under the linear curve: the base price plus one payment
/// unit per full supply step of circulating supply, with truncating
/// division.
pub open spec fn linear_unit_price(config: CurveConfig, supply: u64) -> int {
    (supply as int) / (config.supply_step() as int) + (config.base_unit_price() as int)
}

/// Total price of `amount` units under the linear curve, as an unbounded
/// integer: under the standard parameters, `amount * (supply / 1000 + 10)`.
pub open spec fn linear_total(config: CurveConfig, supply: u64, amount: u64) -> int {
    (amount as int) * linear_unit_price(config, supply)
}

/// Price of one unit under the linear curve, rejected when it does not fit
/// the settlement integer width.
pub fn linear_price_per_unit(config: &CurveConfig, supply: u64) -> (r: Result<u64, SwapError>)
    ensures
        linear_unit_price(*config, supply) <= u64::MAX ==> r == Ok::<u64, SwapError>(
            linear_unit_price(*config, supply) as u64,
        ),
        linear_unit_price(*config, supply) > u64::MAX ==> r == Err::<u64, SwapError>(
            SwapError::ArithmeticOverflow,
        ),
{
    proof {
        use_type_invariant(&*config);
    }
    let stepped = supply / config.supply_step;
    match stepped.checked_add(config.base_unit_price) {
        Some(price) => Ok(price),
        None => Err(SwapError::ArithmeticOverflow),
    }
}

/// Total price of buying or selling `amount` units at circulating supply
/// `supply` under the pool's linear curve.
///
/// Returns the exact product `amount * (supply / supply_step + base)`, with
/// truncating division, whenever it fits the settlement integer width, and
/// rejects the trade otherwise: an overflowing price is a validation
/// failure, distinct from any funding error, and no wraparound ever reaches
/// settlement. An amount of zero always prices to zero.
pub fn linear_total_price(config: &CurveConfig, supply: u64, amount: u64) -> (r: Result<
    u64,
    SwapError,
>)
    ensures
        linear_total(*config, supply, amount) <= u64::MAX ==> r == Ok::<u64, SwapError>(
            linear_total(*config, supply, amount) as u64,
        ),
        linear_total(*config, supply, amount) > u64::MAX ==> r == Err::<u64, SwapError>(
            SwapError::ArithmeticOverflow,
        ),
{
    if amount == 0 {
        return Ok(0);
    }
    let unit_price = match linear_price_per_unit(config, supply) {
        Ok(price) => price,
        Err(e) => {
            proof {
                assert((amount as int) * linear_unit_price(*config, supply) >= linear_unit_price(
                    *config,
                    supply,
                )) by (nonlinear_arith)
                    requires
                        amount >= 1,
                        linear_unit_price(*config, supply) >= 0,
                ;
            }
            return Err(e);
        },
    };
    proof {
        use_type_invariant(&*config);
        assert(linear_unit_price(*config, supply) >= 0) by (nonlinear_arith)
            requires
                config.supply_step() >= 1,
                supply >= 0,
        ;
    }
    match amount.checked_mul(unit_price) {
        Some(total) => Ok(total),
        None => Err(SwapError::ArithmeticOverflow),
    }
}

} // verus!
