use bonding_curve::curve::CurveConfig;
use bonding_curve::engine::Buy;
use bonding_curve::engine::Sell;
use bonding_curve::state::initialize;
use bonding_curve::state::Initialize;
use bonding_curve::state::PoolState;
use bonding_curve::state::SwapError;
use bonding_curve::state::TraderState;

/// Evaluates the exponential curve the way the surrounding platform does:
/// ten payment units per unit at supply zero, growing as e to the supply,
/// the total truncated to an integer; `None` when the result is not finite
/// or does not fit the settlement width.
fn exponential_quote(supply: u64, amount: u64) -> Option<u64> {
    let price_per_unit = 10.0_f64 * std::f64::consts::E.powf(supply as f64);
    let total = amount as f64 * price_per_unit;
    if total.is_finite() && total >= 0.0 && total < 18_446_744_073_709_551_616.0 {
        Some(total as u64)
    } else {
        None
    }
}

fn pool_with(reserve: u64, balance_a: u64, balance_b: u64) -> PoolState {
    PoolState {
        asset_a: 7,
        asset_b: 8,
        curve: CurveConfig::standard(),
        reserve,
        balance_a,
        balance_b,
    }
}

#[test]
fn initialize_creates_an_empty_pool() {
    let pool = initialize(Initialize {
        asset_a: 41,
        asset_b: 42,
        curve: CurveConfig::standard(),
    });
    assert_eq!(pool.asset_a, 41);
    assert_eq!(pool.asset_b, 42);
    assert_eq!(pool.curve, CurveConfig::standard());
    assert_eq!(pool.reserve, 0);
    assert_eq!(pool.balance_a, 0);
    assert_eq!(pool.balance_b, 0);
}

#[test]
fn buy_five_at_zero_supply_costs_fifty() {
    // linear strategy, supply 0: price per unit 10, total 50
    let mut buy = Buy {
        pool: pool_with(0, 100, 0),
        buyer: TraderState {
            payment: 60,
            balance_a: 0,
            balance_b: 0,
        },
        supply_a: 0,
        supply_b: 0,
    };
    assert_eq!(buy.buy_linear(5, true), Ok(()));
    assert_eq!(buy.pool.reserve, 50);
    assert_eq!(buy.pool.balance_a, 95);
    assert_eq!(buy.buyer.payment, 10);
    assert_eq!(buy.buyer.balance_a, 5);
    assert_eq!(buy.buyer.balance_b, 0);
}

#[test]
fn buy_prices_leg_b_from_leg_b_supply() {
    let mut buy = Buy {
        pool: pool_with(0, 0, 50),
        buyer: TraderState {
            payment: 1000,
            balance_a: 0,
            balance_b: 0,
        },
        supply_a: 999_999,
        supply_b: 2000,
    };
    // price per unit 2000 / 1000 + 10 = 12
    assert_eq!(buy.buy_linear(3, false), Ok(()));
    assert_eq!(buy.pool.reserve, 36);
    assert_eq!(buy.pool.balance_b, 47);
    assert_eq!(buy.buyer.payment, 964);
    assert_eq!(buy.buyer.balance_b, 3);
    assert_eq!(buy.buyer.balance_a, 0);
}

#[test]
fn buy_of_zero_amount_succeeds_and_moves_nothing() {
    let before_pool = pool_with(17, 100, 100);
    let before_buyer = TraderState {
        payment: 5,
        balance_a: 1,
        balance_b: 2,
    };
    let mut buy = Buy {
        pool: before_pool,
        buyer: before_buyer,
        supply_a: 3000,
        supply_b: 0,
    };
    assert_eq!(buy.buy_linear(0, true), Ok(()));
    assert_eq!(buy.pool, before_pool);
    assert_eq!(buy.buyer, before_buyer);
}

#[test]
fn sell_of_zero_amount_succeeds_and_moves_nothing() {
    let before_pool = pool_with(17, 100, 100);
    let before_seller = TraderState {
        payment: 5,
        balance_a: 1,
        balance_b: 2,
    };
    let mut sell = Sell {
        pool: before_pool,
        seller: before_seller,
        supply_a: 3000,
        supply_b: 0,
    };
    assert_eq!(sell.sell_linear(0, true), Ok(()));
    assert_eq!(sell.pool, before_pool);
    assert_eq!(sell.seller, before_seller);
}

#[test]
fn buy_without_enough_payment_fails_with_no_effect() {
    let before_pool = pool_with(0, 100, 0);
    let before_buyer = TraderState {
        payment: 49,
        balance_a: 0,
        balance_b: 0,
    };
    let mut buy = Buy {
        pool: before_pool,
        buyer: before_buyer,
        supply_a: 0,
        supply_b: 0,
    };
    assert_eq!(buy.buy_linear(5, true), Err(SwapError::InsufficientPayment));
    assert_eq!(buy.pool, before_pool);
    assert_eq!(buy.buyer, before_buyer);
}

#[test]
fn buy_beyond_pool_custody_fails_with_no_effect() {
    // the payment leg would succeed: its collection must be rolled back
    let before_pool = pool_with(0, 3, 0);
    let before_buyer = TraderState {
        payment: 1000,
        balance_a: 0,
        balance_b: 0,
    };
    let mut buy = Buy {
        pool: before_pool,
        buyer: before_buyer,
        supply_a: 0,
        supply_b: 0,
    };
    assert_eq!(
        buy.buy_linear(5, true),
        Err(SwapError::InsufficientAssetBalance)
    );
    assert_eq!(buy.pool, before_pool);
    assert_eq!(buy.buyer, before_buyer);
}

#[test]
fn buy_rejects_an_overflowing_price() {
    let before_pool = pool_with(0, u64::MAX, 0);
    let before_buyer = TraderState {
        payment: u64::MAX,
        balance_a: 0,
        balance_b: 0,
    };
    let mut buy = Buy {
        pool: before_pool,
        buyer: before_buyer,
        supply_a: 0,
        supply_b: 0,
    };
    assert_eq!(
        buy.buy_linear(u64::MAX, true),
        Err(SwapError::ArithmeticOverflow)
    );
    assert_eq!(buy.pool, before_pool);
    assert_eq!(buy.buyer, before_buyer);
}

#[test]
fn buy_rejects_a_reserve_overflow() {
    let before_pool = pool_with(u64::MAX, 100, 0);
    let before_buyer = TraderState {
        payment: 60,
        balance_a: 0,
        balance_b: 0,
    };
    let mut buy = Buy {
        pool: before_pool,
        buyer: before_buyer,
        supply_a: 0,
        supply_b: 0,
    };
    assert_eq!(
        buy.buy_linear(5, true),
        Err(SwapError::ArithmeticOverflow)
    );
    assert_eq!(buy.pool, before_pool);
    assert_eq!(buy.buyer, before_buyer);
}

#[test]
fn exponential_buy_of_one_at_zero_supply_costs_ten() {
    // exponential strategy, supply 0: price per unit 10.0, total 10
    let quote = exponential_quote(0, 1);
    assert_eq!(quote, Some(10));
    let mut buy = Buy {
        pool: pool_with(0, 100, 0),
        buyer: TraderState {
            payment: 10,
            balance_a: 0,
            balance_b: 0,
        },
        supply_a: 0,
        supply_b: 0,
    };
    assert_eq!(buy.buy_exponent(1, true, quote), Ok(()));
    assert_eq!(buy.pool.reserve, 10);
    assert_eq!(buy.pool.balance_a, 99);
    assert_eq!(buy.buyer.payment, 0);
    assert_eq!(buy.buyer.balance_a, 1);
}

#[test]
fn exponential_buy_at_supply_one_costs_ten_e() {
    // price per unit 10 * e = 27.18..., one unit floors to 27
    let quote = exponential_quote(1, 1);
    assert_eq!(quote, Some(27));
    let mut buy = Buy {
        pool: pool_with(0, 100, 0),
        buyer: TraderState {
            payment: 30,
            balance_a: 0,
            balance_b: 0,
        },
        supply_a: 1,
        supply_b: 0,
    };
    assert_eq!(buy.buy_exponent(1, true, quote), Ok(()));
    assert_eq!(buy.pool.reserve, 27);
    assert_eq!(buy.buyer.payment, 3);
}

#[test]
fn exponential_buy_rejects_an_unquotable_price() {
    // at any large supply the curve saturates past the settlement width
    let quote = exponential_quote(50, 1);
    assert_eq!(quote, None);
    let before_pool = pool_with(0, 100, 0);
    let before_buyer = TraderState {
        payment: u64::MAX,
        balance_a: 0,
        balance_b: 0,
    };
    let mut buy = Buy {
        pool: before_pool,
        buyer: before_buyer,
        supply_a: 50,
        supply_b: 0,
    };
    assert_eq!(
        buy.buy_exponent(1, true, quote),
        Err(SwapError::ArithmeticOverflow)
    );
    assert_eq!(buy.pool, before_pool);
    assert_eq!(buy.buyer, before_buyer);
}

#[test]
fn sell_five_at_zero_supply_pays_fifty() {
    let mut sell = Sell {
        pool: pool_with(60, 95, 0),
        seller: TraderState {
            payment: 0,
            balance_a: 5,
            balance_b: 0,
        },
        supply_a: 0,
        supply_b: 0,
    };
    assert_eq!(sell.sell_linear(5, true), Ok(()));
    assert_eq!(sell.pool.reserve, 10);
    assert_eq!(sell.pool.balance_a, 100);
    assert_eq!(sell.seller.payment, 50);
    assert_eq!(sell.seller.balance_a, 0);
}

#[test]
fn sell_without_the_asset_fails_with_no_effect() {
    let before_pool = pool_with(1000, 95, 0);
    let before_seller = TraderState {
        payment: 0,
        balance_a: 4,
        balance_b: 0,
    };
    let mut sell = Sell {
        pool: before_pool,
        seller: before_seller,
        supply_a: 0,
        supply_b: 0,
    };
    assert_eq!(
        sell.sell_linear(5, true),
        Err(SwapError::InsufficientAssetBalance)
    );
    assert_eq!(sell.pool, before_pool);
    assert_eq!(sell.seller, before_seller);
}

#[test]
fn sell_beyond_the_reserve_fails_with_no_effect() {
    // the asset collection would succeed: it must be rolled back
    let before_pool = pool_with(49, 95, 0);
    let before_seller = TraderState {
        payment: 0,
        balance_a: 5,
        balance_b: 0,
    };
    let mut sell = Sell {
        pool: before_pool,
        seller: before_seller,
        supply_a: 0,
        supply_b: 0,
    };
    assert_eq!(
        sell.sell_linear(5, true),
        Err(SwapError::InsufficientPayment)
    );
    assert_eq!(sell.pool, before_pool);
    assert_eq!(sell.seller, before_seller);
}

#[test]
fn sell_after_buy_restores_both_balances() {
    // same amount, same leg, same strategy, unchanged supply: a perfect mirror
    let before_pool = pool_with(0, 100, 0);
    let before_trader = TraderState {
        payment: 60,
        balance_a: 0,
        balance_b: 0,
    };
    let mut buy = Buy {
        pool: before_pool,
        buyer: before_trader,
        supply_a: 0,
        supply_b: 0,
    };
    assert_eq!(buy.buy_linear(5, true), Ok(()));
    let mut sell = Sell {
        pool: buy.pool,
        seller: buy.buyer,
        supply_a: 0,
        supply_b: 0,
    };
    assert_eq!(sell.sell_linear(5, true), Ok(()));
    assert_eq!(sell.pool, before_pool);
    assert_eq!(sell.seller, before_trader);
}

#[test]
fn exponential_sell_after_buy_restores_both_balances() {
    let before_pool = pool_with(0, 100, 50);
    let before_trader = TraderState {
        payment: 200,
        balance_a: 0,
        balance_b: 3,
    };
    let quote = exponential_quote(2, 2);
    // price per unit 10 * e^2 = 73.89..., two units floor to 147
    assert_eq!(quote, Some(147));
    let mut buy = Buy {
        pool: before_pool,
        buyer: before_trader,
        supply_a: 0,
        supply_b: 2,
    };
    assert_eq!(buy.buy_exponent(2, false, quote), Ok(()));
    let mut sell = Sell {
        pool: buy.pool,
        seller: buy.buyer,
        supply_a: 0,
        supply_b: 2,
    };
    assert_eq!(sell.sell_exponent(2, false, quote), Ok(()));
    assert_eq!(sell.pool, before_pool);
    assert_eq!(sell.seller, before_trader);
}

#[test]
fn a_trade_series_conserves_combined_totals() {
    // successes and failures mixed: the sum of pool and trader holdings of
    // each currency never drifts
    let mut pool = pool_with(40, 80, 60);
    let mut trader = TraderState {
        payment: 500,
        balance_a: 20,
        balance_b: 40,
    };
    let payment_total = pool.reserve as u128 + trader.payment as u128;
    let a_total = pool.balance_a as u128 + trader.balance_a as u128;
    let b_total = pool.balance_b as u128 + trader.balance_b as u128;
    let amounts = [3u64, 0, 81, 7, 12, 5, 200, 1];
    for (i, &amount) in amounts.iter().enumerate() {
        if i % 2 == 0 {
            let mut buy = Buy {
                pool,
                buyer: trader,
                supply_a: 100 * i as u64,
                supply_b: 0,
            };
            let _ = buy.buy_linear(amount, i % 3 == 0);
            pool = buy.pool;
            trader = buy.buyer;
        } else {
            let mut sell = Sell {
                pool,
                seller: trader,
                supply_a: 0,
                supply_b: 900 * i as u64,
            };
            let _ = sell.sell_linear(amount, i % 3 == 0);
            pool = sell.pool;
            trader = sell.seller;
        }
        assert_eq!(pool.reserve as u128 + trader.payment as u128, payment_total);
        assert_eq!(pool.balance_a as u128 + trader.balance_a as u128, a_total);
        assert_eq!(pool.balance_b as u128 + trader.balance_b as u128, b_total);
        assert_eq!(pool.asset_a, 7);
        assert_eq!(pool.asset_b, 8);
    }
}
