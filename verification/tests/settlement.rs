use bonding_curve::curve::CurveConfig;
use bonding_curve::engine::settle_buy;
use bonding_curve::engine::settle_sell;
use bonding_curve::settlement::Direction;
use bonding_curve::settlement::SwapTransaction;
use bonding_curve::state::AssetLeg;
use bonding_curve::state::PoolState;
use bonding_curve::state::SwapError;
use bonding_curve::state::TraderState;

fn pool_with(reserve: u64, balance_a: u64, balance_b: u64) -> PoolState {
    PoolState {
        asset_a: 1,
        asset_b: 2,
        curve: CurveConfig::standard(),
        reserve,
        balance_a,
        balance_b,
    }
}

#[test]
fn a_completed_buy_settlement_commits_both_legs() {
    let pool = pool_with(0, 100, 0);
    let trader = TraderState {
        payment: 60,
        balance_a: 0,
        balance_b: 0,
    };
    let auth = pool.derive_authority();
    let mut tx = SwapTransaction::begin(pool, trader, &auth, Direction::Buy, AssetLeg::A, 5, 50);
    assert_eq!(tx.collect(), Ok(()));
    assert_eq!(tx.release(), Ok(()));
    let (p, t) = tx.commit();
    assert_eq!(p.reserve, 50);
    assert_eq!(p.balance_a, 95);
    assert_eq!(t.payment, 10);
    assert_eq!(t.balance_a, 5);
}

#[test]
fn an_abort_between_the_legs_restores_the_snapshot() {
    // a forced failure after payment collection but before asset release
    let pool = pool_with(0, 100, 0);
    let trader = TraderState {
        payment: 60,
        balance_a: 0,
        balance_b: 0,
    };
    let auth = pool.derive_authority();
    let mut tx = SwapTransaction::begin(pool, trader, &auth, Direction::Buy, AssetLeg::A, 5, 50);
    assert_eq!(tx.collect(), Ok(()));
    let ((p, t), err) = tx.abort();
    assert_eq!(err, SwapError::SettlementAborted);
    assert_eq!(p, pool);
    assert_eq!(t, trader);
}

#[test]
fn a_failed_release_rolls_the_collection_back() {
    // payment collection succeeds, then pool custody cannot cover the amount
    let pool = pool_with(0, 3, 0);
    let trader = TraderState {
        payment: 60,
        balance_a: 0,
        balance_b: 0,
    };
    let auth = pool.derive_authority();
    let mut tx = SwapTransaction::begin(pool, trader, &auth, Direction::Buy, AssetLeg::A, 5, 50);
    assert_eq!(tx.collect(), Ok(()));
    assert_eq!(tx.release(), Err(SwapError::InsufficientAssetBalance));
    let ((p, t), err) = tx.abort();
    assert_eq!(err, SwapError::SettlementAborted);
    assert_eq!(p, pool);
    assert_eq!(t, trader);
}

#[test]
fn a_failed_collection_aborts_before_any_effect() {
    let pool = pool_with(0, 100, 0);
    let trader = TraderState {
        payment: 49,
        balance_a: 0,
        balance_b: 0,
    };
    let auth = pool.derive_authority();
    let mut tx = SwapTransaction::begin(pool, trader, &auth, Direction::Buy, AssetLeg::A, 5, 50);
    assert_eq!(tx.collect(), Err(SwapError::InsufficientPayment));
    let ((p, t), _) = tx.abort();
    assert_eq!(p, pool);
    assert_eq!(t, trader);
}

#[test]
fn a_sell_settlement_collects_the_asset_then_pays_out() {
    let pool = pool_with(50, 95, 0);
    let trader = TraderState {
        payment: 10,
        balance_a: 5,
        balance_b: 0,
    };
    let auth = pool.derive_authority();
    let mut tx = SwapTransaction::begin(pool, trader, &auth, Direction::Sell, AssetLeg::A, 5, 50);
    assert_eq!(tx.collect(), Ok(()));
    assert_eq!(tx.release(), Ok(()));
    let (p, t) = tx.commit();
    assert_eq!(p.reserve, 0);
    assert_eq!(p.balance_a, 100);
    assert_eq!(t.payment, 60);
    assert_eq!(t.balance_a, 0);
}

#[test]
fn settle_buy_applies_exactly_the_computed_trade() {
    let mut pool = pool_with(7, 100, 40);
    let mut trader = TraderState {
        payment: 200,
        balance_a: 1,
        balance_b: 2,
    };
    let auth = pool.derive_authority();
    let r = settle_buy(&mut pool, &mut trader, &auth, AssetLeg::B, 4, 120);
    assert_eq!(r, Ok(()));
    assert_eq!(pool, pool_with(127, 100, 36));
    assert_eq!(
        trader,
        TraderState {
            payment: 80,
            balance_a: 1,
            balance_b: 6,
        }
    );
}

#[test]
fn settle_sell_rejects_a_payment_overflow_with_no_effect() {
    let before_pool = pool_with(u64::MAX, 100, 0);
    let before_trader = TraderState {
        payment: u64::MAX,
        balance_a: 5,
        balance_b: 0,
    };
    let mut pool = before_pool;
    let mut trader = before_trader;
    let auth = pool.derive_authority();
    let r = settle_sell(&mut pool, &mut trader, &auth, AssetLeg::A, 5, 1);
    assert_eq!(r, Err(SwapError::ArithmeticOverflow));
    assert_eq!(pool, before_pool);
    assert_eq!(trader, before_trader);
}

#[test]
fn settle_buy_rejects_a_buyer_balance_overflow_with_no_effect() {
    let before_pool = pool_with(0, 100, 0);
    let before_trader = TraderState {
        payment: 60,
        balance_a: u64::MAX,
        balance_b: 0,
    };
    let mut pool = before_pool;
    let mut trader = before_trader;
    let auth = pool.derive_authority();
    let r = settle_buy(&mut pool, &mut trader, &auth, AssetLeg::A, 5, 50);
    assert_eq!(r, Err(SwapError::ArithmeticOverflow));
    assert_eq!(pool, before_pool);
    assert_eq!(trader, before_trader);
}
