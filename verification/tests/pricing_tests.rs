use mmm_core::curve::{check_curve, get_sol_total_price_and_next_price};
use mmm_core::errors::MmmError;
use mmm_core::fees::{get_sell_fulfill_pool_price_info, SolRecipient};
use mmm_core::state::{Pool, Pubkey, CURVE_KIND_EXP, CURVE_KIND_LINEAR};

fn mk_pool(curve_type: u8, spot_price: u64, curve_delta: u64) -> Pool {
    Pool {
        owner: Pubkey { hi: 1, lo: 2 },
        uuid: Pubkey { hi: 3, lo: 4 },
        spot_price,
        curve_type,
        curve_delta,
        lp_fee_bp: 0,
        sellside_asset_amount: 0,
        buyside_payment_amount: 0,
        reinvest_fulfill_sell: false,
        shared_escrow_account: Pubkey { hi: 0, lo: 0 },
        shared_escrow_count: 0,
    }
}

#[test]
fn check_curve_accepts_linear_and_exponential() {
    assert_eq!(check_curve(0, u64::MAX), Ok(()));
    assert_eq!(check_curve(1, 10000), Ok(()));
    assert_eq!(check_curve(1, 0), Ok(()));
}

#[test]
fn check_curve_rejects_bad_configurations() {
    assert_eq!(check_curve(2, 0), Err(MmmError::InvalidCurveType));
    assert_eq!(check_curve(255, 5), Err(MmmError::InvalidCurveType));
    assert_eq!(check_curve(1, 10001), Err(MmmError::InvalidCurveDelta));
}

#[test]
fn linear_buy_walks_price_down() {
    let pool = mk_pool(CURVE_KIND_LINEAR, 1000, 10);
    let (total, next) = get_sol_total_price_and_next_price(&pool, 3, true).unwrap();
    assert_eq!(total, 2970); // 1000 + 990 + 980
    assert_eq!(next, 970);
}

#[test]
fn linear_sell_walks_price_up_one_step_ahead() {
    let pool = mk_pool(CURVE_KIND_LINEAR, 1000, 10);
    let (total, next) = get_sol_total_price_and_next_price(&pool, 3, false).unwrap();
    assert_eq!(total, 3060); // 1010 + 1020 + 1030
    assert_eq!(next, 1030);
}

#[test]
fn linear_roundtrip_never_drains_pool() {
    let pool = mk_pool(CURVE_KIND_LINEAR, 1000, 10);
    let (buy_total, _) = get_sol_total_price_and_next_price(&pool, 3, true).unwrap();
    let (sell_total, _) = get_sol_total_price_and_next_price(&pool, 3, false).unwrap();
    assert!(sell_total > buy_total);
    assert_eq!(sell_total - buy_total, 9 * 10); // n*n*delta
}

#[test]
fn linear_buy_fails_when_price_would_cross_zero() {
    let pool = mk_pool(CURVE_KIND_LINEAR, 25, 10);
    assert_eq!(
        get_sol_total_price_and_next_price(&pool, 3, true),
        Err(MmmError::NumericOverflow)
    );
}

#[test]
fn exponential_buy_decays_each_unit() {
    let pool = mk_pool(CURVE_KIND_EXP, 10000, 100);
    let (total, next) = get_sol_total_price_and_next_price(&pool, 3, true).unwrap();
    assert_eq!(total, 10000 + 9900 + 9801);
    assert_eq!(next, 9703);
    // marginal unit prices strictly decrease
    let (t1, _) = get_sol_total_price_and_next_price(&pool, 1, true).unwrap();
    let (t2, _) = get_sol_total_price_and_next_price(&pool, 2, true).unwrap();
    assert!(t2 - t1 < t1);
    assert!(total - t2 < t2 - t1);
}

#[test]
fn exponential_sell_grows_each_unit() {
    let pool = mk_pool(CURVE_KIND_EXP, 10000, 100);
    let (total, next) = get_sol_total_price_and_next_price(&pool, 3, false).unwrap();
    assert_eq!(total, 10100 + 10201 + 10303);
    assert_eq!(next, 10303);
    let (t1, _) = get_sol_total_price_and_next_price(&pool, 1, false).unwrap();
    let (t2, _) = get_sol_total_price_and_next_price(&pool, 2, false).unwrap();
    assert!(t2 - t1 > t1);
    assert!(total - t2 > t2 - t1);
}

#[test]
fn zero_total_is_rejected_for_every_curve() {
    for fulfill_buy in [true, false] {
        let lin = mk_pool(CURVE_KIND_LINEAR, 0, 0);
        assert_eq!(
            get_sol_total_price_and_next_price(&lin, 4, fulfill_buy),
            Err(MmmError::NumericOverflow)
        );
        let exp = mk_pool(CURVE_KIND_EXP, 0, 100);
        assert_eq!(
            get_sol_total_price_and_next_price(&exp, 4, fulfill_buy),
            Err(MmmError::NumericOverflow)
        );
    }
}

#[test]
fn zero_unit_trade_is_rejected() {
    for curve in [CURVE_KIND_LINEAR, CURVE_KIND_EXP] {
        for fulfill_buy in [true, false] {
            let pool = mk_pool(curve, 1000, 10);
            assert_eq!(
                get_sol_total_price_and_next_price(&pool, 0, fulfill_buy),
                Err(MmmError::NumericOverflow)
            );
        }
    }
}

#[test]
fn total_above_ceiling_is_rejected() {
    let pool = mk_pool(CURVE_KIND_LINEAR, 8_000_000 * 1_000_000_000 + 1, 0);
    assert_eq!(
        get_sol_total_price_and_next_price(&pool, 1, true),
        Err(MmmError::NumericOverflow)
    );
    let just_under = mk_pool(CURVE_KIND_LINEAR, 8_000_000 * 1_000_000_000, 0);
    let (total, _) = get_sol_total_price_and_next_price(&just_under, 1, true).unwrap();
    assert_eq!(total, 8_000_000 * 1_000_000_000);
}

#[test]
fn unrecognized_curve_type_is_rejected() {
    let pool = mk_pool(7, 1000, 10);
    assert_eq!(
        get_sol_total_price_and_next_price(&pool, 1, true),
        Err(MmmError::InvalidCurveType)
    );
}

#[test]
fn sell_fulfill_info_combines_price_and_fees() {
    let mut pool = mk_pool(CURVE_KIND_LINEAR, 1000, 10);
    pool.lp_fee_bp = 200;
    pool.sellside_asset_amount = 5;
    let info = get_sell_fulfill_pool_price_info(&pool, 2000, 3, -50, 100).unwrap();
    assert_eq!(info.total_price, 3060);
    assert_eq!(info.next_price, 1030);
    assert_eq!(info.lp_fee, 61); // 3060 * 200 / 10000, truncated
    assert_eq!(info.maker_fee, -15); // trunc(3060 * -50 / 10000)
    assert_eq!(info.taker_fee, 30); // trunc(3060 * 100 / 10000)
    assert_eq!(info.referral_fee, 15);
    assert_eq!(info.transfer_sol_to, SolRecipient::Owner);
}

#[test]
fn sell_fulfill_info_reinvests_to_escrow() {
    let mut pool = mk_pool(CURVE_KIND_LINEAR, 1000, 10);
    pool.reinvest_fulfill_sell = true;
    let info = get_sell_fulfill_pool_price_info(&pool, 0, 1, 0, 0).unwrap();
    assert_eq!(info.transfer_sol_to, SolRecipient::BuysideEscrow);
    assert_eq!(info.lp_fee, 0); // no sell-side inventory
}

#[test]
fn sell_fulfill_info_rejects_bad_fee_bps() {
    let pool = mk_pool(CURVE_KIND_LINEAR, 1000, 10);
    assert_eq!(
        get_sell_fulfill_pool_price_info(&pool, 0, 1, -200, 100),
        Err(MmmError::InvalidMakerOrTakerFeeBP)
    );
}
