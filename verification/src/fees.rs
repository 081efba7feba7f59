//! Fee arithmetic of a trade: liquidity-provider fee, signed maker/taker
//! referral fees, the seller's net proceeds, and the effective royalty
//! basis points of an asset under an optional dynamic-royalty policy.

use open_creator_protocol::royalty::{DynamicRoyalty, DynamicRoyaltyPriceLinear};
use vstd::prelude::*;
use vstd::arithmetic::div_mod::{lemma_div_is_ordered, lemma_div_pos_is_pos};
use vstd::arithmetic::mul::{lemma_mul_unary_negation, lemma_mul_upper_bound};
use crate::curve::{quote_next, quote_ok, quote_total};
use crate::errors::MmmError;
use crate::state::{
    DynamicRoyaltyInfo, Metadata, Pool, PolicyInfo, CURVE_KIND_EXP,
    DYNAMIC_ROYALTY_KIND_PRICE_LINEAR, MAX_REFERRAL_FEE_BP, PriceLinearInfo,
};

verus! {

/// Truncating (round-toward-zero) division, as the machine performs it
/// on signed integers; `b` must be positive.
pub open spec fn div_trunc(a: int, b: int) -> int {
    if a >= 0 {
        a / b
    } else {
        -((-a) / b)
    }
}

/// The LP fee applies only when the pool holds sellable inventory and
/// its buy-side escrow could fund a purchase at the spot price;
/// otherwise the effective fee is zero.
pub open spec fn effective_lp_fee_bp(pool: Pool, buyside_sol_escrow_balance: int) -> int {
    if pool.sellside_asset_amount < 1 {
        0
    } else if buyside_sol_escrow_balance < pool.spot_price {
        0
    } else {
        pool.lp_fee_bp as int
    }
}

/// The LP fee amount in lamports.
pub open spec fn lp_fee_amount(pool: Pool, buyside_sol_escrow_balance: int, total: int) -> int {
    total * effective_lp_fee_bp(pool, buyside_sol_escrow_balance) / 10000
}

/// Effective liquidity-provider fee in basis points for a trade against
/// `pool` with the given buy-side escrow balance.
pub fn get_lp_fee_bp(pool: &Pool, buyside_sol_escrow_balance: u64) -> (r: u16)
    ensures
        r as int == effective_lp_fee_bp(*pool, buyside_sol_escrow_balance as int),
{
    if pool.sellside_asset_amount < 1 {
        return 0;
    }
    if buyside_sol_escrow_balance < pool.spot_price {
        return 0;
    }
    pool.lp_fee_bp
}

/// The liquidity-provider fee in lamports on a trade of `total_sol_price`.
/// The pool's LP fee is a basis-point fraction, validated at
/// configuration time, so the fee never exceeds the total.
pub fn get_sol_lp_fee(pool: &Pool, buyside_sol_escrow_balance: u64, total_sol_price: u64) -> (r:
    Result<u64, MmmError>)
    requires
        pool.lp_fee_bp <= 10000,
    ensures
        r matches Ok(v) && v as int == lp_fee_amount(
            *pool,
            buyside_sol_escrow_balance as int,
            total_sol_price as int,
        ),
{
    let lp_fee_bp = get_lp_fee_bp(pool, buyside_sol_escrow_balance);
    proof {
        lemma_mul_upper_bound(total_sol_price as int, 0xffff_ffff_ffff_ffff, lp_fee_bp as int, 0xffff);
        if lp_fee_bp > 0 {
            crate::curve::lemma_mul_div_le_self(total_sol_price as int, lp_fee_bp as int, 10000);
        }
    }
    let q = (total_sol_price as u128) * (lp_fee_bp as u128) / 10000;
    Ok(q as u64)
}

/// A proportional fee of `fee_bp` basis points on `total_sol_price`,
/// negative for rebates, truncated toward zero as the signed widened
/// division does. Fails with `NumericOverflow` exactly when the result
/// leaves the 64-bit signed range.
pub fn get_sol_fee(total_sol_price: u64, fee_bp: i16) -> (r: Result<i64, MmmError>)
    ensures
        ({
            let v = div_trunc((total_sol_price as int) * (fee_bp as int), 10000);
            if i64::MIN <= v <= i64::MAX {
                r == Ok::<i64, MmmError>(v as i64)
            } else {
                r == Err::<i64, MmmError>(MmmError::NumericOverflow)
            }
        }),
{
    if fee_bp >= 0 {
        proof {
            lemma_mul_upper_bound(total_sol_price as int, 0xffff_ffff_ffff_ffff, fee_bp as int, 0x7fff);
            assert((total_sol_price as int) * (fee_bp as int) >= 0) by (nonlinear_arith)
                requires
                    total_sol_price >= 0,
                    fee_bp >= 0,
            ;
            lemma_div_pos_is_pos((total_sol_price as int) * (fee_bp as int), 10000);
        }
        let q = (total_sol_price as u128) * (fee_bp as u128) / 10000;
        if q > i64::MAX as u128 {
            return Err(MmmError::NumericOverflow);
        }
        Ok(q as i64)
    } else {
        let mag = (-(fee_bp as i64)) as u128;
        proof {
            lemma_mul_upper_bound(total_sol_price as int, 0xffff_ffff_ffff_ffff, mag as int, 0x8000);
            assert((total_sol_price as int) * (mag as int) >= 0) by (nonlinear_arith)
                requires
                    total_sol_price >= 0,
                    mag >= 0,
            ;
            lemma_div_pos_is_pos((total_sol_price as int) * (mag as int), 10000);
            lemma_mul_unary_negation(total_sol_price as int, mag as int);
            assert((total_sol_price as int) * (fee_bp as int) == -((total_sol_price as int) * (
            mag as int))) by (nonlinear_arith)
                requires
                    mag as int == -(fee_bp as int),
            ;
        }
        let q = (total_sol_price as u128) * mag / 10000;
        if q > 9_223_372_036_854_775_808u128 {
            return Err(MmmError::NumericOverflow);
        }
        if q == 9_223_372_036_854_775_808u128 {
            Ok(i64::MIN)
        } else {
            Ok(-(q as i64))
        }
    }
}

/// What the seller nets on a buy-side fulfillment once the LP fee and
/// the creator royalty are carried by the buyer's total.
pub open spec fn seller_receives_spec(
    total_sol_price: int,
    lp_fee_bp: int,
    royalty_bp: int,
    buyside_creator_royalty_bp: int,
) -> int {
    total_sol_price * 100_000_000 / (lp_fee_bp * 10000 + royalty_bp * buyside_creator_royalty_bp
        + 100_000_000)
}

/// Net amount a seller receives out of `total_sol_price` after the LP
/// fee and the royalty share are peeled off. Never fails: the result is
/// at most the total itself.
pub fn get_buyside_seller_receives(
    total_sol_price: u64,
    lp_fee_bp: u16,
    royalty_bp: u16,
    buyside_creator_royalty_bp: u16,
) -> (r: Result<u64, MmmError>)
    ensures
        r matches Ok(v) && v as int == seller_receives_spec(
            total_sol_price as int,
            lp_fee_bp as int,
            royalty_bp as int,
            buyside_creator_royalty_bp as int,
        ),
{
    proof {
        lemma_mul_upper_bound(royalty_bp as int, 0xffff, buyside_creator_royalty_bp as int, 0xffff);
        assert((royalty_bp as int) * (buyside_creator_royalty_bp as int) >= 0) by (nonlinear_arith)
            requires
                royalty_bp >= 0,
                buyside_creator_royalty_bp >= 0,
        ;
    }
    let royalty_part = (royalty_bp as u128) * (buyside_creator_royalty_bp as u128);
    let all_fees = (lp_fee_bp as u128) * 10000 + royalty_part + 100_000_000;
    proof {
        crate::curve::lemma_mul_div_le_self(total_sol_price as int, 100_000_000, all_fees as int);
    }
    let q = (total_sol_price as u128) * 100_000_000 / all_fees;
    Ok(q as u64)
}

/// Whether a maker/taker referral fee configuration is acceptable: the
/// taker fee within `[0, MAX_REFERRAL_FEE_BP]`, the maker fee within
/// `[-MAX_REFERRAL_FEE_BP, MAX_REFERRAL_FEE_BP]`, and their sum within
/// `[0, MAX_REFERRAL_FEE_BP]` — the net referral cost can never be
/// negative nor exceed the cap.
pub open spec fn fees_bp_valid(maker_fee_bp: int, taker_fee_bp: int) -> bool {
    &&& 0 <= taker_fee_bp <= MAX_REFERRAL_FEE_BP
    &&& -MAX_REFERRAL_FEE_BP <= maker_fee_bp <= MAX_REFERRAL_FEE_BP
    &&& 0 <= maker_fee_bp + taker_fee_bp <= MAX_REFERRAL_FEE_BP
}

/// Validates a maker/taker referral fee configuration.
pub fn assert_valid_fees_bp(maker_fee_bp: i16, taker_fee_bp: i16) -> (r: Result<(), MmmError>)
    ensures
        r.is_ok() <==> fees_bp_valid(maker_fee_bp as int, taker_fee_bp as int),
        !fees_bp_valid(maker_fee_bp as int, taker_fee_bp as int) ==> r == Err::<(), MmmError>(
            MmmError::InvalidMakerOrTakerFeeBP,
        ),
{
    let bound = MAX_REFERRAL_FEE_BP;
    if taker_fee_bp < 0 || taker_fee_bp > bound {
        return Err(MmmError::InvalidMakerOrTakerFeeBP);
    }
    if maker_fee_bp < -bound || maker_fee_bp > bound {
        return Err(MmmError::InvalidMakerOrTakerFeeBP);
    }
    let sum = maker_fee_bp + taker_fee_bp;
    if sum < 0 || sum > bound {
        return Err(MmmError::InvalidMakerOrTakerFeeBP);
    }
    Ok(())
}

/// The capped multiplier application of the dynamic-royalty rule: the
/// product of multiplier and basis points over `10000`, narrowed to 16
/// bits exactly as the unchecked cast does, then capped at `10000`.
pub open spec fn safe_mul_bp_spec(multiplier_bp: int, bp: int) -> int {
    let r = (multiplier_bp * bp / 10000) % 0x10000;
    if r > 10000 {
        10000
    } else {
        r
    }
}

/// The linear price-dependent multiplier: constant outside
/// `[start_price, end_price]`, linearly interpolated (with truncating
/// signed division) inside, clamped to the 16-bit range before the
/// basis-point multiplication.
pub open spec fn price_linear_bp_spec(lin: PriceLinearInfo, price: int, bp: int) -> int {
    if price <= lin.start_price {
        safe_mul_bp_spec(lin.start_multiplier_bp as int, bp)
    } else if price >= lin.end_price {
        safe_mul_bp_spec(lin.end_multiplier_bp as int, bp)
    } else {
        let m = lin.start_multiplier_bp + div_trunc(
            (lin.end_multiplier_bp - lin.start_multiplier_bp) * (price - lin.start_price),
            lin.end_price - lin.start_price,
        );
        let mc = if m < 0 {
            0
        } else if m > 0xffff {
            0xffff
        } else {
            m
        };
        safe_mul_bp_spec(mc, bp)
    }
}

/// A dynamic-royalty rule is well formed when its linear-kind tag is
/// accompanied by the linear parameters.
pub open spec fn dynamic_royalty_wf(dr: DynamicRoyaltyInfo) -> bool {
    dr.kind == DYNAMIC_ROYALTY_KIND_PRICE_LINEAR ==> dr.price_linear.is_some()
}

/// The effective basis points a dynamic-royalty rule yields for a trade
/// at `price`: the rule's override (or the metadata fallback) fed
/// through the price-linear multiplier when the rule is of that kind.
pub open spec fn dynamic_royalty_bp_spec(
    dr: DynamicRoyaltyInfo,
    price: int,
    metadata_royalty_bp: int,
) -> int {
    let bp = match dr.override_royalty_bp {
        Some(o) => o as int,
        None => metadata_royalty_bp,
    };
    if dr.kind == DYNAMIC_ROYALTY_KIND_PRICE_LINEAR {
        match dr.price_linear {
            Some(lin) => price_linear_bp_spec(lin, price, bp),
            None => bp,
        }
    } else {
        bp
    }
}

/// Relies on open_creator_protocol's `DynamicRoyalty::get_royalty_bp`:
/// a pure function of the rule's fields, the trade price and the
/// fallback basis points, whose value `dynamic_royalty_bp_spec` states
/// exactly (its interior checked arithmetic never fails for 16-bit
/// multipliers, so the fallback arm is unreachable).
#[verifier::external_body]
fn eval_dynamic_royalty(dr: DynamicRoyaltyInfo, price: u64, metadata_royalty_bp: u16) -> (r: u16)
    requires
        dynamic_royalty_wf(dr),
    ensures
        r as int == dynamic_royalty_bp_spec(dr, price as int, metadata_royalty_bp as int),
{
    let lin = dr.price_linear.map(|l| DynamicRoyaltyPriceLinear {
        price_mint: None, start_price: l.start_price, end_price: l.end_price,
        start_multiplier_bp: l.start_multiplier_bp, end_multiplier_bp: l.end_multiplier_bp,
    });
    let rule = DynamicRoyalty {
        version: 1, kind: dr.kind, override_royalty_bp: dr.override_royalty_bp,
        kind_price_linear: lin, _reserved_0: [0; 32], _reserved_1: [0; 32],
        _reserved_2: [0; 32], _reserved_3: [0; 32],
    };
    rule.get_royalty_bp(price, metadata_royalty_bp)
}

/// The royalty basis points that apply to a trade: the policy's dynamic
/// rule when one is attached, else the asset's static declared royalty.
pub open spec fn metadata_royalty_bp_spec(
    total_price: int,
    meta: Metadata,
    policy: Option<PolicyInfo>,
) -> int {
    match policy {
        None => meta.seller_fee_basis_points as int,
        Some(p) => match p.dynamic_royalty {
            None => meta.seller_fee_basis_points as int,
            Some(dr) => dynamic_royalty_bp_spec(dr, total_price, meta.seller_fee_basis_points as int),
        },
    }
}

/// Effective royalty basis points for a trade of `total_price` against
/// an asset with `parsed_metadata`, under an optionally attached
/// dynamic-royalty policy.
pub fn get_metadata_royalty_bp(
    total_price: u64,
    parsed_metadata: &Metadata,
    policy: Option<PolicyInfo>,
) -> (r: u16)
    requires
        (policy matches Some(p) ==> (p.dynamic_royalty matches Some(dr) ==> dynamic_royalty_wf(
            dr,
        ))),
    ensures
        r as int == metadata_royalty_bp_spec(total_price as int, *parsed_metadata, policy),
{
    match policy {
        None => parsed_metadata.seller_fee_basis_points,
        Some(p) => match p.dynamic_royalty {
            None => parsed_metadata.seller_fee_basis_points,
            Some(dr) => eval_dynamic_royalty(dr, total_price, parsed_metadata.seller_fee_basis_points),
        },
    }
}

/// Where the seller's proceeds of a sell-side fulfillment go.
#[derive(Clone, Copy, Debug, PartialEq, Eq, Structural)]
pub enum SolRecipient {
    /// Proceeds stay in the pool's buy-side escrow (reinvesting pool).
    BuysideEscrow,
    /// Proceeds flow to the pool owner.
    Owner,
}

/// Everything the glue needs to settle a sell-side fulfillment: the
/// priced trade, its fee splits and where the proceeds go.
#[derive(Clone, Copy, Debug, PartialEq, Eq)]
pub struct PoolPriceInfo {
    pub total_price: u64,
    pub next_price: u64,
    pub lp_fee: u64,
    pub maker_fee: i64,
    pub taker_fee: i64,
    pub referral_fee: u64,
    pub transfer_sol_to: SolRecipient,
}

proof fn lemma_fee_fits(total: int, bp: int)
    requires
        0 <= total <= 0xffff_ffff_ffff_ffff,
        -(MAX_REFERRAL_FEE_BP as int) <= bp <= MAX_REFERRAL_FEE_BP as int,
    ensures
        -0x1000_0000_0000_0000 <= div_trunc(total * bp, 10000) <= 0x1000_0000_0000_0000,
{
    if bp >= 0 {
        lemma_mul_upper_bound(total, 0xffff_ffff_ffff_ffff, bp, MAX_REFERRAL_FEE_BP as int);
        assert(total * bp >= 0) by (nonlinear_arith)
            requires
                total >= 0,
                bp >= 0,
        ;
        lemma_div_pos_is_pos(total * bp, 10000);
        lemma_div_is_ordered(total * bp, 0xffff_ffff_ffff_ffff * (MAX_REFERRAL_FEE_BP as int), 10000);
    } else {
        let m = -bp;
        lemma_mul_upper_bound(total, 0xffff_ffff_ffff_ffff, m, MAX_REFERRAL_FEE_BP as int);
        assert(total * m >= 0) by (nonlinear_arith)
            requires
                total >= 0,
                m >= 0,
        ;
        lemma_div_pos_is_pos(total * m, 10000);
        lemma_div_is_ordered(total * m, 0xffff_ffff_ffff_ffff * (MAX_REFERRAL_FEE_BP as int), 10000);
        assert(total * bp == -(total * m)) by (nonlinear_arith)
            requires
                m == -bp,
        ;
    }
}

proof fn lemma_referral_nonneg(total: int, mb: int, tb: int)
    requires
        0 <= total,
        tb >= 0,
        mb + tb >= 0,
    ensures
        div_trunc(total * mb, 10000) + div_trunc(total * tb, 10000) >= 0,
{
    assert(total * tb >= 0) by (nonlinear_arith)
        requires
            total >= 0,
            tb >= 0,
    ;
    lemma_div_pos_is_pos(total * tb, 10000);
    if mb >= 0 {
        assert(total * mb >= 0) by (nonlinear_arith)
            requires
                total >= 0,
                mb >= 0,
        ;
        lemma_div_pos_is_pos(total * mb, 10000);
    } else {
        let m = -mb;
        assert(m <= tb);
        assert(total * m >= 0 && total * m <= total * tb) by (nonlinear_arith)
            requires
                total >= 0,
                0 <= m,
                m <= tb,
        ;
        lemma_div_is_ordered(total * m, total * tb, 10000);
        assert(total * mb == -(total * m)) by (nonlinear_arith)
            requires
                m == -mb,
        ;
    }
}

/// Prices a sell-side fulfillment of `asset_amount` units and derives
/// every fee split the settlement needs. Fails with the pricing error
/// when the quote fails, and with `InvalidMakerOrTakerFeeBP` when the
/// referral configuration is out of bounds; with a valid configuration
/// the referral fee (maker plus taker) is never negative.
pub fn get_sell_fulfill_pool_price_info(
    pool: &Pool,
    buyside_sol_escrow_balance: u64,
    asset_amount: u64,
    maker_fee_bp: i16,
    taker_fee_bp: i16,
) -> (r: Result<PoolPriceInfo, MmmError>)
    requires
        pool.curve_type == CURVE_KIND_EXP ==> pool.curve_delta <= 10000,
        pool.lp_fee_bp <= 10000,
    ensures
        pool.curve_type > CURVE_KIND_EXP ==> r == Err::<PoolPriceInfo, MmmError>(
            MmmError::InvalidCurveType,
        ),
        pool.curve_type <= CURVE_KIND_EXP && !quote_ok(*pool, asset_amount as int, false) ==> r
            == Err::<PoolPriceInfo, MmmError>(MmmError::NumericOverflow),
        pool.curve_type <= CURVE_KIND_EXP && quote_ok(*pool, asset_amount as int, false)
            && !fees_bp_valid(maker_fee_bp as int, taker_fee_bp as int) ==> r == Err::<
            PoolPriceInfo,
            MmmError,
        >(MmmError::InvalidMakerOrTakerFeeBP),
        pool.curve_type <= CURVE_KIND_EXP && quote_ok(*pool, asset_amount as int, false)
            && fees_bp_valid(maker_fee_bp as int, taker_fee_bp as int) ==> (r matches Ok(info) && ({
            let total = quote_total(*pool, asset_amount as int, false);
            &&& info.total_price == total
            &&& info.next_price == quote_next(*pool, asset_amount as int, false)
            &&& info.lp_fee == lp_fee_amount(*pool, buyside_sol_escrow_balance as int, total)
            &&& info.maker_fee == div_trunc(total * (maker_fee_bp as int), 10000)
            &&& info.taker_fee == div_trunc(total * (taker_fee_bp as int), 10000)
            &&& info.referral_fee == info.maker_fee + info.taker_fee
            &&& info.transfer_sol_to == (if pool.reinvest_fulfill_sell {
                SolRecipient::BuysideEscrow
            } else {
                SolRecipient::Owner
            })
        })),
{
    let quote = match crate::curve::get_sol_total_price_and_next_price(pool, asset_amount, false) {
        Ok(q) => q,
        Err(e) => {
            return Err(e);
        },
    };
    let (total_price, next_price) = quote;
    let lp_fee = match get_sol_lp_fee(pool, buyside_sol_escrow_balance, total_price) {
        Ok(v) => v,
        Err(e) => {
            return Err(e);
        },
    };
    match assert_valid_fees_bp(maker_fee_bp, taker_fee_bp) {
        Ok(()) => {},
        Err(e) => {
            return Err(e);
        },
    }
    proof {
        lemma_fee_fits(total_price as int, maker_fee_bp as int);
        lemma_fee_fits(total_price as int, taker_fee_bp as int);
        lemma_referral_nonneg(total_price as int, maker_fee_bp as int, taker_fee_bp as int);
    }
    let maker_fee = match get_sol_fee(total_price, maker_fee_bp) {
        Ok(v) => v,
        Err(_) => {
            proof {
                assert(false);
            }
            return Err(MmmError::NumericOverflow);
        },
    };
    let taker_fee = match get_sol_fee(total_price, taker_fee_bp) {
        Ok(v) => v,
        Err(_) => {
            proof {
                assert(false);
            }
            return Err(MmmError::NumericOverflow);
        },
    };
    let referral_fee = (maker_fee + taker_fee) as u64;
    let transfer_sol_to = if pool.reinvest_fulfill_sell {
        SolRecipient::BuysideEscrow
    } else {
        SolRecipient::Owner
    };
    Ok(
        PoolPriceInfo {
            total_price,
            next_price,
            lp_fee,
            maker_fee,
            taker_fee,
            referral_fee,
            transfer_sol_to,
        },
    )
}

} // verus!
