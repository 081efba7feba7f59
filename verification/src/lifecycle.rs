//! Safe reclamation of pool, per-seller and escrow accounts.
//!
//! A pool or sell-state record is reclaimed only when it is empty; an
//! escrow balance is swept back into the pool only when it has fallen to
//! a dust level that can no longer grow. Reclamation is always a no-op
//! rather than an error when its conditions do not hold, so the calls
//! are safe to repeat.

use vstd::prelude::*;
use crate::errors::MmmError;
use crate::state::{Pool, Pubkey, SellState, MIN_SOL_ESCROW_BALANCE_BP};

verus! {

/// When a pool may be destroyed: no sell-side inventory, no buy-side
/// payment, and no live references into a shared escrow.
pub open spec fn pool_reclaimable(pool: Pool) -> bool {
    &&& pool.sellside_asset_amount == 0
    &&& pool.buyside_payment_amount == 0
    &&& (pool.spec_using_shared_escrow() ==> pool.shared_escrow_count == 0)
}

/// The all-zero pool state a reclaimed account is left with.
pub open spec fn zeroed_pool() -> Pool {
    Pool {
        owner: Pubkey::spec_zero(),
        uuid: Pubkey::spec_zero(),
        spot_price: 0,
        curve_type: 0,
        curve_delta: 0,
        lp_fee_bp: 0,
        sellside_asset_amount: 0,
        buyside_payment_amount: 0,
        reinvest_fulfill_sell: false,
        shared_escrow_account: Pubkey::spec_zero(),
        shared_escrow_count: 0,
    }
}

/// The close transition on `(pool, pool_lamports, owner_lamports)`:
/// an empty pool is zeroed and its whole balance moves to the owner;
/// any other pool is left untouched.
pub open spec fn close_pool_step(pool: Pool, pool_lamports: int, owner_lamports: int) -> (
    Pool,
    int,
    int,
) {
    if pool_reclaimable(pool) {
        (zeroed_pool(), 0, owner_lamports + pool_lamports)
    } else {
        (pool, pool_lamports, owner_lamports)
    }
}

/// Reclaims a pool iff it is empty: zeroes the pool state and moves its
/// remaining account balance to the owner. Otherwise a no-op, never an
/// error.
pub fn try_close_pool(pool: &mut Pool, pool_lamports: &mut u64, owner_lamports: &mut u64) -> (r:
    Result<(), MmmError>)
    requires
        pool_reclaimable(*old(pool)) ==> *old(owner_lamports) + *old(pool_lamports) <= u64::MAX,
    ensures
        r == Ok::<(), MmmError>(()),
        *final(pool) == close_pool_step(
            *old(pool),
            *old(pool_lamports) as int,
            *old(owner_lamports) as int,
        ).0,
        *final(pool_lamports) == close_pool_step(
            *old(pool),
            *old(pool_lamports) as int,
            *old(owner_lamports) as int,
        ).1,
        *final(owner_lamports) == close_pool_step(
            *old(pool),
            *old(pool_lamports) as int,
            *old(owner_lamports) as int,
        ).2,
{
    if pool.sellside_asset_amount != 0 {
        return Ok(());
    }
    if pool.buyside_payment_amount != 0 {
        return Ok(());
    }
    if pool.using_shared_escrow() && pool.shared_escrow_count != 0 {
        return Ok(());
    }
    *pool = Pool {
        owner: Pubkey::zero(),
        uuid: Pubkey::zero(),
        spot_price: 0,
        curve_type: 0,
        curve_delta: 0,
        lp_fee_bp: 0,
        sellside_asset_amount: 0,
        buyside_payment_amount: 0,
        reinvest_fulfill_sell: false,
        shared_escrow_account: Pubkey::zero(),
        shared_escrow_count: 0,
    };
    let curr = *pool_lamports;
    *pool_lamports = 0;
    *owner_lamports = *owner_lamports + curr;
    Ok(())
}

/// Law: `try_close_pool` is idempotent. Applying the close transition
/// twice equals applying it once: a reclaimed pool is empty again, so a
/// second close zeroes what is already zero and moves a balance of
/// exactly zero — the owner is never credited twice.
pub proof fn lemma_close_pool_idempotent(pool: Pool, pool_lamports: int, owner_lamports: int)
    ensures
        ({
            let once = close_pool_step(pool, pool_lamports, owner_lamports);
            close_pool_step(once.0, once.1, once.2) == once
        }),
{
}

/// When a per-seller record may be destroyed: it holds no units.
pub open spec fn sell_state_reclaimable(sell_state: SellState) -> bool {
    sell_state.asset_amount == 0
}

/// The all-zero sell-state a reclaimed record is left with.
pub open spec fn zeroed_sell_state() -> SellState {
    SellState { pool: Pubkey::spec_zero(), asset_mint: Pubkey::spec_zero(), asset_amount: 0 }
}

/// The close transition on `(sell_state, record_lamports,
/// owner_lamports)`.
pub open spec fn close_sell_state_step(
    sell_state: SellState,
    record_lamports: int,
    owner_lamports: int,
) -> (SellState, int, int) {
    if sell_state_reclaimable(sell_state) {
        (zeroed_sell_state(), 0, owner_lamports + record_lamports)
    } else {
        (sell_state, record_lamports, owner_lamports)
    }
}

/// Reclaims a per-seller record iff it holds no units: zeroes the
/// record and moves its account balance to the owner. Otherwise a
/// no-op, never an error.
pub fn try_close_sell_state(
    sell_state: &mut SellState,
    sell_state_lamports: &mut u64,
    owner_lamports: &mut u64,
) -> (r: Result<(), MmmError>)
    requires
        sell_state_reclaimable(*old(sell_state)) ==> *old(owner_lamports) + *old(
            sell_state_lamports,
        ) <= u64::MAX,
    ensures
        r == Ok::<(), MmmError>(()),
        *final(sell_state) == close_sell_state_step(
            *old(sell_state),
            *old(sell_state_lamports) as int,
            *old(owner_lamports) as int,
        ).0,
        *final(sell_state_lamports) == close_sell_state_step(
            *old(sell_state),
            *old(sell_state_lamports) as int,
            *old(owner_lamports) as int,
        ).1,
        *final(owner_lamports) == close_sell_state_step(
            *old(sell_state),
            *old(sell_state_lamports) as int,
            *old(owner_lamports) as int,
        ).2,
{
    if sell_state.asset_amount != 0 {
        return Ok(());
    }
    *sell_state = SellState {
        pool: Pubkey::zero(),
        asset_mint: Pubkey::zero(),
        asset_amount: 0,
    };
    let curr = *sell_state_lamports;
    *sell_state_lamports = 0;
    *owner_lamports = *owner_lamports + curr;
    Ok(())
}

/// The minimum balance an escrow must keep. A pool that reinvests sale
/// proceeds and still holds inventory can see its escrow grow, so only
/// the bare rent minimum applies; otherwise the balance cannot grow and
/// the floor is a basis-point fraction of the spot price.
pub open spec fn escrow_floor(pool: Pool, min_rent: int) -> int {
    if pool.reinvest_fulfill_sell && pool.sellside_asset_amount > 0 {
        min_rent
    } else {
        pool.spot_price * MIN_SOL_ESCROW_BALANCE_BP / 10000
    }
}

/// When an escrow balance is swept: it is nonzero and no greater than
/// the larger of the rent minimum and the floor.
pub open spec fn escrow_sweepable(pool: Pool, escrow_lamports: int, min_rent: int) -> bool {
    &&& escrow_lamports != 0
    &&& escrow_lamports <= (if min_rent > escrow_floor(pool, min_rent) {
        min_rent
    } else {
        escrow_floor(pool, min_rent)
    })
}

/// The sweep transition on `(escrow_lamports, pool_lamports)`: a
/// sweepable balance moves whole into the pool, any other balance is
/// left untouched.
pub open spec fn sweep_escrow_step(
    pool: Pool,
    escrow_lamports: int,
    pool_lamports: int,
    min_rent: int,
) -> (int, int) {
    if escrow_sweepable(pool, escrow_lamports, min_rent) {
        (0, pool_lamports + escrow_lamports)
    } else {
        (escrow_lamports, pool_lamports)
    }
}

/// Sweeps an escrow balance back into the pool iff it has fallen to
/// dust: nonzero but no more than `max(min_rent, floor)`. The whole
/// balance moves, never a part of it; a balance above the floor is
/// never touched. Never an error.
pub fn try_close_escrow(
    escrow_lamports: &mut u64,
    pool: &Pool,
    pool_lamports: &mut u64,
    min_rent: u64,
) -> (r: Result<(), MmmError>)
    requires
        escrow_sweepable(*pool, *old(escrow_lamports) as int, min_rent as int) ==> *old(
            pool_lamports,
        ) + *old(escrow_lamports) <= u64::MAX,
    ensures
        r == Ok::<(), MmmError>(()),
        *final(escrow_lamports) == sweep_escrow_step(
            *pool,
            *old(escrow_lamports) as int,
            *old(pool_lamports) as int,
            min_rent as int,
        ).0,
        *final(pool_lamports) == sweep_escrow_step(
            *pool,
            *old(escrow_lamports) as int,
            *old(pool_lamports) as int,
            min_rent as int,
        ).1,
{
    proof {
        vstd::arithmetic::mul::lemma_mul_upper_bound(
            pool.spot_price as int,
            0xffff_ffff_ffff_ffff,
            MIN_SOL_ESCROW_BALANCE_BP as int,
            10000,
        );
        crate::curve::lemma_mul_div_le_self(
            pool.spot_price as int,
            MIN_SOL_ESCROW_BALANCE_BP as int,
            10000,
        );
    }
    let min_escrow_balance: u64 = if pool.reinvest_fulfill_sell && pool.sellside_asset_amount > 0 {
        min_rent
    } else {
        ((pool.spot_price as u128) * (MIN_SOL_ESCROW_BALANCE_BP as u128) / 10000) as u64
    };
    let floor_max = if min_rent > min_escrow_balance {
        min_rent
    } else {
        min_escrow_balance
    };
    if *escrow_lamports == 0 || *escrow_lamports > floor_max {
        return Ok(());
    }
    let amt = *escrow_lamports;
    *escrow_lamports = 0;
    *pool_lamports = *pool_lamports + amt;
    Ok(())
}

/// Law: the sweep is all-or-nothing and conserving. A balance above
/// `max(min_rent, floor)` is never swept; a swept escrow is left at
/// exactly zero; and no lamport is created or lost by the transition.
pub proof fn lemma_sweep_all_or_nothing(
    pool: Pool,
    escrow_lamports: int,
    pool_lamports: int,
    min_rent: int,
)
    ensures
        ({
            let after = sweep_escrow_step(pool, escrow_lamports, pool_lamports, min_rent);
            &&& (escrow_lamports > (if min_rent > escrow_floor(pool, min_rent) {
                min_rent
            } else {
                escrow_floor(pool, min_rent)
            }) ==> after == (escrow_lamports, pool_lamports))
            &&& (after.0 == 0 || after.0 == escrow_lamports)
            &&& after.0 + after.1 == escrow_lamports + pool_lamports
        }),
{
}

/// Checks the caller-supplied account set for a withdrawal from the
/// third-party shared escrow: the first account must be the escrow
/// program itself and the second the pool owner's escrow sub-account.
/// Both expected addresses come from the caller: the program identity
/// is fixed configuration and the sub-account address is derived by the
/// address-derivation collaborator.
pub fn check_remaining_accounts_for_m2(
    remaining_account_keys: &Vec<Pubkey>,
    m2_program: Pubkey,
    m2_shared_escrow_pda: Pubkey,
) -> (r: Result<(), MmmError>)
    ensures
        r.is_ok() <==> (remaining_account_keys@.len() >= 2 && remaining_account_keys@[0]
            == m2_program && remaining_account_keys@[1] == m2_shared_escrow_pda),
        !r.is_ok() ==> r == Err::<(), MmmError>(MmmError::InvalidRemainingAccounts),
{
    if remaining_account_keys.len() < 2 {
        return Err(MmmError::InvalidRemainingAccounts);
    }
    if !(remaining_account_keys[0] == m2_program) {
        return Err(MmmError::InvalidRemainingAccounts);
    }
    if !(remaining_account_keys[1] == m2_shared_escrow_pda) {
        return Err(MmmError::InvalidRemainingAccounts);
    }
    Ok(())
}

} // verus!
