use mmm_core::errors::MmmError;
use mmm_core::fees::{
    assert_valid_fees_bp, get_buyside_seller_receives, get_lp_fee_bp, get_metadata_royalty_bp,
    get_sol_fee, get_sol_lp_fee,
};
use mmm_core::royalty::pay_creator_fees_in_sol;
use mmm_core::state::{
    Creator, CreatorAccount, DynamicRoyaltyInfo, Metadata, PolicyInfo, Pool, PriceLinearInfo,
    Pubkey, CURVE_KIND_LINEAR, DYNAMIC_ROYALTY_KIND_PRICE_LINEAR,
};

fn mk_pool(spot_price: u64, lp_fee_bp: u16, sellside: u64) -> Pool {
    Pool {
        owner: Pubkey { hi: 1, lo: 2 },
        uuid: Pubkey { hi: 3, lo: 4 },
        spot_price,
        curve_type: CURVE_KIND_LINEAR,
        curve_delta: 0,
        lp_fee_bp,
        sellside_asset_amount: sellside,
        buyside_payment_amount: 0,
        reinvest_fulfill_sell: false,
        shared_escrow_account: Pubkey { hi: 0, lo: 0 },
        shared_escrow_count: 0,
    }
}

fn mk_metadata(sfbp: u16, creators: Option<Vec<Creator>>) -> Metadata {
    Metadata {
        uri: b"https://example.org/asset.json".to_vec(),
        seller_fee_basis_points: sfbp,
        creators,
        collection: None,
        token_standard: None,
    }
}

#[test]
fn lp_fee_applies_only_with_inventory_and_funded_escrow() {
    assert_eq!(get_lp_fee_bp(&mk_pool(1000, 250, 1), 1000), 250);
    assert_eq!(get_lp_fee_bp(&mk_pool(1000, 250, 0), 1000), 0);
    assert_eq!(get_lp_fee_bp(&mk_pool(1000, 250, 1), 999), 0);
}

#[test]
fn sol_lp_fee_is_proportional() {
    assert_eq!(get_sol_lp_fee(&mk_pool(1000, 200, 1), 1000, 10000), Ok(200));
    assert_eq!(get_sol_lp_fee(&mk_pool(1000, 200, 1), 1000, 3060), Ok(61));
    assert_eq!(get_sol_lp_fee(&mk_pool(1000, 200, 0), 1000, 10000), Ok(0));
}

#[test]
fn sol_fee_truncates_toward_zero() {
    assert_eq!(get_sol_fee(10000, 250), Ok(250));
    assert_eq!(get_sol_fee(3060, -50), Ok(-15));
    assert_eq!(get_sol_fee(3060, 100), Ok(30));
    assert_eq!(get_sol_fee(0, 500), Ok(0));
}

#[test]
fn sol_fee_overflows_out_of_signed_range() {
    assert_eq!(get_sol_fee(u64::MAX, 32767), Err(MmmError::NumericOverflow));
}

#[test]
fn seller_receives_peels_fees_off_total() {
    // denominator: 100*10^4 + 500*10^4... lp 100 bp, royalty 500 bp at full
    // buyside share: 10000 * 10^8 / (10^6 + 5*10^6 + 10^8) = 9433
    assert_eq!(get_buyside_seller_receives(10000, 100, 500, 10000), Ok(9433));
    assert_eq!(get_buyside_seller_receives(10000, 0, 0, 0), Ok(10000));
}

#[test]
fn fee_bp_validation_accepts_rebate_covered_by_taker() {
    assert_eq!(assert_valid_fees_bp(-50, 100), Ok(()));
}

#[test]
fn fee_bp_validation_rejects_negative_net() {
    assert_eq!(assert_valid_fees_bp(-200, 100), Err(MmmError::InvalidMakerOrTakerFeeBP));
}

#[test]
fn fee_bp_validation_bounds_each_side() {
    assert_eq!(assert_valid_fees_bp(0, -1), Err(MmmError::InvalidMakerOrTakerFeeBP));
    assert_eq!(assert_valid_fees_bp(0, 501), Err(MmmError::InvalidMakerOrTakerFeeBP));
    assert_eq!(assert_valid_fees_bp(-501, 500), Err(MmmError::InvalidMakerOrTakerFeeBP));
    assert_eq!(assert_valid_fees_bp(300, 300), Err(MmmError::InvalidMakerOrTakerFeeBP));
    assert_eq!(assert_valid_fees_bp(400, 100), Ok(()));
}

#[test]
fn metadata_royalty_without_policy_is_static() {
    let meta = mk_metadata(1000, None);
    assert_eq!(get_metadata_royalty_bp(500, &meta, None), 1000);
    let empty_policy = PolicyInfo { dynamic_royalty: None };
    assert_eq!(get_metadata_royalty_bp(500, &meta, Some(empty_policy)), 1000);
}

#[test]
fn metadata_royalty_with_linear_policy_interpolates() {
    let meta = mk_metadata(1000, None);
    let policy = PolicyInfo {
        dynamic_royalty: Some(DynamicRoyaltyInfo {
            kind: DYNAMIC_ROYALTY_KIND_PRICE_LINEAR,
            override_royalty_bp: None,
            price_linear: Some(PriceLinearInfo {
                start_price: 100,
                end_price: 1000,
                start_multiplier_bp: 10000,
                end_multiplier_bp: 100,
            }),
        }),
    };
    assert_eq!(get_metadata_royalty_bp(0, &meta, Some(policy)), 1000);
    assert_eq!(get_metadata_royalty_bp(100, &meta, Some(policy)), 1000);
    assert_eq!(get_metadata_royalty_bp(500, &meta, Some(policy)), 560);
    assert_eq!(get_metadata_royalty_bp(1000, &meta, Some(policy)), 10);
    assert_eq!(get_metadata_royalty_bp(10000, &meta, Some(policy)), 10);
}

#[test]
fn metadata_royalty_override_replaces_static_base() {
    let meta = mk_metadata(1000, None);
    let policy = PolicyInfo {
        dynamic_royalty: Some(DynamicRoyaltyInfo {
            kind: DYNAMIC_ROYALTY_KIND_PRICE_LINEAR,
            override_royalty_bp: Some(2000),
            price_linear: Some(PriceLinearInfo {
                start_price: 100,
                end_price: 1000,
                start_multiplier_bp: 5000,
                end_multiplier_bp: 20000,
            }),
        }),
    };
    assert_eq!(get_metadata_royalty_bp(0, &meta, Some(policy)), 1000);
    assert_eq!(get_metadata_royalty_bp(500, &meta, Some(policy)), 2333);
    assert_eq!(get_metadata_royalty_bp(1000, &meta, Some(policy)), 4000);
}

fn creator(hi: u128, share: u8) -> Creator {
    Creator { address: Pubkey { hi, lo: 0 }, verified: true, share }
}

fn account(hi: u128, lamports: u64) -> CreatorAccount {
    CreatorAccount { key: Pubkey { hi, lo: 0 }, lamports }
}

#[test]
fn creator_fees_split_sixty_forty_with_exact_remainder() {
    let meta = mk_metadata(1000, Some(vec![creator(10, 60), creator(11, 40)]));
    let accounts = vec![account(10, 5000), account(11, 5000)];
    // royalty: 10000 * 1000/10000 * 10000/10000 = 1000
    let out = pay_creator_fees_in_sol(10000, 10000, &meta, &accounts, 1_000_000, 1000, 890)
        .unwrap();
    assert_eq!(out.amounts, vec![600, 400]);
    assert_eq!(out.total_paid, 1000);
}

#[test]
fn creator_fees_remainder_absorbs_truncation() {
    let meta = mk_metadata(1000, Some(vec![creator(10, 33), creator(11, 33), creator(12, 34)]));
    let accounts = vec![account(10, 5000), account(11, 5000), account(12, 5000)];
    let out = pay_creator_fees_in_sol(10000, 10000, &meta, &accounts, 1_000_000, 1000, 890)
        .unwrap();
    assert_eq!(out.amounts, vec![330, 330, 340]);
    assert_eq!(out.total_paid, 1000);
}

#[test]
fn creator_fees_zero_royalty_distributes_nothing() {
    let meta = mk_metadata(1000, Some(vec![creator(10, 100)]));
    let accounts = vec![account(10, 5000)];
    let out = pay_creator_fees_in_sol(0, 10000, &meta, &accounts, 10, 0, 890).unwrap();
    assert_eq!(out.total_paid, 0);
    assert_eq!(out.amounts, Vec::<u64>::new());
}

#[test]
fn creator_fees_require_payer_balance() {
    let meta = mk_metadata(1000, Some(vec![creator(10, 100)]));
    let accounts = vec![account(10, 5000)];
    assert_eq!(
        pay_creator_fees_in_sol(10000, 10000, &meta, &accounts, 999, 1000, 890),
        Err(MmmError::NotEnoughBalance)
    );
}

#[test]
fn creator_fees_reject_excessive_declared_royalty() {
    let meta = mk_metadata(3001, Some(vec![creator(10, 100)]));
    let accounts = vec![account(10, 5000)];
    assert_eq!(
        pay_creator_fees_in_sol(10000, 10000, &meta, &accounts, 1_000_000, 1000, 890),
        Err(MmmError::InvalidMetadataCreatorRoyalty)
    );
}

#[test]
fn creator_fees_reject_mismatched_account() {
    let meta = mk_metadata(1000, Some(vec![creator(10, 100)]));
    let accounts = vec![account(99, 5000)];
    assert_eq!(
        pay_creator_fees_in_sol(10000, 10000, &meta, &accounts, 1_000_000, 1000, 890),
        Err(MmmError::InvalidCreatorAddress)
    );
}

#[test]
fn creator_fees_need_an_account_per_creator() {
    let meta = mk_metadata(1000, Some(vec![creator(10, 60), creator(11, 40)]));
    let accounts = vec![account(10, 5000)];
    assert_eq!(
        pay_creator_fees_in_sol(10000, 10000, &meta, &accounts, 1_000_000, 1000, 890),
        Err(MmmError::AccountNotEnoughKeys)
    );
}

#[test]
fn creator_fees_skip_sub_floor_payment_and_reassign_remainder() {
    let meta = mk_metadata(1000, Some(vec![creator(10, 60), creator(11, 40)]));
    // first creator's 600 would not lift its empty account above the floor
    let accounts = vec![account(10, 0), account(11, 20000)];
    let out = pay_creator_fees_in_sol(10000, 10000, &meta, &accounts, 1_000_000, 1000, 10000)
        .unwrap();
    assert_eq!(out.amounts, vec![0, 1000]);
    assert_eq!(out.total_paid, 1000);
}

#[test]
fn creator_fees_without_creator_list_distribute_nothing() {
    let meta = mk_metadata(1000, None);
    let accounts: Vec<CreatorAccount> = Vec::new();
    let out = pay_creator_fees_in_sol(10000, 10000, &meta, &accounts, 10, 1000, 890).unwrap();
    assert_eq!(out.total_paid, 0);
}
