use mmm_core::allowlist::{
    assert_is_programmable, assert_valid_group, check_allowlists, check_allowlists_for_mint,
    check_allowlists_for_mint_ext,
};
use mmm_core::errors::MmmError;
use mmm_core::lifecycle::{
    check_remaining_accounts_for_m2, try_close_escrow, try_close_pool, try_close_sell_state,
};
use mmm_core::state::{
    Allowlist, Collection, Creator, MasterEditionAccount, Metadata, MetadataAccount,
    MintExtAccount, Pool, Pubkey, SellState, TokenGroupMemberInfo, TokenMetadataInfo,
    TokenStandard, ALLOWLIST_KIND_ANY, ALLOWLIST_KIND_FVCA, ALLOWLIST_KIND_GROUP,
    ALLOWLIST_KIND_MCC, ALLOWLIST_KIND_METADATA, ALLOWLIST_KIND_MINT, CURVE_KIND_LINEAR,
};

fn pk(hi: u128) -> Pubkey {
    Pubkey { hi, lo: 0 }
}

fn metadata_program() -> Pubkey {
    Pubkey { hi: 77, lo: 77 }
}

fn token22_program() -> Pubkey {
    Pubkey { hi: 88, lo: 88 }
}

fn mk_meta_account(meta: Metadata) -> MetadataAccount {
    MetadataAccount { key: pk(500), owner: metadata_program(), metadata: meta }
}

fn plain_meta() -> Metadata {
    Metadata {
        uri: b"  https://example.org/a.json".to_vec(),
        seller_fee_basis_points: 500,
        creators: Some(vec![Creator { address: pk(10), verified: true, share: 100 }]),
        collection: Some(Collection { verified: true, key: pk(20) }),
        token_standard: Some(TokenStandard::ProgrammableNonFungible),
    }
}

fn entry(kind: u8, value: Pubkey) -> Allowlist {
    Allowlist { kind, value }
}

fn check_legacy(
    entries: Vec<Allowlist>,
    mint_key: Pubkey,
    meta: Metadata,
    aux: Option<Vec<u8>>,
) -> Result<Metadata, MmmError> {
    check_allowlists_for_mint(
        &entries,
        mint_key,
        &mk_meta_account(meta),
        metadata_program(),
        pk(500),
        None,
        pk(0),
        aux,
    )
}

#[test]
fn allowlist_entry_kinds_are_validated() {
    assert_eq!(check_allowlists(&vec![entry(ALLOWLIST_KIND_ANY, pk(0))]), Ok(()));
    assert_eq!(
        check_allowlists(&vec![entry(7, pk(0))]),
        Err(MmmError::InvalidAllowLists)
    );
}

#[test]
fn any_entry_accepts_every_asset() {
    let r = check_legacy(vec![entry(ALLOWLIST_KIND_ANY, pk(0))], pk(1), plain_meta(), None);
    assert!(r.is_ok());
}

#[test]
fn mint_entry_accepts_only_its_mint() {
    let entries = vec![entry(ALLOWLIST_KIND_MINT, pk(42))];
    assert!(check_legacy(entries.clone(), pk(42), plain_meta(), None).is_ok());
    assert_eq!(
        check_legacy(entries, pk(43), plain_meta(), None).map(|_| ()),
        Err(MmmError::InvalidAllowLists)
    );
}

#[test]
fn fvca_entry_needs_verified_first_creator() {
    let entries = vec![entry(ALLOWLIST_KIND_FVCA, pk(10))];
    assert!(check_legacy(entries.clone(), pk(1), plain_meta(), None).is_ok());
    let mut unverified = plain_meta();
    unverified.creators = Some(vec![Creator { address: pk(10), verified: false, share: 100 }]);
    assert_eq!(
        check_legacy(entries, pk(1), unverified, None).map(|_| ()),
        Err(MmmError::InvalidAllowLists)
    );
}

#[test]
fn collection_entry_needs_verified_collection() {
    let entries = vec![entry(ALLOWLIST_KIND_MCC, pk(20))];
    assert!(check_legacy(entries.clone(), pk(1), plain_meta(), None).is_ok());
    let mut other = plain_meta();
    other.collection = Some(Collection { verified: true, key: pk(21) });
    assert_eq!(
        check_legacy(entries, pk(1), other, None).map(|_| ()),
        Err(MmmError::InvalidAllowLists)
    );
}

#[test]
fn union_takes_first_match() {
    let entries = vec![
        entry(ALLOWLIST_KIND_MINT, pk(42)),
        entry(ALLOWLIST_KIND_ANY, pk(0)),
    ];
    assert!(check_legacy(entries, pk(1), plain_meta(), None).is_ok());
}

#[test]
fn unrecognized_kind_fails_the_scan() {
    let entries = vec![entry(9, pk(0)), entry(ALLOWLIST_KIND_ANY, pk(0))];
    assert_eq!(
        check_legacy(entries, pk(1), plain_meta(), None).map(|_| ()),
        Err(MmmError::InvalidAllowLists)
    );
}

#[test]
fn group_kind_is_rejected_for_legacy_assets() {
    let entries = vec![entry(ALLOWLIST_KIND_GROUP, pk(30))];
    assert_eq!(
        check_legacy(entries, pk(1), plain_meta(), None).map(|_| ()),
        Err(MmmError::InvalidAllowLists)
    );
}

#[test]
fn metadata_uri_prefix_is_checked_after_trimming() {
    let entries = vec![
        entry(ALLOWLIST_KIND_METADATA, pk(0)),
        entry(ALLOWLIST_KIND_ANY, pk(0)),
    ];
    let ok = check_legacy(
        entries.clone(),
        pk(1),
        plain_meta(),
        Some(b"https://example.org/".to_vec()),
    );
    assert!(ok.is_ok());
    let bad = check_legacy(entries, pk(1), plain_meta(), Some(b"https://other.net/".to_vec()));
    assert_eq!(bad.map(|_| ()), Err(MmmError::UnexpectedMetadataUri));
}

#[test]
fn wrong_owner_fails_structurally() {
    let entries = vec![entry(ALLOWLIST_KIND_ANY, pk(0))];
    let mut acct = mk_meta_account(plain_meta());
    acct.owner = pk(1);
    let r = check_allowlists_for_mint(
        &entries, pk(1), &acct, metadata_program(), pk(500), None, pk(0), None,
    );
    assert_eq!(r.map(|_| ()), Err(MmmError::AccountOwnedByWrongProgram));
}

#[test]
fn wrong_derivation_fails_structurally() {
    let entries = vec![entry(ALLOWLIST_KIND_ANY, pk(0))];
    let acct = mk_meta_account(plain_meta());
    let r = check_allowlists_for_mint(
        &entries, pk(1), &acct, metadata_program(), pk(501), None, pk(0), None,
    );
    assert_eq!(r.map(|_| ()), Err(MmmError::ConstraintSeeds));
}

#[test]
fn master_edition_version_is_checked() {
    let entries = vec![entry(ALLOWLIST_KIND_ANY, pk(0))];
    let me = MasterEditionAccount { key: pk(600), owner: metadata_program(), is_empty: false, version: 3 };
    let r = check_allowlists_for_mint(
        &entries,
        pk(1),
        &mk_meta_account(plain_meta()),
        metadata_program(),
        pk(500),
        Some(&me),
        pk(600),
        None,
    );
    assert_eq!(r.map(|_| ()), Err(MmmError::InvalidMasterEdition));
    let good = MasterEditionAccount { key: pk(600), owner: metadata_program(), is_empty: false, version: 6 };
    let r2 = check_allowlists_for_mint(
        &entries,
        pk(1),
        &mk_meta_account(plain_meta()),
        metadata_program(),
        pk(500),
        Some(&good),
        pk(600),
        None,
    );
    assert!(r2.is_ok());
}

fn mk_ext_mint() -> MintExtAccount {
    MintExtAccount {
        key: pk(900),
        owner: token22_program(),
        is_empty: false,
        base_initialized: true,
        metadata_pointer: Some(Some(pk(900))),
        token_metadata: Some(TokenMetadataInfo {
            mint: pk(900),
            name: b"Asset".to_vec(),
            symbol: b"AST".to_vec(),
            uri: b"https://example.org/e.json".to_vec(),
        }),
        group_member_pointer: Some(Some(pk(900))),
        group_member: Some(TokenGroupMemberInfo { mint: pk(900), group: pk(70) }),
    }
}

#[test]
fn ext_group_entry_matches_resolved_group() {
    let mint = mk_ext_mint();
    let ok = check_allowlists_for_mint_ext(
        &vec![entry(ALLOWLIST_KIND_GROUP, pk(70))],
        &mint,
        token22_program(),
        None,
    );
    assert!(ok.is_ok());
    let bad = check_allowlists_for_mint_ext(
        &vec![entry(ALLOWLIST_KIND_GROUP, pk(71))],
        &mint,
        token22_program(),
        None,
    );
    assert_eq!(bad.map(|_| ()), Err(MmmError::InvalidAllowLists));
}

#[test]
fn ext_rejects_legacy_only_kinds() {
    let mint = mk_ext_mint();
    for kind in [ALLOWLIST_KIND_FVCA, ALLOWLIST_KIND_MCC] {
        let r = check_allowlists_for_mint_ext(
            &vec![entry(kind, pk(10))],
            &mint,
            token22_program(),
            None,
        );
        assert_eq!(r.map(|_| ()), Err(MmmError::InvalidAllowLists));
    }
}

#[test]
fn ext_mint_entry_and_self_pointers() {
    let mint = mk_ext_mint();
    let ok = check_allowlists_for_mint_ext(
        &vec![entry(ALLOWLIST_KIND_MINT, pk(900))],
        &mint,
        token22_program(),
        None,
    );
    assert!(ok.is_ok());
    let mut spoofed = mk_ext_mint();
    spoofed.metadata_pointer = Some(Some(pk(901)));
    let r = check_allowlists_for_mint_ext(
        &vec![entry(ALLOWLIST_KIND_ANY, pk(0))],
        &spoofed,
        token22_program(),
        None,
    );
    assert_eq!(r.map(|_| ()), Err(MmmError::InvalidTokenMetadataExtension));
}

#[test]
fn ext_wrong_program_or_uninitialized_is_rejected() {
    let mut mint = mk_ext_mint();
    mint.owner = pk(1);
    let r = check_allowlists_for_mint_ext(
        &vec![entry(ALLOWLIST_KIND_ANY, pk(0))],
        &mint,
        token22_program(),
        None,
    );
    assert_eq!(r.map(|_| ()), Err(MmmError::InvalidTokenMint));
    let mut uninit = mk_ext_mint();
    uninit.base_initialized = false;
    let r2 = check_allowlists_for_mint_ext(
        &vec![entry(ALLOWLIST_KIND_ANY, pk(0))],
        &uninit,
        token22_program(),
        None,
    );
    assert_eq!(r2.map(|_| ()), Err(MmmError::InvalidTokenMint));
}

#[test]
fn group_member_must_reference_its_mint() {
    let mut mint = mk_ext_mint();
    mint.group_member = Some(TokenGroupMemberInfo { mint: pk(901), group: pk(70) });
    assert_eq!(assert_valid_group(&mint), Err(MmmError::InvalidTokenMemberExtension));
    mint.group_member = None;
    assert_eq!(assert_valid_group(&mint), Err(MmmError::InvalidTokenMemberExtension));
    assert_eq!(assert_valid_group(&mk_ext_mint()), Ok(Some(pk(70))));
}

#[test]
fn programmable_standard_is_asserted() {
    let meta = plain_meta();
    assert_eq!(assert_is_programmable(&meta), Ok(()));
    let mut other = plain_meta();
    other.token_standard = Some(TokenStandard::NonFungible);
    assert_eq!(assert_is_programmable(&other), Err(MmmError::InvalidTokenStandard));
    other.token_standard = None;
    assert_eq!(assert_is_programmable(&other), Err(MmmError::InvalidTokenStandard));
}

fn empty_pool() -> Pool {
    Pool {
        owner: pk(1),
        uuid: pk(2),
        spot_price: 1000,
        curve_type: CURVE_KIND_LINEAR,
        curve_delta: 0,
        lp_fee_bp: 0,
        sellside_asset_amount: 0,
        buyside_payment_amount: 0,
        reinvest_fulfill_sell: false,
        shared_escrow_account: pk(0),
        shared_escrow_count: 0,
    }
}

#[test]
fn close_pool_reclaims_empty_pool_once() {
    let mut pool = empty_pool();
    let mut pool_lamports: u64 = 5000;
    let mut owner_lamports: u64 = 100;
    assert_eq!(try_close_pool(&mut pool, &mut pool_lamports, &mut owner_lamports), Ok(()));
    assert_eq!(pool_lamports, 0);
    assert_eq!(owner_lamports, 5100);
    assert_eq!(pool.spot_price, 0);
    // second close: already reclaimed, still empty, moves nothing
    assert_eq!(try_close_pool(&mut pool, &mut pool_lamports, &mut owner_lamports), Ok(()));
    assert_eq!(pool_lamports, 0);
    assert_eq!(owner_lamports, 5100);
}

#[test]
fn close_pool_is_a_noop_with_inventory_or_shared_refs() {
    let mut pool = empty_pool();
    pool.sellside_asset_amount = 1;
    let mut pool_lamports: u64 = 5000;
    let mut owner_lamports: u64 = 100;
    assert_eq!(try_close_pool(&mut pool, &mut pool_lamports, &mut owner_lamports), Ok(()));
    assert_eq!(pool_lamports, 5000);
    assert_eq!(owner_lamports, 100);
    assert_eq!(pool.sellside_asset_amount, 1);

    let mut shared = empty_pool();
    shared.shared_escrow_account = pk(9);
    shared.shared_escrow_count = 2;
    assert_eq!(try_close_pool(&mut shared, &mut pool_lamports, &mut owner_lamports), Ok(()));
    assert_eq!(pool_lamports, 5000);
}

#[test]
fn close_sell_state_only_when_empty() {
    let mut state = SellState { pool: pk(1), asset_mint: pk(2), asset_amount: 0 };
    let mut record_lamports: u64 = 700;
    let mut owner_lamports: u64 = 0;
    assert_eq!(
        try_close_sell_state(&mut state, &mut record_lamports, &mut owner_lamports),
        Ok(())
    );
    assert_eq!((record_lamports, owner_lamports), (0, 700));
    let mut live = SellState { pool: pk(1), asset_mint: pk(2), asset_amount: 3 };
    assert_eq!(
        try_close_sell_state(&mut live, &mut record_lamports, &mut owner_lamports),
        Ok(())
    );
    assert_eq!((record_lamports, owner_lamports), (0, 700));
    assert_eq!(live.asset_amount, 3);
}

#[test]
fn escrow_above_floor_is_never_swept() {
    // floor: 1_000_000 * 100 / 10000 = 10000; min_rent 890
    let pool = Pool { spot_price: 1_000_000, ..empty_pool() };
    let mut escrow: u64 = 20000;
    let mut pool_lamports: u64 = 0;
    assert_eq!(try_close_escrow(&mut escrow, &pool, &mut pool_lamports, 890), Ok(()));
    assert_eq!((escrow, pool_lamports), (20000, 0));
}

#[test]
fn escrow_at_or_below_floor_is_swept_to_exactly_zero() {
    let pool = Pool { spot_price: 1_000_000, ..empty_pool() };
    let mut escrow: u64 = 9999;
    let mut pool_lamports: u64 = 1;
    assert_eq!(try_close_escrow(&mut escrow, &pool, &mut pool_lamports, 890), Ok(()));
    assert_eq!((escrow, pool_lamports), (0, 10000));
}

#[test]
fn zero_escrow_is_left_alone() {
    let pool = Pool { spot_price: 1_000_000, ..empty_pool() };
    let mut escrow: u64 = 0;
    let mut pool_lamports: u64 = 7;
    assert_eq!(try_close_escrow(&mut escrow, &pool, &mut pool_lamports, 890), Ok(()));
    assert_eq!((escrow, pool_lamports), (0, 7));
}

#[test]
fn reinvesting_pool_with_inventory_uses_rent_floor() {
    let mut pool = Pool { spot_price: 1_000_000, ..empty_pool() };
    pool.reinvest_fulfill_sell = true;
    pool.sellside_asset_amount = 2;
    let mut escrow: u64 = 5000; // above min_rent 890, would be under the bp floor
    let mut pool_lamports: u64 = 0;
    assert_eq!(try_close_escrow(&mut escrow, &pool, &mut pool_lamports, 890), Ok(()));
    assert_eq!((escrow, pool_lamports), (5000, 0));
}

#[test]
fn remaining_accounts_for_m2_are_checked_in_order() {
    let program = pk(200);
    let pda = pk(201);
    assert_eq!(check_remaining_accounts_for_m2(&vec![program, pda], program, pda), Ok(()));
    assert_eq!(
        check_remaining_accounts_for_m2(&vec![program], program, pda),
        Err(MmmError::InvalidRemainingAccounts)
    );
    assert_eq!(
        check_remaining_accounts_for_m2(&vec![pda, program], program, pda),
        Err(MmmError::InvalidRemainingAccounts)
    );
}
