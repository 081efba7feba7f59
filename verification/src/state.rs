//! Plain-data model of the accounts and configuration the trading core
//! works on. Account decoding and address derivation are collaborators:
//! callers hand the already-decoded values in these types to the library.

use vstd::prelude::*;

verus! {

/// Curve kind tag: arithmetic step.
pub const CURVE_KIND_LINEAR: u8 = 0;
/// Curve kind tag: geometric step in basis points.
pub const CURVE_KIND_EXP: u8 = 1;

pub const ALLOWLIST_KIND_EMPTY: u8 = 0;
pub const ALLOWLIST_KIND_FVCA: u8 = 1;
pub const ALLOWLIST_KIND_MINT: u8 = 2;
pub const ALLOWLIST_KIND_MCC: u8 = 3;
pub const ALLOWLIST_KIND_METADATA: u8 = 4;
pub const ALLOWLIST_KIND_GROUP: u8 = 5;
pub const ALLOWLIST_KIND_ANY: u8 = 6;

/// Hard ceiling on the total price of a single trade, in lamports.
pub const MAX_TOTAL_PRICE: u64 = 8_000_000 * 1_000_000_000;
/// Bound on maker/taker referral fees, in basis points.
pub const MAX_REFERRAL_FEE_BP: i16 = 500;
/// Hard ceiling on the creator royalty an asset may declare, in basis points.
pub const MAX_METADATA_CREATOR_ROYALTY_BP: u16 = 3000;
/// Fraction of the spot price, in basis points, under which an escrow
/// balance counts as dust and is swept back into the pool.
pub const MIN_SOL_ESCROW_BALANCE_BP: u16 = 100;

/// A 32-byte account address, held as two 128-bit halves so that equality
/// is structural.
#[derive(Clone, Copy, Debug, PartialEq, Eq, Structural)]
pub struct Pubkey {
    pub hi: u128,
    pub lo: u128,
}

impl Pubkey {
    /// The all-zero address, used as "no account".
    pub open spec fn spec_zero() -> Pubkey {
        Pubkey { hi: 0, lo: 0 }
    }

    pub fn zero() -> (r: Pubkey)
        ensures
            r == Pubkey::spec_zero(),
    {
        Pubkey { hi: 0, lo: 0 }
    }
}

/// One allowlist entry: a kind tag and an address value whose meaning
/// depends on the kind. Entries of a pool are unioned, never intersected.
#[derive(Clone, Copy, Debug, PartialEq, Eq, Structural)]
pub struct Allowlist {
    pub kind: u8,
    pub value: Pubkey,
}

impl Allowlist {
    /// An entry is well formed when its kind tag is one of the recognized
    /// kinds.
    pub open spec fn spec_valid(&self) -> bool {
        self.kind <= ALLOWLIST_KIND_ANY
    }

    pub fn valid(&self) -> (r: bool)
        ensures
            r == self.spec_valid(),
    {
        self.kind <= ALLOWLIST_KIND_ANY
    }
}

/// A liquidity position configured by an owner.
pub struct Pool {
    pub owner: Pubkey,
    pub uuid: Pubkey,
    /// Current reference price, monotonically adjusted by trades.
    pub spot_price: u64,
    pub curve_type: u8,
    pub curve_delta: u64,
    /// Liquidity-provider fee in basis points.
    pub lp_fee_bp: u16,
    /// Units the pool currently holds for resale.
    pub sellside_asset_amount: u64,
    /// Payment-side inventory counter.
    pub buyside_payment_amount: u64,
    /// Whether sale proceeds stay in the pool's buy-side escrow.
    pub reinvest_fulfill_sell: bool,
    /// External pooled escrow this pool draws on, or the zero address.
    pub shared_escrow_account: Pubkey,
    /// Open references into the shared escrow.
    pub shared_escrow_count: u16,
}

impl Pool {
    /// Curve configuration invariant, established by `check_curve` at
    /// configuration time.
    pub open spec fn curve_wf(&self) -> bool {
        &&& self.curve_type <= CURVE_KIND_EXP
        &&& (self.curve_type == CURVE_KIND_EXP ==> self.curve_delta <= 10000)
    }

    pub open spec fn spec_using_shared_escrow(&self) -> bool {
        self.shared_escrow_account != Pubkey::spec_zero()
    }

    /// Whether buy-side funds live in an external pooled escrow rather
    /// than a dedicated account.
    pub fn using_shared_escrow(&self) -> (r: bool)
        ensures
            r == self.spec_using_shared_escrow(),
    {
        !(self.shared_escrow_account == Pubkey::zero())
    }
}

/// Per-(pool, asset-class) record of how many units the pool holds for
/// resale. Destroyed when the amount reaches zero.
pub struct SellState {
    pub pool: Pubkey,
    pub asset_mint: Pubkey,
    pub asset_amount: u64,
}

/// A declared creator of an asset: address, verification flag and an
/// integer percentage share of royalties.
#[derive(Clone, Copy, Debug, PartialEq, Eq, Structural)]
pub struct Creator {
    pub address: Pubkey,
    pub verified: bool,
    pub share: u8,
}

/// A collection an asset declares membership of.
#[derive(Clone, Copy, Debug, PartialEq, Eq, Structural)]
pub struct Collection {
    pub verified: bool,
    pub key: Pubkey,
}

/// Token standard tag of a legacy asset.
#[derive(Clone, Copy, Debug, PartialEq, Eq, Structural)]
pub enum TokenStandard {
    NonFungible,
    FungibleAsset,
    Fungible,
    NonFungibleEdition,
    ProgrammableNonFungible,
    ProgrammableNonFungibleEdition,
}

/// Decoded legacy metadata of an asset. The URI is kept as bytes.
pub struct Metadata {
    pub uri: Vec<u8>,
    pub seller_fee_basis_points: u16,
    pub creators: Option<Vec<Creator>>,
    pub collection: Option<Collection>,
    pub token_standard: Option<TokenStandard>,
}

/// The ledger account a legacy metadata record was decoded from: its
/// address, its owning program and the decoded record.
pub struct MetadataAccount {
    pub key: Pubkey,
    pub owner: Pubkey,
    pub metadata: Metadata,
}

/// The ledger account of a master-edition marker: address, owning
/// program, whether it holds any data yet, and its leading version byte.
pub struct MasterEditionAccount {
    pub key: Pubkey,
    pub owner: Pubkey,
    pub is_empty: bool,
    pub version: u8,
}

/// Metadata carried by an extension-based mint.
pub struct TokenMetadataInfo {
    pub mint: Pubkey,
    pub name: Vec<u8>,
    pub symbol: Vec<u8>,
    pub uri: Vec<u8>,
}

/// Group membership carried by an extension-based mint: the member mint
/// and the group it belongs to.
#[derive(Clone, Copy, Debug, PartialEq, Eq, Structural)]
pub struct TokenGroupMemberInfo {
    pub mint: Pubkey,
    pub group: Pubkey,
}

/// Decoded extension-based mint account. Each extension is `None` when
/// the mint does not carry it; a pointer extension holds in turn the
/// optional address it points at.
pub struct MintExtAccount {
    pub key: Pubkey,
    pub owner: Pubkey,
    pub is_empty: bool,
    pub base_initialized: bool,
    pub metadata_pointer: Option<Option<Pubkey>>,
    pub token_metadata: Option<TokenMetadataInfo>,
    pub group_member_pointer: Option<Option<Pubkey>>,
    pub group_member: Option<TokenGroupMemberInfo>,
}

/// A creator account supplied for royalty distribution: its address and
/// current balance.
#[derive(Clone, Copy, Debug, PartialEq, Eq, Structural)]
pub struct CreatorAccount {
    pub key: Pubkey,
    pub lamports: u64,
}

/// Linear price-dependent royalty multiplier of a policy: between
/// `start_price` and `end_price` the multiplier moves linearly from
/// `start_multiplier_bp` to `end_multiplier_bp`.
#[derive(Clone, Copy, Debug, PartialEq, Eq, Structural)]
pub struct PriceLinearInfo {
    pub start_price: u64,
    pub end_price: u64,
    pub start_multiplier_bp: u16,
    pub end_multiplier_bp: u16,
}

/// Dynamic-royalty rule attached to a policy.
#[derive(Clone, Copy, Debug, PartialEq, Eq, Structural)]
pub struct DynamicRoyaltyInfo {
    pub kind: u8,
    pub override_royalty_bp: Option<u16>,
    pub price_linear: Option<PriceLinearInfo>,
}

/// Royalty policy attached to an asset, with an optional dynamic rule.
#[derive(Clone, Copy, Debug, PartialEq, Eq, Structural)]
pub struct PolicyInfo {
    pub dynamic_royalty: Option<DynamicRoyaltyInfo>,
}

/// Kind tag of the linear dynamic-royalty rule.
pub const DYNAMIC_ROYALTY_KIND_PRICE_LINEAR: u8 = 0;

/// Field-wise agreement of two decoded metadata records, comparing the
/// sequence views of the variable-length fields.
pub open spec fn same_metadata(a: Metadata, b: Metadata) -> bool {
    &&& a.uri@ == b.uri@
    &&& a.seller_fee_basis_points == b.seller_fee_basis_points
    &&& a.creators.is_some() == b.creators.is_some()
    &&& (a.creators matches Some(cs) ==> (b.creators matches Some(rs) && rs@ == cs@))
    &&& a.collection == b.collection
    &&& a.token_standard == b.token_standard
}

fn copy_bytes(v: &Vec<u8>) -> (r: Vec<u8>)
    ensures
        r@ == v@,
{
    let mut r: Vec<u8> = Vec::new();
    let mut i: usize = 0;
    while i < v.len()
        invariant
            i <= v.len(),
            r@ == v@.subrange(0, i as int),
        decreases v.len() - i,
    {
        r.push(v[i]);
        i = i + 1;
    }
    assert(r@ =~= v@);
    r
}

fn copy_creators(v: &Vec<Creator>) -> (r: Vec<Creator>)
    ensures
        r@ == v@,
{
    let mut r: Vec<Creator> = Vec::new();
    let mut i: usize = 0;
    while i < v.len()
        invariant
            i <= v.len(),
            r@ == v@.subrange(0, i as int),
        decreases v.len() - i,
    {
        r.push(v[i]);
        i = i + 1;
    }
    assert(r@ =~= v@);
    r
}

/// Field-wise agreement of two extension metadata records.
pub open spec fn same_token_metadata(a: TokenMetadataInfo, b: TokenMetadataInfo) -> bool {
    &&& a.mint == b.mint
    &&& a.name@ == b.name@
    &&& a.symbol@ == b.symbol@
    &&& a.uri@ == b.uri@
}

impl Clone for TokenMetadataInfo {
    fn clone(&self) -> (r: TokenMetadataInfo)
        ensures
            same_token_metadata(r, *self),
    {
        TokenMetadataInfo {
            mint: self.mint,
            name: copy_bytes(&self.name),
            symbol: copy_bytes(&self.symbol),
            uri: copy_bytes(&self.uri),
        }
    }
}

impl Clone for Metadata {
    fn clone(&self) -> (r: Metadata)
        ensures
            same_metadata(r, *self),
    {
        let creators = match &self.creators {
            Some(cs) => Some(copy_creators(cs)),
            None => None,
        };
        Metadata {
            uri: copy_bytes(&self.uri),
            seller_fee_basis_points: self.seller_fee_basis_points,
            creators,
            collection: self.collection,
            token_standard: self.token_standard,
        }
    }
}

} // verus!
