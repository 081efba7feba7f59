//! Eligibility of an asset against a pool's allowlist.
//!
//! Entries are unioned: the first entry that matches grants eligibility.
//! Legacy (metadata-account) assets and extension-based mints share the
//! entry type but diverge in which kinds apply: first-verified-creator
//! and verified-collection exist only for legacy assets, group
//! membership only for extension-based mints.

use vstd::prelude::*;
use crate::errors::MmmError;
use crate::state::{
    same_metadata, Allowlist, MasterEditionAccount, Metadata, MetadataAccount, MintExtAccount,
    Pubkey, TokenMetadataInfo, TokenStandard, ALLOWLIST_KIND_ANY, ALLOWLIST_KIND_EMPTY,
    ALLOWLIST_KIND_FVCA, ALLOWLIST_KIND_GROUP, ALLOWLIST_KIND_MCC, ALLOWLIST_KIND_METADATA,
    ALLOWLIST_KIND_MINT,
};

verus! {

/// ASCII whitespace, as URI padding is trimmed byte-wise.
pub open spec fn is_space(b: u8) -> bool {
    b == 0x20 || b == 0x09 || b == 0x0a || b == 0x0b || b == 0x0c || b == 0x0d
}

pub open spec fn trim_front(s: Seq<u8>) -> Seq<u8>
    decreases s.len(),
{
    if s.len() > 0 && is_space(s[0]) {
        trim_front(s.subrange(1, s.len() as int))
    } else {
        s
    }
}

pub open spec fn trim_back(s: Seq<u8>) -> Seq<u8>
    decreases s.len(),
{
    if s.len() > 0 && is_space(s[s.len() - 1]) {
        trim_back(s.subrange(0, s.len() - 1))
    } else {
        s
    }
}

/// The byte string with leading and trailing whitespace removed.
pub open spec fn trimmed(s: Seq<u8>) -> Seq<u8> {
    trim_back(trim_front(s))
}

pub open spec fn starts_with(s: Seq<u8>, p: Seq<u8>) -> bool {
    p.len() <= s.len() && s.subrange(0, p.len() as int) == p
}

fn is_space_exec(b: u8) -> (r: bool)
    ensures
        r == is_space(b),
{
    b == 0x20 || b == 0x09 || b == 0x0a || b == 0x0b || b == 0x0c || b == 0x0d
}

/// Whether the URI, after trimming surrounding whitespace, starts with
/// the given prefix.
fn trimmed_starts_with(s: &Vec<u8>, prefix: &Vec<u8>) -> (r: bool)
    ensures
        r == starts_with(trimmed(s@), prefix@),
{
    let len = s.len();
    proof {
        assert(s@.subrange(0, len as int) =~= s@);
    }
    let mut lo: usize = 0;
    while lo < len && is_space_exec(s[lo])
        invariant
            lo <= len,
            len == s@.len(),
            trim_front(s@) == trim_front(s@.subrange(lo as int, len as int)),
        decreases len - lo,
    {
        proof {
            let t = s@.subrange(lo as int, len as int);
            assert(t[0] == s@[lo as int]);
            assert(t.subrange(1, t.len() as int) =~= s@.subrange(lo as int + 1, len as int));
        }
        lo = lo + 1;
    }
    proof {
        let t = s@.subrange(lo as int, len as int);
        if lo < len {
            assert(!is_space(t[0]));
        }
        assert(trim_front(t) == t);
    }
    let mut hi: usize = len;
    while hi > lo && is_space_exec(s[hi - 1])
        invariant
            lo <= hi <= len,
            len == s@.len(),
            trim_front(s@) == s@.subrange(lo as int, len as int),
            trim_back(s@.subrange(lo as int, len as int)) == trim_back(
                s@.subrange(lo as int, hi as int),
            ),
        decreases hi,
    {
        proof {
            let t = s@.subrange(lo as int, hi as int);
            assert(t[t.len() - 1] == s@[hi - 1]);
            assert(t.subrange(0, t.len() - 1) =~= s@.subrange(lo as int, hi as int - 1));
        }
        hi = hi - 1;
    }
    proof {
        let t = s@.subrange(lo as int, hi as int);
        if hi > lo {
            assert(!is_space(t[t.len() - 1]));
        }
        assert(trim_back(t) == t);
        assert(trimmed(s@) == s@.subrange(lo as int, hi as int));
    }
    let plen = prefix.len();
    if hi - lo < plen {
        return false;
    }
    let mut j: usize = 0;
    while j < plen
        invariant
            j <= plen,
            plen == prefix@.len(),
            lo + plen <= hi <= len,
            len == s@.len(),
            trimmed(s@) == s@.subrange(lo as int, hi as int),
            forall|k: int| 0 <= k < j ==> s@[lo + k] == prefix@[k],
        decreases plen - j,
    {
        if s[lo + j] != prefix[j] {
            proof {
                let t = trimmed(s@);
                assert(t[j as int] == s@[lo + j]);
                assert(!starts_with(t, prefix@)) by {
                    if starts_with(t, prefix@) {
                        assert(t.subrange(0, plen as int)[j as int] == t[j as int]);
                    }
                }
            }
            return false;
        }
        j = j + 1;
    }
    proof {
        let t = trimmed(s@);
        assert(t.subrange(0, plen as int) =~= prefix@);
    }
    true
}

/// Validates that every entry of a pool's allowlist carries a
/// recognized kind tag.
pub fn check_allowlists(allowlists: &Vec<Allowlist>) -> (r: Result<(), MmmError>)
    ensures
        r.is_ok() <==> (forall|i: int|
            0 <= i < allowlists@.len() ==> allowlists@[i].spec_valid()),
        !r.is_ok() ==> r == Err::<(), MmmError>(MmmError::InvalidAllowLists),
{
    let mut i: usize = 0;
    while i < allowlists.len()
        invariant
            i <= allowlists@.len(),
            forall|k: int| 0 <= k < i ==> allowlists@[k].spec_valid(),
        decreases allowlists@.len() - i,
    {
        if !allowlists[i].valid() {
            return Err(MmmError::InvalidAllowLists);
        }
        i = i + 1;
    }
    Ok(())
}

/// Whether the asset's first declared creator is the given address and
/// verified.
pub open spec fn fvca_matches(meta: Metadata, value: Pubkey) -> bool {
    meta.creators matches Some(cs) && cs@.len() > 0 && cs@[0].address == value && cs@[0].verified
}

/// Whether the asset declares a verified collection with the given key.
pub open spec fn mcc_matches(meta: Metadata, value: Pubkey) -> bool {
    meta.collection matches Some(c) && c.key == value && c.verified
}

/// The union scan over a legacy asset: entries are tried in order, the
/// first match wins; an unrecognized kind (group kinds included) fails
/// the whole scan, and a scan that exhausts its entries fails.
pub open spec fn scan_allowlists_for_mint(
    entries: Seq<Allowlist>,
    mint_key: Pubkey,
    meta: Metadata,
) -> Result<(), MmmError>
    decreases entries.len(),
{
    if entries.len() == 0 {
        Err(MmmError::InvalidAllowLists)
    } else {
        let e = entries[0];
        let rest = entries.subrange(1, entries.len() as int);
        if e.kind == ALLOWLIST_KIND_EMPTY || e.kind == ALLOWLIST_KIND_METADATA {
            scan_allowlists_for_mint(rest, mint_key, meta)
        } else if e.kind == ALLOWLIST_KIND_ANY {
            Ok(())
        } else if e.kind == ALLOWLIST_KIND_FVCA {
            if fvca_matches(meta, e.value) {
                Ok(())
            } else {
                scan_allowlists_for_mint(rest, mint_key, meta)
            }
        } else if e.kind == ALLOWLIST_KIND_MINT {
            if mint_key == e.value {
                Ok(())
            } else {
                scan_allowlists_for_mint(rest, mint_key, meta)
            }
        } else if e.kind == ALLOWLIST_KIND_MCC {
            if mcc_matches(meta, e.value) {
                Ok(())
            } else {
                scan_allowlists_for_mint(rest, mint_key, meta)
            }
        } else {
            Err(MmmError::InvalidAllowLists)
        }
    }
}

/// Whether any entry is of the metadata (URI-prefix) kind, which makes
/// the URI check apply once, independent of the union branches.
pub open spec fn has_metadata_kind(entries: Seq<Allowlist>) -> bool {
    exists|i: int| 0 <= i < entries.len() && entries[i].kind == ALLOWLIST_KIND_METADATA
}

/// Outcome of validating a legacy asset against a pool's allowlist:
/// structural checks in order (ownership, canonical derivation, the
/// master-edition marker), then the one-shot URI-prefix check, then the
/// union scan.
pub open spec fn check_allowlists_for_mint_spec(
    allowlists: Seq<Allowlist>,
    mint_key: Pubkey,
    acct: MetadataAccount,
    metadata_program: Pubkey,
    metadata_pda: Pubkey,
    master_edition: Option<MasterEditionAccount>,
    master_edition_pda: Pubkey,
    allowlist_aux: Option<Seq<u8>>,
) -> Result<(), MmmError> {
    if acct.owner != metadata_program {
        Err(MmmError::AccountOwnedByWrongProgram)
    } else if metadata_pda != acct.key {
        Err(MmmError::ConstraintSeeds)
    } else if master_edition matches Some(me) && master_edition_pda != me.key {
        Err(MmmError::ConstraintSeeds)
    } else if master_edition matches Some(me) && !me.is_empty && me.owner != metadata_program {
        Err(MmmError::AccountOwnedByWrongProgram)
    } else if master_edition matches Some(me) && !me.is_empty && !(me.version == 2 || me.version
        == 6) {
        Err(MmmError::InvalidMasterEdition)
    } else if allowlist_aux matches Some(aux) && has_metadata_kind(allowlists) && !starts_with(
        trimmed(acct.metadata.uri@),
        aux,
    ) {
        Err(MmmError::UnexpectedMetadataUri)
    } else {
        scan_allowlists_for_mint(allowlists, mint_key, acct.metadata)
    }
}

/// Version byte a master-edition marker must carry once initialized.
fn check_master_edition(master_edition: &MasterEditionAccount) -> (r: bool)
    ensures
        r == (master_edition.version == 2 || master_edition.version == 6),
{
    master_edition.version == 2 || master_edition.version == 6
}

/// Validates a legacy asset against a pool's allowlist and returns its
/// decoded metadata on eligibility.
///
/// `metadata_pda` and `master_edition_pda` are the canonical derived
/// addresses for the mint, computed by the address-derivation
/// collaborator; `metadata_program` is the owning program the metadata
/// account must belong to.
pub fn check_allowlists_for_mint(
    allowlists: &Vec<Allowlist>,
    mint_key: Pubkey,
    metadata: &MetadataAccount,
    metadata_program: Pubkey,
    metadata_pda: Pubkey,
    master_edition: Option<&MasterEditionAccount>,
    master_edition_pda: Pubkey,
    allowlist_aux: Option<Vec<u8>>,
) -> (r: Result<Metadata, MmmError>)
    ensures
        ({
            let aux_view = match allowlist_aux {
                Some(a) => Some(a@),
                None => None,
            };
            let me = match master_edition {
                Some(m) => Some(*m),
                None => None,
            };
            let s = check_allowlists_for_mint_spec(
                allowlists@,
                mint_key,
                *metadata,
                metadata_program,
                metadata_pda,
                me,
                master_edition_pda,
                aux_view,
            );
            match s {
                Ok(u) => r matches Ok(m) && same_metadata(m, metadata.metadata),
                Err(e) => r == Err::<Metadata, MmmError>(e),
            }
        }),
{
    if !(metadata.owner == metadata_program) {
        return Err(MmmError::AccountOwnedByWrongProgram);
    }
    if !(metadata_pda == metadata.key) {
        return Err(MmmError::ConstraintSeeds);
    }
    match master_edition {
        Some(me) => {
            if !(master_edition_pda == me.key) {
                return Err(MmmError::ConstraintSeeds);
            }
            if !me.is_empty {
                if !(me.owner == metadata_program) {
                    return Err(MmmError::AccountOwnedByWrongProgram);
                }
                if !check_master_edition(me) {
                    return Err(MmmError::InvalidMasterEdition);
                }
            }
        },
        None => {},
    }
    let mut has_md_kind = false;
    let mut i: usize = 0;
    while i < allowlists.len()
        invariant
            i <= allowlists@.len(),
            has_md_kind == exists|k: int|
                0 <= k < i && allowlists@[k].kind == ALLOWLIST_KIND_METADATA,
        decreases allowlists@.len() - i,
    {
        if allowlists[i].kind == ALLOWLIST_KIND_METADATA {
            has_md_kind = true;
        }
        i = i + 1;
    }
    if has_md_kind {
        match &allowlist_aux {
            Some(aux) => {
                if !trimmed_starts_with(&metadata.metadata.uri, aux) {
                    return Err(MmmError::UnexpectedMetadataUri);
                }
            },
            None => {},
        }
    }
    proof {
        assert(allowlists@.subrange(0, allowlists@.len() as int) =~= allowlists@);
    }
    let mut idx: usize = 0;
    while idx < allowlists.len()
        invariant
            idx <= allowlists@.len(),
            check_allowlists_for_mint_spec(
                allowlists@,
                mint_key,
                *metadata,
                metadata_program,
                metadata_pda,
                (match master_edition {
                    Some(m) => Some(*m),
                    None => None,
                }),
                master_edition_pda,
                (match allowlist_aux {
                    Some(a) => Some(a@),
                    None => None,
                }),
            ) == scan_allowlists_for_mint(allowlists@, mint_key, metadata.metadata),
            scan_allowlists_for_mint(allowlists@, mint_key, metadata.metadata)
                == scan_allowlists_for_mint(
                allowlists@.subrange(idx as int, allowlists@.len() as int),
                mint_key,
                metadata.metadata,
            ),
        decreases allowlists@.len() - idx,
    {
        proof {
            let sub = allowlists@.subrange(idx as int, allowlists@.len() as int);
            assert(sub[0] == allowlists@[idx as int]);
            assert(sub.subrange(1, sub.len() as int) =~= allowlists@.subrange(
                idx as int + 1,
                allowlists@.len() as int,
            ));
        }
        let entry = allowlists[idx];
        if entry.kind == ALLOWLIST_KIND_EMPTY || entry.kind == ALLOWLIST_KIND_METADATA {
            // URI already validated above; empty entries are inert.
        } else if entry.kind == ALLOWLIST_KIND_ANY {
            return Ok(metadata.metadata.clone());
        } else if entry.kind == ALLOWLIST_KIND_FVCA {
            let mut matched = false;
            match &metadata.metadata.creators {
                Some(cs) => {
                    if cs.len() > 0 {
                        let c0 = cs[0];
                        if c0.address == entry.value && c0.verified {
                            matched = true;
                        }
                    }
                },
                None => {},
            }
            if matched {
                return Ok(metadata.metadata.clone());
            }
        } else if entry.kind == ALLOWLIST_KIND_MINT {
            if mint_key == entry.value {
                return Ok(metadata.metadata.clone());
            }
        } else if entry.kind == ALLOWLIST_KIND_MCC {
            let mut matched = false;
            match &metadata.metadata.collection {
                Some(c) => {
                    if c.key == entry.value && c.verified {
                        matched = true;
                    }
                },
                None => {},
            }
            if matched {
                return Ok(metadata.metadata.clone());
            }
        } else {
            return Err(MmmError::InvalidAllowLists);
        }
        idx = idx + 1;
    }
    proof {
        assert(allowlists@.subrange(allowlists@.len() as int, allowlists@.len() as int) =~= Seq::<
            Allowlist,
        >::empty());
    }
    Err(MmmError::InvalidAllowLists)
}

/// The asset must be of the programmable token standard.
pub fn assert_is_programmable(parsed_metadata: &Metadata) -> (r: Result<(), MmmError>)
    ensures
        r.is_ok() <==> parsed_metadata.token_standard == Some(
            TokenStandard::ProgrammableNonFungible,
        ),
        !r.is_ok() ==> r == Err::<(), MmmError>(MmmError::InvalidTokenStandard),
{
    match &parsed_metadata.token_standard {
        Some(ts) => match ts {
            TokenStandard::ProgrammableNonFungible => Ok(()),
            _ => Err(MmmError::InvalidTokenStandard),
        },
        None => Err(MmmError::InvalidTokenStandard),
    }
}

/// Outcome of resolving an extension-based mint's group: the member
/// extension must exist and reference the mint itself.
pub open spec fn valid_group_spec(mint: MintExtAccount) -> Result<Option<Pubkey>, MmmError> {
    match mint.group_member {
        None => Err(MmmError::InvalidTokenMemberExtension),
        Some(gm) => {
            if gm.mint != mint.key {
                Err(MmmError::InvalidTokenMemberExtension)
            } else {
                Ok(Some(gm.group))
            }
        },
    }
}

/// Resolves the group an extension-based mint belongs to, rejecting a
/// member extension that does not reference the mint itself.
pub fn assert_valid_group(token_mint: &MintExtAccount) -> (r: Result<Option<Pubkey>, MmmError>)
    ensures
        r == valid_group_spec(*token_mint),
{
    match &token_mint.group_member {
        Some(gm) => {
            if !(gm.mint == token_mint.key) {
                return Err(MmmError::InvalidTokenMemberExtension);
            }
            Ok(Some(gm.group))
        },
        None => Err(MmmError::InvalidTokenMemberExtension),
    }
}

/// The union scan over an extension-based mint: legacy-only kinds
/// (first-verified-creator, verified-collection) are rejected outright,
/// and a group entry resolves the mint's group membership.
pub open spec fn scan_allowlists_for_mint_ext(
    entries: Seq<Allowlist>,
    mint: MintExtAccount,
) -> Result<(), MmmError>
    decreases entries.len(),
{
    if entries.len() == 0 {
        Err(MmmError::InvalidAllowLists)
    } else {
        let e = entries[0];
        let rest = entries.subrange(1, entries.len() as int);
        if e.kind == ALLOWLIST_KIND_EMPTY || e.kind == ALLOWLIST_KIND_METADATA {
            scan_allowlists_for_mint_ext(rest, mint)
        } else if e.kind == ALLOWLIST_KIND_ANY {
            Ok(())
        } else if e.kind == ALLOWLIST_KIND_MINT {
            if mint.key == e.value {
                Ok(())
            } else {
                scan_allowlists_for_mint_ext(rest, mint)
            }
        } else if e.kind == ALLOWLIST_KIND_GROUP {
            match valid_group_spec(mint) {
                Err(err) => Err(err),
                Ok(g) => {
                    if g == Some(e.value) {
                        Ok(())
                    } else {
                        Err(MmmError::InvalidAllowLists)
                    }
                },
            }
        } else {
            Err(MmmError::InvalidAllowLists)
        }
    }
}

/// The URI carried by an extension-based mint's metadata extension.
pub open spec fn ext_uri(mint: MintExtAccount) -> Seq<u8> {
    match mint.token_metadata {
        Some(tm) => tm.uri@,
        None => Seq::empty(),
    }
}

/// Outcome of validating an extension-based mint against a pool's
/// allowlist: the mint account must belong to the extension token
/// program and be initialized, its metadata and group-member pointer
/// extensions must reference the mint itself, the one-shot URI check
/// runs, then the union scan.
pub open spec fn check_allowlists_for_mint_ext_spec(
    allowlists: Seq<Allowlist>,
    mint: MintExtAccount,
    token_program: Pubkey,
    allowlist_aux: Option<Seq<u8>>,
) -> Result<(), MmmError> {
    if mint.owner != token_program || mint.is_empty {
        Err(MmmError::InvalidTokenMint)
    } else if !mint.base_initialized {
        Err(MmmError::InvalidTokenMint)
    } else if mint.metadata_pointer matches Some(mp) && mp != Some(mint.key) {
        Err(MmmError::InvalidTokenMetadataExtension)
    } else if allowlist_aux matches Some(aux) && has_metadata_kind(allowlists) && !starts_with(
        trimmed(ext_uri(mint)),
        aux,
    ) {
        Err(MmmError::UnexpectedMetadataUri)
    } else if mint.group_member_pointer matches Some(gp) && gp != Some(mint.key) {
        Err(MmmError::InvalidTokenMemberExtension)
    } else {
        scan_allowlists_for_mint_ext(allowlists, mint)
    }
}

/// Validates an extension-based mint against a pool's allowlist and
/// returns its token metadata on eligibility. `token_program` is the
/// extension token program the mint must belong to; the mint must carry
/// a metadata extension.
pub fn check_allowlists_for_mint_ext(
    allowlists: &Vec<Allowlist>,
    token_mint: &MintExtAccount,
    token_program: Pubkey,
    allowlist_aux: Option<Vec<u8>>,
) -> (r: Result<TokenMetadataInfo, MmmError>)
    requires
        token_mint.token_metadata.is_some(),
    ensures
        ({
            let aux_view = match allowlist_aux {
                Some(a) => Some(a@),
                None => None,
            };
            let s = check_allowlists_for_mint_ext_spec(
                allowlists@,
                *token_mint,
                token_program,
                aux_view,
            );
            match s {
                Ok(u) => r matches Ok(tm) && crate::state::same_token_metadata(
                    tm,
                    token_mint.token_metadata->Some_0,
                ),
                Err(e) => r == Err::<TokenMetadataInfo, MmmError>(e),
            }
        }),
{
    if !(token_mint.owner == token_program) || token_mint.is_empty {
        return Err(MmmError::InvalidTokenMint);
    }
    if !token_mint.base_initialized {
        return Err(MmmError::InvalidTokenMint);
    }
    match &token_mint.metadata_pointer {
        Some(mp) => {
            let ok = match mp {
                Some(addr) => *addr == token_mint.key,
                None => false,
            };
            if !ok {
                return Err(MmmError::InvalidTokenMetadataExtension);
            }
        },
        None => {},
    }
    let parsed = match &token_mint.token_metadata {
        Some(tm) => tm,
        None => {
            proof {
                assert(false);
            }
            return Err(MmmError::InvalidTokenMint);
        },
    };
    let mut has_md_kind = false;
    let mut i: usize = 0;
    while i < allowlists.len()
        invariant
            i <= allowlists@.len(),
            has_md_kind == exists|k: int|
                0 <= k < i && allowlists@[k].kind == ALLOWLIST_KIND_METADATA,
        decreases allowlists@.len() - i,
    {
        if allowlists[i].kind == ALLOWLIST_KIND_METADATA {
            has_md_kind = true;
        }
        i = i + 1;
    }
    if has_md_kind {
        match &allowlist_aux {
            Some(aux) => {
                if !trimmed_starts_with(&parsed.uri, aux) {
                    return Err(MmmError::UnexpectedMetadataUri);
                }
            },
            None => {},
        }
    }
    match &token_mint.group_member_pointer {
        Some(gp) => {
            let ok = match gp {
                Some(addr) => *addr == token_mint.key,
                None => false,
            };
            if !ok {
                return Err(MmmError::InvalidTokenMemberExtension);
            }
        },
        None => {},
    }
    proof {
        assert(allowlists@.subrange(0, allowlists@.len() as int) =~= allowlists@);
    }
    let mut idx: usize = 0;
    while idx < allowlists.len()
        invariant
            idx <= allowlists@.len(),
            token_mint.token_metadata.is_some(),
            *parsed == token_mint.token_metadata->Some_0,
            check_allowlists_for_mint_ext_spec(
                allowlists@,
                *token_mint,
                token_program,
                (match allowlist_aux {
                    Some(a) => Some(a@),
                    None => None,
                }),
            ) == scan_allowlists_for_mint_ext(allowlists@, *token_mint),
            scan_allowlists_for_mint_ext(allowlists@, *token_mint)
                == scan_allowlists_for_mint_ext(
                allowlists@.subrange(idx as int, allowlists@.len() as int),
                *token_mint,
            ),
        decreases allowlists@.len() - idx,
    {
        proof {
            let sub = allowlists@.subrange(idx as int, allowlists@.len() as int);
            assert(sub[0] == allowlists@[idx as int]);
            assert(sub.subrange(1, sub.len() as int) =~= allowlists@.subrange(
                idx as int + 1,
                allowlists@.len() as int,
            ));
        }
        let entry = allowlists[idx];
        if entry.kind == ALLOWLIST_KIND_EMPTY || entry.kind == ALLOWLIST_KIND_METADATA {
            // URI validated above; group resolution happens on its own entry.
        } else if entry.kind == ALLOWLIST_KIND_ANY {
            return Ok(parsed.clone());
        } else if entry.kind == ALLOWLIST_KIND_MINT {
            if token_mint.key == entry.value {
                return Ok(parsed.clone());
            }
        } else if entry.kind == ALLOWLIST_KIND_GROUP {
            let group = match assert_valid_group(token_mint) {
                Ok(g) => g,
                Err(e) => {
                    return Err(e);
                },
            };
            let matches_group = match group {
                Some(g) => g == entry.value,
                None => false,
            };
            if !matches_group {
                return Err(MmmError::InvalidAllowLists);
            }
            return Ok(parsed.clone());
        } else {
            return Err(MmmError::InvalidAllowLists);
        }
        idx = idx + 1;
    }
    proof {
        assert(allowlists@.subrange(allowlists@.len() as int, allowlists@.len() as int) =~= Seq::<
            Allowlist,
        >::empty());
    }
    Err(MmmError::InvalidAllowLists)
}

/// Law: an allowlist holding a single `Any` entry accepts every asset,
/// legacy or extension-based.
pub proof fn lemma_any_accepts_all(
    value: Pubkey,
    mint_key: Pubkey,
    meta: Metadata,
    mint: MintExtAccount,
)
    ensures
        scan_allowlists_for_mint(
            seq![Allowlist { kind: ALLOWLIST_KIND_ANY, value }],
            mint_key,
            meta,
        ) == Ok::<(), MmmError>(()),
        scan_allowlists_for_mint_ext(seq![Allowlist { kind: ALLOWLIST_KIND_ANY, value }], mint)
            == Ok::<(), MmmError>(()),
{
}

/// Law: an allowlist holding a single `Mint(x)` entry accepts exactly
/// the asset whose identity is `x` and rejects every other asset,
/// whatever its other properties.
pub proof fn lemma_mint_entry_exact(x: Pubkey, mint_key: Pubkey, meta: Metadata)
    ensures
        mint_key == x ==> scan_allowlists_for_mint(
            seq![Allowlist { kind: ALLOWLIST_KIND_MINT, value: x }],
            mint_key,
            meta,
        ) == Ok::<(), MmmError>(()),
        mint_key != x ==> scan_allowlists_for_mint(
            seq![Allowlist { kind: ALLOWLIST_KIND_MINT, value: x }],
            mint_key,
            meta,
        ) == Err::<(), MmmError>(MmmError::InvalidAllowLists),
{
    let s = seq![Allowlist { kind: ALLOWLIST_KIND_MINT, value: x }];
    assert(s.subrange(1, 1) =~= Seq::<Allowlist>::empty());
    assert(scan_allowlists_for_mint(Seq::<Allowlist>::empty(), mint_key, meta) == Err::<
        (),
        MmmError,
    >(MmmError::InvalidAllowLists));
}

} // verus!
