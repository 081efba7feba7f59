//! Distribution of the creator royalty of a trade across the asset's
//! declared creators.
//!
//! Each creator other than the last receives its pro-rata share of the
//! royalty by its declared integer percentage; the last creator receives
//! the exact remainder, so that what is distributed sums to the royalty
//! despite integer truncation. A computed payment is executed only when
//! it is positive and lifts the creator's balance above the minimum-rent
//! floor; sub-floor payments are skipped silently and excluded from the
//! returned total.

use vstd::prelude::*;
use vstd::arithmetic::mul::lemma_mul_upper_bound;
use crate::curve::lemma_mul_div_le_self;
use crate::errors::MmmError;
use crate::state::{Creator, CreatorAccount, Metadata, MAX_METADATA_CREATOR_ROYALTY_BP};

verus! {

/// The royalty a trade owes its creators:
/// `total * royalty_bp/10000 * buyside_creator_royalty_bp/10000`,
/// truncating after each division.
pub open spec fn royalty_amount(
    total_price: int,
    metadata_royalty_bp: int,
    buyside_creator_royalty_bp: int,
) -> int {
    (total_price * metadata_royalty_bp / 10000) * buyside_creator_royalty_bp / 10000
}

pub open spec fn sum_seq(s: Seq<int>) -> int
    decreases s.len(),
{
    if s.len() == 0 {
        0
    } else {
        s[0] + sum_seq(s.subrange(1, s.len() as int))
    }
}

/// The payment sequence for creators `i..`, given that `paid` lamports
/// were already distributed to earlier creators. Mirrors the checked
/// walk: the last creator's fee is the exact remainder (failing when
/// prior pro-rata shares already exceed the royalty), a creator account
/// must sit at each position with the declared address, and a positive
/// fee is paid only when it lifts the account above `min_rent`.
pub open spec fn creator_payouts_from(
    royalty: int,
    creators: Seq<Creator>,
    accounts: Seq<CreatorAccount>,
    min_rent: int,
    i: int,
    paid: int,
) -> Result<Seq<int>, MmmError>
    decreases creators.len() - i,
{
    if i < 0 || i >= creators.len() {
        Ok(Seq::empty())
    } else {
        let fee = if i == creators.len() - 1 {
            royalty - paid
        } else {
            royalty * (creators[i].share as int) / 100
        };
        if i == creators.len() - 1 && royalty - paid < 0 {
            Err(MmmError::NumericOverflow)
        } else if i >= accounts.len() {
            Err(MmmError::AccountNotEnoughKeys)
        } else if accounts[i].key != creators[i].address {
            Err(MmmError::InvalidCreatorAddress)
        } else if fee > 0 && accounts[i].lamports + fee > 0xffff_ffff_ffff_ffff {
            Err(MmmError::NumericOverflow)
        } else {
            let pay = if fee > 0 && accounts[i].lamports + fee > min_rent {
                fee
            } else {
                0
            };
            if paid + pay > 0xffff_ffff_ffff_ffff {
                Err(MmmError::NumericOverflow)
            } else {
                match creator_payouts_from(royalty, creators, accounts, min_rent, i + 1, paid + pay) {
                    Ok(rest) => Ok(seq![pay] + rest),
                    Err(e) => Err(e),
                }
            }
        }
    }
}

/// Full outcome of the royalty distribution: the royalty is derived
/// first (a zero royalty or an asset without creators distributes
/// nothing), the payer must cover it, the asset's declared royalty must
/// not exceed the hard ceiling, and then the walk runs.
pub open spec fn pay_creator_fees_spec(
    buyside_creator_royalty_bp: int,
    total_price: int,
    meta: Metadata,
    accounts: Seq<CreatorAccount>,
    payer_lamports: int,
    metadata_royalty_bp: int,
    min_rent: int,
) -> Result<Seq<int>, MmmError> {
    let royalty = royalty_amount(total_price, metadata_royalty_bp, buyside_creator_royalty_bp);
    if royalty == 0 {
        Ok(Seq::empty())
    } else {
        match meta.creators {
            None => Ok(Seq::empty()),
            Some(cs) => {
                if payer_lamports < royalty {
                    Err(MmmError::NotEnoughBalance)
                } else if meta.seller_fee_basis_points > MAX_METADATA_CREATOR_ROYALTY_BP {
                    Err(MmmError::InvalidMetadataCreatorRoyalty)
                } else {
                    creator_payouts_from(royalty, cs@, accounts, min_rent, 0, 0)
                }
            },
        }
    }
}

/// What a royalty distribution computed: the per-position payments to
/// execute (aligned with the declared creators) and their total.
#[derive(Debug, PartialEq, Eq)]
pub struct CreatorPayout {
    pub total_paid: u64,
    pub amounts: Vec<u64>,
}

proof fn lemma_sum_push(s: Seq<int>, x: int)
    ensures
        sum_seq(s.push(x)) == sum_seq(s) + x,
    decreases s.len(),
{
    if s.len() == 0 {
        assert(s.push(x).subrange(1, 1) =~= Seq::<int>::empty());
        assert(sum_seq(s.push(x)) == s.push(x)[0] + sum_seq(s.push(x).subrange(1, 1)));
        assert(s.push(x)[0] == x);
        assert(sum_seq(Seq::<int>::empty()) == 0);
        assert(sum_seq(s) == 0);
    } else {
        let t = s.push(x);
        assert(t.subrange(1, t.len() as int) =~= s.subrange(1, s.len() as int).push(x));
        lemma_sum_push(s.subrange(1, s.len() as int), x);
        assert(sum_seq(t) == t[0] + sum_seq(t.subrange(1, t.len() as int)));
        assert(sum_seq(s) == s[0] + sum_seq(s.subrange(1, s.len() as int)));
        assert(t[0] == s[0]);
    }
}

/// Computes the royalty split of a trade. Returns the payments the
/// caller must execute from the payer to each creator account, and
/// their total; the caller debits the payer by exactly the total.
pub fn pay_creator_fees_in_sol(
    buyside_creator_royalty_bp: u16,
    total_price: u64,
    parsed_metadata: &Metadata,
    creator_accounts: &Vec<CreatorAccount>,
    payer_lamports: u64,
    metadata_royalty_bp: u16,
    min_rent: u64,
) -> (r: Result<CreatorPayout, MmmError>)
    requires
        buyside_creator_royalty_bp <= 10000,
        metadata_royalty_bp <= 10000,
        parsed_metadata.creators matches Some(cs) ==> forall|i: int|
            0 <= i < cs@.len() ==> cs@[i].share <= 100,
    ensures
        ({
            let s = pay_creator_fees_spec(
                buyside_creator_royalty_bp as int,
                total_price as int,
                *parsed_metadata,
                creator_accounts@,
                payer_lamports as int,
                metadata_royalty_bp as int,
                min_rent as int,
            );
            match s {
                Ok(pays) => r matches Ok(out) && out.amounts@.map_values(|x: u64| x as int)
                    == pays && out.total_paid as int == sum_seq(pays),
                Err(e) => r == Err::<CreatorPayout, MmmError>(e),
            }
        }),
{
    proof {
        lemma_mul_upper_bound(total_price as int, 0xffff_ffff_ffff_ffff, metadata_royalty_bp as int, 10000);
        if metadata_royalty_bp > 0 {
            lemma_mul_div_le_self(total_price as int, metadata_royalty_bp as int, 10000);
        }
    }
    let part = (total_price as u128) * (metadata_royalty_bp as u128) / 10000;
    proof {
        assert(part as int == (total_price as int) * (metadata_royalty_bp as int) / 10000);
    }
    proof {
        lemma_mul_upper_bound(part as int, 0xffff_ffff_ffff_ffff, buyside_creator_royalty_bp as int, 10000);
        if buyside_creator_royalty_bp > 0 {
            lemma_mul_div_le_self(part as int, buyside_creator_royalty_bp as int, 10000);
        }
    }
    let royalty = (part * (buyside_creator_royalty_bp as u128) / 10000) as u64;
    proof {
        assert(royalty as int == (part as int) * (buyside_creator_royalty_bp as int) / 10000);
    }
    if royalty == 0 {
        return Ok(CreatorPayout { total_paid: 0, amounts: Vec::new() });
    }
    let creators = match &parsed_metadata.creators {
        Some(c) => c,
        None => {
            return Ok(CreatorPayout { total_paid: 0, amounts: Vec::new() });
        },
    };
    if payer_lamports < royalty {
        return Err(MmmError::NotEnoughBalance);
    }
    if parsed_metadata.seller_fee_basis_points > MAX_METADATA_CREATOR_ROYALTY_BP {
        return Err(MmmError::InvalidMetadataCreatorRoyalty);
    }
    let ghost full = creator_payouts_from(
        royalty as int,
        creators@,
        creator_accounts@,
        min_rent as int,
        0,
        0,
    );
    let mut amounts: Vec<u64> = Vec::new();
    let mut total_royalty: u64 = 0;
    let mut idx: usize = 0;
    while idx < creators.len()
        invariant
            idx <= creators.len(),
            amounts@.len() == idx,
            total_royalty as int == sum_seq(amounts@.map_values(|x: u64| x as int)),
            forall|i: int| 0 <= i < creators@.len() ==> creators@[i].share <= 100,
            royalty as int == royalty_amount(
                total_price as int,
                metadata_royalty_bp as int,
                buyside_creator_royalty_bp as int,
            ),
            royalty > 0,
            parsed_metadata.creators matches Some(cs) && cs@ == creators@,
            payer_lamports >= royalty,
            parsed_metadata.seller_fee_basis_points <= MAX_METADATA_CREATOR_ROYALTY_BP,
            full == creator_payouts_from(
                royalty as int,
                creators@,
                creator_accounts@,
                min_rent as int,
                0,
                0,
            ),
            (match creator_payouts_from(
                royalty as int,
                creators@,
                creator_accounts@,
                min_rent as int,
                idx as int,
                total_royalty as int,
            ) {
                Ok(rest) => full == Ok::<Seq<int>, MmmError>(
                    amounts@.map_values(|x: u64| x as int) + rest,
                ),
                Err(e) => full == Err::<Seq<int>, MmmError>(e),
            }),
        decreases creators.len() - idx,
    {
        let creator = creators[idx];
        let is_last = idx == creators.len() - 1;
        let fee: u64 = if is_last {
            if royalty < total_royalty {
                return Err(MmmError::NumericOverflow);
            }
            royalty - total_royalty
        } else {
            proof {
                if creator.share > 0 {
                    lemma_mul_div_le_self(royalty as int, creator.share as int, 100);
                }
                lemma_mul_upper_bound(royalty as int, 0xffff_ffff_ffff_ffff, creator.share as int, 100);
            }
            ((royalty as u128) * (creator.share as u128) / 100) as u64
        };
        if idx >= creator_accounts.len() {
            return Err(MmmError::AccountNotEnoughKeys);
        }
        let acct = creator_accounts[idx];
        if !(acct.key == creator.address) {
            return Err(MmmError::InvalidCreatorAddress);
        }
        if fee > 0 && acct.lamports > u64::MAX - fee {
            return Err(MmmError::NumericOverflow);
        }
        let pay: u64 = if fee > 0 && acct.lamports + fee > min_rent {
            fee
        } else {
            0
        };
        if total_royalty > u64::MAX - pay {
            return Err(MmmError::NumericOverflow);
        }
        proof {
            lemma_sum_push(amounts@.map_values(|x: u64| x as int), pay as int);
            assert(amounts@.push(pay).map_values(|x: u64| x as int) =~= amounts@.map_values(
                |x: u64| x as int,
            ).push(pay as int));
            let oldmap = amounts@.map_values(|x: u64| x as int);
            let rest0 = creator_payouts_from(
                royalty as int,
                creators@,
                creator_accounts@,
                min_rent as int,
                idx as int,
                total_royalty as int,
            );
            let rest1 = creator_payouts_from(
                royalty as int,
                creators@,
                creator_accounts@,
                min_rent as int,
                idx as int + 1,
                total_royalty as int + pay as int,
            );
            match rest1 {
                Ok(restn) => {
                    assert(oldmap + (seq![pay as int] + restn) =~= oldmap.push(pay as int) + restn);
                },
                Err(_) => {},
            }
        }
        amounts.push(pay);
        total_royalty = total_royalty + pay;
        idx = idx + 1;
    }
    proof {
        assert(amounts@.map_values(|x: u64| x as int) + Seq::<int>::empty() =~= amounts@.map_values(
            |x: u64| x as int,
        ));
    }
    Ok(CreatorPayout { total_paid: total_royalty, amounts })
}

proof fn lemma_payouts_last_paid_conserves(
    royalty: int,
    creators: Seq<Creator>,
    accounts: Seq<CreatorAccount>,
    min_rent: int,
    i: int,
    paid: int,
    pays: Seq<int>,
)
    requires
        0 <= i < creators.len(),
        creator_payouts_from(royalty, creators, accounts, min_rent, i, paid) == Ok::<
            Seq<int>,
            MmmError,
        >(pays),
        pays.len() == creators.len() - i,
        pays[creators.len() - 1 - i] > 0,
    ensures
        paid + sum_seq(pays) == royalty,
    decreases creators.len() - i,
{
    let fee = if i == creators.len() - 1 {
        royalty - paid
    } else {
        royalty * (creators[i].share as int) / 100
    };
    let pay = if fee > 0 && accounts[i].lamports + fee > min_rent {
        fee
    } else {
        0
    };
    let rest = creator_payouts_from(royalty, creators, accounts, min_rent, i + 1, paid + pay);
    if i == creators.len() - 1 {
        assert(pays =~= seq![pay] + Seq::<int>::empty());
        assert(sum_seq(pays) == pay + sum_seq(pays.subrange(1, pays.len() as int)));
        assert(pays.subrange(1, pays.len() as int) =~= Seq::<int>::empty());
        assert(pays[0] == pay);
        assert(pay > 0);
        assert(pay == royalty - paid);
    } else {
        let restn = rest->Ok_0;
        assert(pays == seq![pay] + restn);
        assert(pays.subrange(1, pays.len() as int) =~= restn);
        assert(restn[creators.len() - 1 - (i + 1)] == pays[creators.len() - 1 - i]);
        lemma_payouts_last_paid_conserves(
            royalty,
            creators,
            accounts,
            min_rent,
            i + 1,
            paid + pay,
            restn,
        );
        assert(sum_seq(pays) == pay + sum_seq(restn));
    }
}

proof fn lemma_payouts_len(
    royalty: int,
    creators: Seq<Creator>,
    accounts: Seq<CreatorAccount>,
    min_rent: int,
    i: int,
    paid: int,
)
    requires
        0 <= i <= creators.len(),
        creator_payouts_from(royalty, creators, accounts, min_rent, i, paid) matches Ok(_p),
    ensures
        (creator_payouts_from(royalty, creators, accounts, min_rent, i, paid)->Ok_0).len()
            == creators.len() - i,
    decreases creators.len() - i,
{
    if i < creators.len() {
        let fee = if i == creators.len() - 1 {
            royalty - paid
        } else {
            royalty * (creators[i].share as int) / 100
        };
        let pay = if fee > 0 && accounts[i].lamports + fee > min_rent {
            fee
        } else {
            0
        };
        lemma_payouts_len(royalty, creators, accounts, min_rent, i + 1, paid + pay);
    }
}

/// Law: the remainder rule conserves the royalty exactly. Whenever the
/// distribution walk succeeds and the last creator's payment was
/// actually made, the payments sum to the royalty to the lamport,
/// however the earlier pro-rata shares were truncated.
pub proof fn lemma_payout_conserves_royalty(
    royalty: int,
    creators: Seq<Creator>,
    accounts: Seq<CreatorAccount>,
    min_rent: int,
    pays: Seq<int>,
)
    requires
        creators.len() >= 1,
        creator_payouts_from(royalty, creators, accounts, min_rent, 0, 0) == Ok::<
            Seq<int>,
            MmmError,
        >(pays),
        pays[creators.len() - 1] > 0,
    ensures
        sum_seq(pays) == royalty,
{
    lemma_payouts_len(royalty, creators, accounts, min_rent, 0, 0);
    lemma_payouts_last_paid_conserves(royalty, creators, accounts, min_rent, 0, 0, pays);
}

} // verus!
