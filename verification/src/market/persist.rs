//! Taking the books out of a market as a record, and setting a market up
//! again from a record.

use super::NftSecondaryMarket;
use crate::amount::{attos_per_unit, Amount};
use crate::ledger::{Listing, MarketState};
use crate::record::{
    claims_admitted, lemma_claims_admitted_prefix, lemma_claims_keep_setup,
    lemma_listings_admitted_prefix, lemma_listings_keep_setup, lemma_with_claims_consistent,
    lemma_with_listings_consistent, listings_admitted, with_claims, with_listings, ClaimRecord,
    ListingRecord, MarketRecord,
};
use std::collections::{HashMap, HashSet};
use vstd::prelude::*;

verus! {

broadcast use vstd::std_specs::hash::group_hash_axioms;

impl NftSecondaryMarket {
    /// Sets a market up again from `record`, or returns `None` exactly when
    /// the record is not valid.
    pub fn restore(record: &MarketRecord) -> (r: Option<NftSecondaryMarket>)
        ensures
            match r {
                Some(market) => record.valid() && market.wf() && market@ == record.state(),
                None => !record.valid(),
            },
    {
        if !Self::accepts_fee_rate(&record.fee_rate) || record.fees.is_negative() {
            return None;
        }
        let mut market = NftSecondaryMarket {
            nft_vault: HashSet::new(),
            ccy_vault: Amount::zero(),
            nft_address: record.nft_address,
            ccy_address: record.ccy_address,
            badge_address: record.badge_address,
            badges: HashMap::new(),
            offers: HashMap::new(),
            to_collect: HashMap::new(),
            component_address: record.component_address,
            fee_badge: record.fee_badge,
            fee_rate: record.fee_rate,
            fee_vault: record.fees,
            fee_amount: record.fees,
            badges_minted: record.badges_minted,
        };
        proof {
            assert(market@.offers =~= record.base().offers);
            assert(market@.to_collect =~= record.base().to_collect);
        }
        let mut i: usize = 0;
        while i < record.listings.len()
            invariant
                i <= record.listings@.len(),
                market@ == with_listings(record.base(), record.listings@.take(i as int)),
                listings_admitted(record.base(), record.listings@.take(i as int)),
            decreases record.listings.len() - i,
        {
            let listing = record.listings[i];
            proof {
                assert(record.listings@.take(i + 1).drop_last() =~= record.listings@.take(i as int));
            }
            if listing.cost.is_negative() || listing.badge_id >= market.badges_minted
                || market.badges.contains_key(&listing.badge_id) || market.offers.contains_key(
                &listing.nft_id,
            ) {
                proof {
                    if record.valid() {
                        lemma_listings_admitted_prefix(
                            record.base(),
                            record.listings@,
                            i + 1,
                        );
                    }
                }
                return None;
            }
            market.badges.insert(listing.badge_id, listing.nft_id);
            market.offers.insert(listing.nft_id, (listing.badge_id, listing.cost));
            market.nft_vault.insert(listing.nft_id);
            proof {
                let entered = with_listings(record.base(), record.listings@.take(i + 1));
                assert(market@.offers =~= entered.offers);
            }
            i += 1;
        }
        proof {
            assert(record.listings@.take(i as int) =~= record.listings@);
        }
        let mut j: usize = 0;
        while j < record.claims.len()
            invariant
                j <= record.claims@.len(),
                listings_admitted(record.base(), record.listings@),
                0 <= record.fee_rate@ <= attos_per_unit(),
                0 <= record.fees@,
                market@ == with_claims(record.listed(), record.claims@.take(j as int)),
                claims_admitted(record.listed(), record.claims@.take(j as int)),
            decreases record.claims.len() - j,
        {
            let claim = record.claims[j];
            proof {
                assert(record.claims@.take(j + 1).drop_last() =~= record.claims@.take(j as int));
            }
            if claim.amount.is_negative() || claim.badge_id >= market.badges_minted
                || market.badges.contains_key(&claim.badge_id) {
                proof {
                    if record.valid() {
                        lemma_claims_admitted_prefix(record.listed(), record.claims@, j + 1);
                    }
                }
                return None;
            }
            let owed = match market.ccy_vault.checked_add(claim.amount) {
                Some(owed) => owed,
                None => {
                    proof {
                        if record.valid() {
                            lemma_claims_admitted_prefix(record.listed(), record.claims@, j + 1);
                        }
                    }
                    return None;
                },
            };
            market.badges.insert(claim.badge_id, claim.nft_id);
            market.to_collect.insert(claim.badge_id, claim.amount);
            market.ccy_vault = owed;
            proof {
                let entered = with_claims(record.listed(), record.claims@.take(j + 1));
                assert(market@.to_collect =~= entered.to_collect);
            }
            j += 1;
        }
        proof {
            assert(record.claims@.take(j as int) =~= record.claims@);
            lemma_claims_keep_setup(record.listed(), record.claims@);
            lemma_listings_keep_setup(record.base(), record.listings@);
        }
        if market.ccy_vault.checked_add(market.fee_vault).is_none() {
            return None;
        }
        proof {
            record.lemma_valid_state_inv();
        }
        Some(market)
    }

    /// The books before any offer or proceeds are entered into them.
    spec fn bare(&self) -> MarketState {
        MarketState {
            fees: self.fee_vault@,
            fee_amount: self.fee_vault@,
            badges_issued: self.badges_minted as nat,
            ..MarketState::initial(
                self.nft_address,
                self.ccy_address,
                self.fee_badge,
                self.fee_rate@,
                self.component_address,
                self.badge_address,
            )
        }
    }

    /// The books as a record, from which [`Self::restore`] sets up a market
    /// with the same books. The order of the entries in the record's lists
    /// is not fixed.
    pub fn record(&self) -> (r: MarketRecord)
        requires
            self.wf(),
        ensures
            r.valid(),
            r.state() == self@,
    {
        let ghost base = self.bare();
        let ghost whole = self@;
        let mut listings: Vec<ListingRecord> = Vec::new();
        for entry in it: self.offers.iter()
            invariant
                whole == self@,
                base == self.bare(),
                whole.inv(),
                base.consistent(),
                listings@.len() == it.index(),
                it.seq().no_duplicates(),
                forall|k: int|
                    0 <= k < it.seq().len() ==> self.offers@.contains_key(
                        *(#[trigger] it.seq()[k]).0,
                    ) && self.offers@[*it.seq()[k].0] == *it.seq()[k].1,
                forall|k: int|
                    #![trigger listings@[k]]
                    #![trigger it.seq()[k]]
                    0 <= k < listings@.len() ==> listings@[k].nft_id == *it.seq()[k].0,
                listings_admitted(base, listings@),
                offers_part_of(with_listings(base, listings@), whole),
                forall|k: int|
                    0 <= k < listings@.len() ==> with_listings(base, listings@).offers.contains_key(
                        (#[trigger] listings@[k]).nft_id,
                    ),
                forall|asset: u64| #[trigger]
                    with_listings(base, listings@).offers.contains_key(asset) ==> exists|k: int|
                        0 <= k < listings@.len() && (#[trigger] listings@[k]).nft_id == asset,
        {
            let listing = ListingRecord { nft_id: *entry.0, badge_id: entry.1.0, cost: entry.1.1 };
            let ghost before = listings@;
            let ghost part = with_listings(base, before);
            listings.push(listing);
            proof {
                assert(listings@.drop_last() =~= before);
                lemma_listings_keep_setup(base, before);
                assert(whole.offers.contains_key(listing.nft_id));
                // an asset entered before would be the same entry of the registry,
                // and the registry is walked without repetition
                if part.offers.contains_key(listing.nft_id) {
                    let earlier = choose|e: int|
                        0 <= e < before.len() && (#[trigger] before[e]).nft_id == listing.nft_id;
                    assert(it.seq()[earlier] == it.seq()[before.len() as int]);
                }
            }
        }
        let ghost listed = with_listings(base, listings@);
        proof {
            lemma_with_listings_consistent(base, listings@);
            lemma_listings_keep_setup(base, listings@);
        }
        let mut claims: Vec<ClaimRecord> = Vec::new();
        for entry in it: self.to_collect.iter()
            invariant
                whole == self@,
                whole.inv(),
                listed.consistent(),
                listed.offers == whole.offers,
                listed.to_collect == Map::<u64, int>::empty(),
                listed.badges_issued == whole.badges_issued,
                offers_part_of(listed, whole),
                claims@.len() == it.index(),
                it.seq().no_duplicates(),
                forall|k: int|
                    0 <= k < it.seq().len() ==> self.to_collect@.contains_key(
                        *(#[trigger] it.seq()[k]).0,
                    ) && self.to_collect@[*it.seq()[k].0] == *it.seq()[k].1,
                forall|k: int|
                    #![trigger claims@[k]]
                    #![trigger it.seq()[k]]
                    0 <= k < claims@.len() ==> claims@[k].badge_id == *it.seq()[k].0,
                claims_admitted(listed, claims@),
                claims_part_of(with_claims(listed, claims@), listed, whole),
                forall|k: int|
                    0 <= k < claims@.len() ==> with_claims(listed, claims@).to_collect.contains_key(
                        (#[trigger] claims@[k]).badge_id,
                    ),
                forall|badge: u64| #[trigger]
                    with_claims(listed, claims@).to_collect.contains_key(badge) ==> exists|k: int|
                        0 <= k < claims@.len() && (#[trigger] claims@[k]).badge_id == badge,
        {
            let badge_id = *entry.0;
            let nft_id = match self.badges.get(&badge_id) {
                Some(nft_id) => *nft_id,
                // not reached: a badge with proceeds waiting is live
                None => 0,
            };
            let claim = ClaimRecord { badge_id, nft_id, amount: *entry.1 };
            let ghost before = claims@;
            let ghost part = with_claims(listed, before);
            claims.push(claim);
            proof {
                assert(claims@.drop_last() =~= before);
                lemma_claims_keep_setup(listed, before);
                // a badge entered before would be the same entry of the registry,
                // and the registry is walked without repetition
                if part.to_collect.contains_key(badge_id) {
                    let earlier = choose|e: int|
                        0 <= e < before.len() && (#[trigger] before[e]).badge_id == badge_id;
                    assert(it.seq()[earlier] == it.seq()[before.len() as int]);
                }
            }
        }
        let r = MarketRecord {
            nft_address: self.nft_address,
            ccy_address: self.ccy_address,
            badge_address: self.badge_address,
            component_address: self.component_address,
            fee_badge: self.fee_badge,
            fee_rate: self.fee_rate,
            badges_minted: self.badges_minted,
            listings,
            claims,
            fees: self.fee_vault,
        };
        proof {
            let done = with_claims(listed, claims@);
            lemma_with_claims_consistent(listed, claims@);
            lemma_claims_keep_setup(listed, claims@);
            assert(done.to_collect =~= whole.to_collect);
            assert(done.badges =~= whole.badges);
        }
        r
    }
}

/// `part` holds some of the offers of `whole`, each with the badge that
/// controls it, and no proceeds.
spec fn offers_part_of(part: MarketState, whole: MarketState) -> bool {
    &&& part.to_collect == Map::<u64, int>::empty()
    &&& forall|asset: u64| #[trigger]
        part.offers.contains_key(asset) ==> whole.offers.contains_key(asset) && part.offers[asset]
            == whole.offers[asset]
    &&& forall|badge: u64| #[trigger]
        part.badges.contains_key(badge) ==> whole.badges.contains_key(badge) && part.badges[badge]
            == whole.badges[badge] && part.offers.contains_key(whole.badges[badge])
            && whole.offers[whole.badges[badge]].badge == badge
    &&& part.asset_vault == part.offers.dom()
}

/// `part` holds the offers of `listed` and some of the proceeds of `whole`,
/// each with its badge.
spec fn claims_part_of(part: MarketState, listed: MarketState, whole: MarketState) -> bool {
    &&& forall|badge: u64| #[trigger]
        part.to_collect.contains_key(badge) ==> whole.to_collect.contains_key(badge)
            && part.to_collect[badge] == whole.to_collect[badge]
    &&& forall|badge: u64| #[trigger]
        part.badges.contains_key(badge) ==> whole.badges.contains_key(badge) && part.badges[badge]
            == whole.badges[badge] && (listed.badges.contains_key(badge)
            || part.to_collect.contains_key(badge))
    &&& forall|badge: u64| #[trigger]
        listed.badges.contains_key(badge) ==> part.badges.contains_key(badge)
}

} // verus!
