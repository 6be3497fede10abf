//! The market's books laid out as plain lists, so that they can be kept
//! where the market itself cannot go and the market can be set up again from
//! them.
//!
//! A record names every live badge once: under the offer it controls, or
//! under the proceeds that wait for it. The books a record stands for are
//! built by entering its offers and then its proceeds, one after the other,
//! into empty books.

use crate::amount::{attos_per_unit, max_attos, Amount};
use crate::assets::{ComponentAddress, ResourceAddress};
use crate::ledger::{same_setup, MarketState};
use vstd::prelude::*;

verus! {

/// An active offer: the asset, the badge that controls the offer, and the
/// asking price.
#[derive(Clone, Copy, Debug, PartialEq, Eq)]
pub struct ListingRecord {
    pub nft_id: u64,
    pub badge_id: u64,
    pub cost: Amount,
}

/// Proceeds waiting for a badge: the badge, the asset it was issued for, and
/// the amount owed.
#[derive(Clone, Copy, Debug, PartialEq, Eq)]
pub struct ClaimRecord {
    pub badge_id: u64,
    pub nft_id: u64,
    pub amount: Amount,
}

/// Everything a market keeps, as plain values.
#[derive(Clone, Debug, PartialEq, Eq)]
pub struct MarketRecord {
    pub nft_address: ResourceAddress,
    pub ccy_address: ResourceAddress,
    pub badge_address: ResourceAddress,
    pub component_address: ComponentAddress,
    pub fee_badge: ResourceAddress,
    pub fee_rate: Amount,
    /// How many badges have been minted so far.
    pub badges_minted: u64,
    pub listings: Vec<ListingRecord>,
    pub claims: Vec<ClaimRecord>,
    /// The balance of the fee treasury.
    pub fees: Amount,
}

/// The books `base` with the offers of `listings` entered in order.
pub open spec fn with_listings(base: MarketState, listings: Seq<ListingRecord>) -> MarketState
    decreases listings.len(),
{
    if listings.len() == 0 {
        base
    } else {
        with_listings(base, listings.drop_last()).with_listing(
            listings.last().nft_id,
            listings.last().badge_id,
            listings.last().cost@,
        )
    }
}

/// Whether each offer of `listings` can be entered in its turn, starting
/// from the books `base`.
pub open spec fn listings_admitted(base: MarketState, listings: Seq<ListingRecord>) -> bool
    decreases listings.len(),
{
    listings.len() == 0 || (listings_admitted(base, listings.drop_last()) && with_listings(
        base,
        listings.drop_last(),
    ).admits_listing(listings.last().nft_id, listings.last().badge_id, listings.last().cost@))
}

/// The books `base` with the proceeds of `claims` entered in order.
pub open spec fn with_claims(base: MarketState, claims: Seq<ClaimRecord>) -> MarketState
    decreases claims.len(),
{
    if claims.len() == 0 {
        base
    } else {
        with_claims(base, claims.drop_last()).with_claim(
            claims.last().badge_id,
            claims.last().nft_id,
            claims.last().amount@,
        )
    }
}

/// Whether the proceeds of each of `claims` can be entered in their turn,
/// starting from the books `base`.
pub open spec fn claims_admitted(base: MarketState, claims: Seq<ClaimRecord>) -> bool
    decreases claims.len(),
{
    claims.len() == 0 || (claims_admitted(base, claims.drop_last()) && with_claims(
        base,
        claims.drop_last(),
    ).admits_claim(claims.last().badge_id, claims.last().amount@))
}

/// Entering admitted offers keeps consistent books consistent.
pub proof fn lemma_with_listings_consistent(base: MarketState, listings: Seq<ListingRecord>)
    requires
        base.consistent(),
        listings_admitted(base, listings),
    ensures
        with_listings(base, listings).consistent(),
    decreases listings.len(),
{
    if listings.len() > 0 {
        lemma_with_listings_consistent(base, listings.drop_last());
        with_listings(base, listings.drop_last()).lemma_with_listing_consistent(
            listings.last().nft_id,
            listings.last().badge_id,
            listings.last().cost@,
        );
    }
}

/// Entering admitted proceeds keeps consistent books consistent.
pub proof fn lemma_with_claims_consistent(base: MarketState, claims: Seq<ClaimRecord>)
    requires
        base.consistent(),
        claims_admitted(base, claims),
    ensures
        with_claims(base, claims).consistent(),
    decreases claims.len(),
{
    if claims.len() > 0 {
        lemma_with_claims_consistent(base, claims.drop_last());
        with_claims(base, claims.drop_last()).lemma_with_claim_consistent(
            claims.last().badge_id,
            claims.last().nft_id,
            claims.last().amount@,
        );
    }
}

/// If all offers of a list can be entered, so can the first `n` of them.
pub proof fn lemma_listings_admitted_prefix(
    base: MarketState,
    listings: Seq<ListingRecord>,
    n: int,
)
    requires
        listings_admitted(base, listings),
        0 <= n <= listings.len(),
    ensures
        listings_admitted(base, listings.take(n)),
    decreases listings.len(),
{
    if n == listings.len() {
        assert(listings.take(n) =~= listings);
    } else {
        lemma_listings_admitted_prefix(base, listings.drop_last(), n);
        assert(listings.drop_last().take(n) =~= listings.take(n));
    }
}

/// If the proceeds of all claims of a list can be entered, so can those of
/// the first `n`, and what is owed after them is no more than what is owed
/// after all.
pub proof fn lemma_claims_admitted_prefix(base: MarketState, claims: Seq<ClaimRecord>, n: int)
    requires
        claims_admitted(base, claims),
        0 <= n <= claims.len(),
    ensures
        claims_admitted(base, claims.take(n)),
        with_claims(base, claims.take(n)).proceeds <= with_claims(base, claims).proceeds,
    decreases claims.len(),
{
    if n == claims.len() {
        assert(claims.take(n) =~= claims);
    } else {
        lemma_claims_admitted_prefix(base, claims.drop_last(), n);
        assert(claims.drop_last().take(n) =~= claims.take(n));
    }
}

impl MarketRecord {
    /// The books before any offer or proceeds are entered: the record's
    /// configuration, its badge count and its treasury, and empty
    /// registries.
    pub open spec fn base(&self) -> MarketState {
        MarketState {
            fees: self.fees@,
            fee_amount: self.fees@,
            badges_issued: self.badges_minted as nat,
            ..MarketState::initial(
                self.nft_address,
                self.ccy_address,
                self.fee_badge,
                self.fee_rate@,
                self.component_address,
                self.badge_address,
            )
        }
    }

    /// The books with the record's offers entered.
    pub open spec fn listed(&self) -> MarketState {
        with_listings(self.base(), self.listings@)
    }

    /// The books the record stands for.
    pub open spec fn state(&self) -> MarketState {
        with_claims(self.listed(), self.claims@)
    }

    /// Whether the record stands for books that are in order: the fee rate
    /// is a fraction, the treasury is not negative, every offer and all
    /// proceeds can be entered in their turn, and the currency in the
    /// market's hands is a representable amount.
    pub open spec fn valid(&self) -> bool {
        &&& 0 <= self.fee_rate@ <= attos_per_unit()
        &&& 0 <= self.fees@
        &&& listings_admitted(self.base(), self.listings@)
        &&& claims_admitted(self.listed(), self.claims@)
        &&& self.state().proceeds + self.fees@ <= max_attos()
    }

    /// A valid record stands for books that are in order.
    pub proof fn lemma_valid_state_inv(&self)
        requires
            self.valid(),
        ensures
            self.state().inv(),
    {
        let base = self.base();
        lemma_with_listings_consistent(base, self.listings@);
        lemma_with_claims_consistent(self.listed(), self.claims@);
        lemma_claims_keep_setup(self.listed(), self.claims@);
        lemma_listings_keep_setup(base, self.listings@);
    }
}

/// Entering offers changes neither the setup nor the balances nor the badge
/// count.
pub proof fn lemma_listings_keep_setup(base: MarketState, listings: Seq<ListingRecord>)
    ensures
        same_setup(with_listings(base, listings), base),
        with_listings(base, listings).fees == base.fees,
        with_listings(base, listings).fee_amount == base.fee_amount,
        with_listings(base, listings).badges_issued == base.badges_issued,
        with_listings(base, listings).proceeds == base.proceeds,
        with_listings(base, listings).to_collect == base.to_collect,
    decreases listings.len(),
{
    if listings.len() > 0 {
        lemma_listings_keep_setup(base, listings.drop_last());
    }
}

/// Entering proceeds changes neither the setup nor the treasury nor the
/// badge count nor the offers nor the custody of assets.
pub proof fn lemma_claims_keep_setup(base: MarketState, claims: Seq<ClaimRecord>)
    ensures
        same_setup(with_claims(base, claims), base),
        with_claims(base, claims).fees == base.fees,
        with_claims(base, claims).fee_amount == base.fee_amount,
        with_claims(base, claims).badges_issued == base.badges_issued,
        with_claims(base, claims).offers == base.offers,
        with_claims(base, claims).asset_vault == base.asset_vault,
    decreases claims.len(),
{
    if claims.len() > 0 {
        lemma_claims_keep_setup(base, claims.drop_last());
    }
}

} // verus!
