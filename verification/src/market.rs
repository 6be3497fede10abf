//! The market itself: executable bookkeeping that follows the rules of
//! [`MarketState`] step for step. Every operation either goes through and
//! leaves the books as its rule says, or is refused for the reason its rule
//! gives and leaves the books untouched.

use crate::amount::{attos_per_unit, Amount};
use crate::assets::{
    seller_badge_description, seller_badge_name, Badge, ComponentAddress, Funds, NonFungible,
    ResourceAddress,
};
use crate::ledger::{Listing, MarketError, MarketState};
use std::collections::{HashMap, HashSet};
use vstd::prelude::*;

mod persist;

verus! {

broadcast use vstd::std_specs::hash::group_hash_axioms;

/// A secondary market for the assets of one type, settled in one currency.
///
/// A seller hands over an asset and gets a badge; a buyer pays the price and
/// gets the asset; whoever holds the badge collects the price less the fee.
pub struct NftSecondaryMarket {
    nft_vault: HashSet<u64>,
    ccy_vault: Amount,
    nft_address: ResourceAddress,
    ccy_address: ResourceAddress,
    badge_address: ResourceAddress,
    badges: HashMap<u64, u64>,
    offers: HashMap<u64, (u64, Amount)>,
    to_collect: HashMap<u64, Amount>,
    component_address: ComponentAddress,
    fee_badge: ResourceAddress,
    fee_rate: Amount,
    fee_vault: Amount,
    fee_amount: Amount,
    badges_minted: u64,
}

impl View for NftSecondaryMarket {
    type V = MarketState;

    closed spec fn view(&self) -> MarketState {
        MarketState {
            listable: self.nft_address,
            currency: self.ccy_address,
            badge_resource: self.badge_address,
            fee_authority: self.fee_badge,
            component: self.component_address,
            fee_rate: self.fee_rate@,
            badges: self.badges@,
            offers: Map::new(
                |asset: u64| self.offers@.contains_key(asset),
                |asset: u64|
                    Listing { badge: self.offers@[asset].0, price: self.offers@[asset].1@ },
            ),
            to_collect: Map::new(
                |badge: u64| self.to_collect@.contains_key(badge),
                |badge: u64| self.to_collect@[badge]@,
            ),
            asset_vault: self.nft_vault@,
            proceeds: self.ccy_vault@,
            fees: self.fee_vault@,
            fee_amount: self.fee_amount@,
            badges_issued: self.badges_minted as nat,
        }
    }
}

impl NftSecondaryMarket {
    /// The books are in order.
    pub open spec fn wf(&self) -> bool {
        self@.inv()
    }

    /// Sets up an empty market for assets of type `nft_address`, settled in
    /// `ccy_address`, that keeps `fee_rate` of every sale for the holder of
    /// `fee_badge`. The ledger has allocated `component_address` to the
    /// market and `badge_address` to its badges.
    pub fn instantiate_component(
        nft_address: ResourceAddress,
        ccy_address: ResourceAddress,
        fee_badge: ResourceAddress,
        fee_rate: Amount,
        component_address: ComponentAddress,
        badge_address: ResourceAddress,
    ) -> (market: NftSecondaryMarket)
        requires
            0 <= fee_rate@ <= attos_per_unit(),
        ensures
            market.wf(),
            market@ == MarketState::initial(
                nft_address,
                ccy_address,
                fee_badge,
                fee_rate@,
                component_address,
                badge_address,
            ),
    {
        let market = NftSecondaryMarket {
            nft_vault: HashSet::new(),
            ccy_vault: Amount::zero(),
            nft_address,
            ccy_address,
            badge_address,
            badges: HashMap::new(),
            offers: HashMap::new(),
            to_collect: HashMap::new(),
            component_address,
            fee_badge,
            fee_rate,
            fee_vault: Amount::zero(),
            fee_amount: Amount::zero(),
            badges_minted: 0,
        };
        proof {
            MarketState::lemma_initial_inv(
                nft_address,
                ccy_address,
                fee_badge,
                fee_rate@,
                component_address,
                badge_address,
            );
            let initial = MarketState::initial(
                nft_address,
                ccy_address,
                fee_badge,
                fee_rate@,
                component_address,
                badge_address,
            );
            assert(market@.offers =~= initial.offers);
            assert(market@.to_collect =~= initial.to_collect);
        }
        market
    }

    /// Lists `asset` at the price `cost` and hands back the badge that
    /// controls the listing, together with what the badge says of itself.
    /// The asset goes into custody.
    pub fn sell(&mut self, asset: NonFungible, cost: Amount) -> (result: Result<
        (NonFungible, Badge),
        MarketError,
    >)
        requires
            old(self).wf(),
            old(self)@.sell_error(asset, cost@) is None ==> old(self)@.can_list(asset),
        ensures
            final(self).wf(),
            match result {
                Ok((badge, data)) => {
                    &&& old(self)@.sell_error(asset, cost@) is None
                    &&& badge == old(self)@.minted()
                    &&& old(self)@.describes(data, asset)
                    &&& final(self)@ == old(self)@.after_sell(asset, cost@)
                },
                Err(e) => {
                    &&& old(self)@.sell_error(asset, cost@) == Some(e)
                    &&& final(self)@ == old(self)@
                },
            },
    {
        if cost.is_negative() {
            return Err(MarketError::InvalidPrice);
        }
        if !(asset.resource == self.nft_address) {
            return Err(MarketError::WrongAssetType);
        }
        let (badge, data) = mint_badge(
            &mut self.badges_minted,
            self.badge_address,
            self.nft_address,
            asset.id,
            self.component_address,
        );
        self.badges.insert(badge.id, asset.id);
        self.offers.insert(asset.id, (badge.id, cost));
        self.nft_vault.insert(asset.id);
        proof {
            old(self)@.lemma_sell_inv(asset, cost@);
            assert(self@.offers =~= old(self)@.after_sell(asset, cost@).offers);
        }
        Ok((badge, data))
    }

    /// Re-prices the listing that `badge` controls to `cost` and hands the
    /// badge back.
    pub fn update(&mut self, badge: NonFungible, cost: Amount) -> (result: Result<
        NonFungible,
        MarketError,
    >)
        requires
            old(self).wf(),
        ensures
            final(self).wf(),
            match result {
                Ok(same) => {
                    &&& old(self)@.update_error(badge, cost@) is None
                    &&& same == badge
                    &&& final(self)@ == old(self)@.after_update(badge.id, cost@)
                },
                Err(e) => {
                    &&& old(self)@.update_error(badge, cost@) == Some(e)
                    &&& final(self)@ == old(self)@
                },
            },
    {
        if cost.is_negative() {
            return Err(MarketError::InvalidPrice);
        }
        let nft_id = match self.listed_asset(&badge) {
            Ok(nft_id) => nft_id,
            Err(e) => {
                return Err(e);
            },
        };
        self.offers.insert(nft_id, (badge.id, cost));
        proof {
            old(self)@.lemma_update_inv(badge, cost@);
            assert(self@.offers =~= old(self)@.after_update(badge.id, cost@).offers);
        }
        Ok(badge)
    }

    /// Withdraws the listing that `badge` controls: the badge is burned and
    /// the asset leaves custody.
    pub fn cancel(&mut self, badge: NonFungible) -> (result: Result<NonFungible, MarketError>)
        requires
            old(self).wf(),
        ensures
            final(self).wf(),
            match result {
                Ok(asset) => {
                    &&& old(self)@.cancel_error(badge) is None
                    &&& asset == old(self)@.asset_of(badge.id)
                    &&& final(self)@ == old(self)@.after_cancel(badge.id)
                },
                Err(e) => {
                    &&& old(self)@.cancel_error(badge) == Some(e)
                    &&& final(self)@ == old(self)@
                },
            },
    {
        let nft_id = match self.listed_asset(&badge) {
            Ok(nft_id) => nft_id,
            Err(e) => {
                return Err(e);
            },
        };
        self.badges.remove(&badge.id);
        self.offers.remove(&nft_id);
        self.nft_vault.remove(&nft_id);
        proof {
            old(self)@.lemma_cancel_inv(badge);
            assert(self@.offers =~= old(self)@.after_cancel(badge.id).offers);
        }
        Ok(NonFungible { resource: self.nft_address, id: nft_id })
    }

    /// Pays out the proceeds waiting for `badge`: the badge is burned and the
    /// amount leaves the proceeds vault.
    pub fn collect(&mut self, badge: NonFungible) -> (result: Result<Funds, MarketError>)
        requires
            old(self).wf(),
        ensures
            final(self).wf(),
            match result {
                Ok(funds) => {
                    &&& old(self)@.collect_error(badge) is None
                    &&& funds.resource == old(self)@.currency
                    &&& funds.amount@ == old(self)@.to_collect[badge.id]
                    &&& final(self)@ == old(self)@.after_collect(badge.id)
                },
                Err(e) => {
                    &&& old(self)@.collect_error(badge) == Some(e)
                    &&& final(self)@ == old(self)@
                },
            },
    {
        if !(badge.resource == self.badge_address) {
            return Err(MarketError::WrongAssetType);
        }
        if !self.badges.contains_key(&badge.id) {
            return Err(MarketError::UnknownBadge);
        }
        let owed = match self.to_collect.get(&badge.id) {
            Some(owed) => *owed,
            None => {
                return Err(MarketError::AlreadyCollected);
            },
        };
        proof {
            old(self)@.lemma_collect_inv(badge);
        }
        self.badges.remove(&badge.id);
        self.to_collect.remove(&badge.id);
        self.ccy_vault = self.ccy_vault.minus(owed);
        proof {
            assert(self@.to_collect =~= old(self)@.after_collect(badge.id).to_collect);
        }
        Ok(Funds { resource: self.ccy_address, amount: owed })
    }

    /// Sells the listed asset `nft_id` to the bearer of `payment`. The price
    /// is taken out of the payment and split into the fee, which goes to the
    /// treasury, and the rest, which waits in the proceeds vault for the
    /// holder of the listing's badge. Hands back the asset and the change.
    pub fn buy(&mut self, nft_id: u64, payment: Funds) -> (result: Result<
        (NonFungible, Funds),
        MarketError,
    >)
        requires
            old(self).wf(),
            old(self)@.buy_error(nft_id, payment.resource, payment.amount@) is None ==> old(
                self,
            )@.can_settle(old(self)@.offers[nft_id].price),
        ensures
            final(self).wf(),
            match result {
                Ok((asset, change)) => {
                    &&& old(self)@.buy_error(nft_id, payment.resource, payment.amount@) is None
                    &&& asset == (NonFungible { resource: old(self)@.listable, id: nft_id })
                    &&& change.resource == payment.resource
                    &&& change.amount@ == old(self)@.change_of(nft_id, payment.amount@)
                    &&& final(self)@ == old(self)@.after_buy(nft_id)
                },
                Err(e) => {
                    &&& old(self)@.buy_error(nft_id, payment.resource, payment.amount@) == Some(e)
                    &&& final(self)@ == old(self)@
                },
            },
    {
        let (badge_id, cost) = match self.offers.get(&nft_id) {
            Some(offer) => (offer.0, offer.1),
            None => {
                return Err(MarketError::NoActiveOffer);
            },
        };
        if payment.amount.less_than(&cost) {
            return Err(MarketError::InsufficientPayment);
        }
        if !(payment.resource == self.ccy_address) {
            return Err(MarketError::WrongAssetType);
        }
        proof {
            old(self)@.lemma_buy_inv(nft_id, payment.resource, payment.amount@);
            old(self)@.lemma_proceeds_nonnegative();
        }
        let change = payment.amount.minus(cost);
        let fee = cost.times(self.fee_rate);
        let net = cost.minus(fee);
        self.offers.remove(&nft_id);
        self.fee_vault = self.fee_vault.plus(fee);
        self.fee_amount = self.fee_vault;
        self.to_collect.insert(badge_id, net);
        self.ccy_vault = self.ccy_vault.plus(net);
        self.nft_vault.remove(&nft_id);
        proof {
            assert(self@.offers =~= old(self)@.after_buy(nft_id).offers);
            assert(self@.to_collect =~= old(self)@.after_buy(nft_id).to_collect);
        }
        Ok(
            (
                NonFungible { resource: self.nft_address, id: nft_id },
                Funds { resource: payment.resource, amount: change },
            ),
        )
    }

    /// Empties the fee treasury into the hands of the fee authority.
    /// `authority` is the capability the caller has proved to hold.
    pub fn collect_fees(&mut self, authority: ResourceAddress) -> (result: Result<
        Funds,
        MarketError,
    >)
        requires
            old(self).wf(),
        ensures
            final(self).wf(),
            match result {
                Ok(funds) => {
                    &&& old(self)@.collect_fees_error(authority) is None
                    &&& funds.resource == old(self)@.currency
                    &&& funds.amount@ == old(self)@.fees
                    &&& final(self)@ == old(self)@.after_collect_fees()
                },
                Err(e) => {
                    &&& old(self)@.collect_fees_error(authority) == Some(e)
                    &&& final(self)@ == old(self)@
                },
            },
    {
        if !(authority == self.fee_badge) {
            return Err(MarketError::Unauthorized);
        }
        let swept = self.fee_vault;
        self.fee_amount = Amount::zero();
        self.fee_vault = Amount::zero();
        proof {
            old(self)@.lemma_collect_fees_inv();
            assert(self@ == old(self)@.after_collect_fees());
        }
        Ok(Funds { resource: self.ccy_address, amount: swept })
    }

    /// Whether `fee_rate` is a fraction between nothing and the whole.
    pub fn accepts_fee_rate(fee_rate: &Amount) -> (r: bool)
        ensures
            r == (0 <= fee_rate@ <= attos_per_unit()),
    {
        let one = Amount::one();
        !fee_rate.is_negative() && !one.less_than(fee_rate)
    }

    /// Whether `asset` can be taken into custody: it is not there already,
    /// and a badge identifier is left to hand out.
    pub fn can_list(&self, asset: &NonFungible) -> (r: bool)
        requires
            self.wf(),
        ensures
            r == self@.can_list(*asset),
    {
        !self.nft_vault.contains(&asset.id) && self.badges_minted < u64::MAX
    }

    /// Whether the vaults can take in `price` more: all the currency then in
    /// the market's hands is still a representable amount.
    pub fn can_settle(&self, price: &Amount) -> (r: bool)
        requires
            self.wf(),
        ensures
            r == self@.can_settle(price@),
    {
        proof {
            self@.lemma_proceeds_nonnegative();
        }
        if price.is_negative() {
            return true;
        }
        let held = self.ccy_vault.plus(self.fee_vault);
        held.checked_add(*price).is_some()
    }

    /// The active offer for the asset `nft_id`: the badge that controls it
    /// and the asking price.
    pub fn offer(&self, nft_id: u64) -> (r: Option<(u64, Amount)>)
        ensures
            match r {
                Some((badge, cost)) => self@.offers.contains_key(nft_id) && self@.offers[nft_id]
                    == (Listing { badge, price: cost@ }),
                None => !self@.offers.contains_key(nft_id),
            },
    {
        match self.offers.get(&nft_id) {
            Some(offer) => Some((offer.0, offer.1)),
            None => None,
        }
    }

    /// The asset that the live badge `badge_id` was issued for.
    pub fn badge_asset(&self, badge_id: u64) -> (r: Option<u64>)
        ensures
            match r {
                Some(nft_id) => self@.badges.contains_key(badge_id) && self@.badges[badge_id]
                    == nft_id,
                None => !self@.badges.contains_key(badge_id),
            },
    {
        match self.badges.get(&badge_id) {
            Some(nft_id) => Some(*nft_id),
            None => None,
        }
    }

    /// The proceeds waiting for the badge `badge_id`.
    pub fn owed_to(&self, badge_id: u64) -> (r: Option<Amount>)
        ensures
            match r {
                Some(owed) => self@.to_collect.contains_key(badge_id) && self@.to_collect[badge_id]
                    == owed@,
                None => !self@.to_collect.contains_key(badge_id),
            },
    {
        match self.to_collect.get(&badge_id) {
            Some(owed) => Some(*owed),
            None => None,
        }
    }

    /// Whether the asset `nft_id` is in the market's custody.
    pub fn holds_asset(&self, nft_id: u64) -> (r: bool)
        ensures
            r == self@.asset_vault.contains(nft_id),
    {
        self.nft_vault.contains(&nft_id)
    }

    /// The balance of the proceeds vault.
    pub fn proceeds_balance(&self) -> (r: Amount)
        ensures
            r@ == self@.proceeds,
    {
        self.ccy_vault
    }

    /// The balance of the fee treasury.
    pub fn fee_balance(&self) -> (r: Amount)
        ensures
            r@ == self@.fees,
    {
        self.fee_vault
    }

    /// The tracked fee counter.
    pub fn fee_amount(&self) -> (r: Amount)
        ensures
            r@ == self@.fee_amount,
    {
        self.fee_amount
    }

    /// The fraction of each sale kept as fee.
    pub fn fee_rate(&self) -> (r: Amount)
        ensures
            r@ == self@.fee_rate,
    {
        self.fee_rate
    }

    /// How many badges have been minted so far.
    pub fn badges_issued(&self) -> (r: u64)
        ensures
            r == self@.badges_issued,
    {
        self.badges_minted
    }

    /// The type of asset that may be listed.
    pub fn nft_address(&self) -> (r: ResourceAddress)
        ensures
            r == self@.listable,
    {
        self.nft_address
    }

    /// The currency all prices and payments are in.
    pub fn ccy_address(&self) -> (r: ResourceAddress)
        ensures
            r == self@.currency,
    {
        self.ccy_address
    }

    /// The resource the market's badges belong to.
    pub fn badge_address(&self) -> (r: ResourceAddress)
        ensures
            r == self@.badge_resource,
    {
        self.badge_address
    }

    /// The capability that may sweep the fee treasury.
    pub fn fee_badge(&self) -> (r: ResourceAddress)
        ensures
            r == self@.fee_authority,
    {
        self.fee_badge
    }

    /// The market's own address.
    pub fn component_address(&self) -> (r: ComponentAddress)
        ensures
            r == self@.component,
    {
        self.component_address
    }

    /// The asset whose active offer `badge` controls, or why it controls
    /// none.
    fn listed_asset(&self, badge: &NonFungible) -> (result: Result<u64, MarketError>)
        requires
            self.wf(),
        ensures
            match result {
                Ok(nft_id) => self@.listing_error(*badge) is None && nft_id == self@.badges[badge.id],
                Err(e) => self@.listing_error(*badge) == Some(e),
            },
    {
        if !(badge.resource == self.badge_address) {
            return Err(MarketError::WrongAssetType);
        }
        let nft_id = match self.badges.get(&badge.id) {
            Some(nft_id) => *nft_id,
            None => {
                return Err(MarketError::UnknownBadge);
            },
        };
        match self.offers.get(&nft_id) {
            Some(offer) => {
                if offer.0 == badge.id {
                    Ok(nft_id)
                } else {
                    Err(MarketError::NoActiveOffer)
                }
            },
            None => Err(MarketError::NoActiveOffer),
        }
    }
}

/// The badge issuer: mints the next badge of the market at
/// `component_address` for the asset `nft_id` of type `nft_address`, and
/// counts it in `minted`.
fn mint_badge(
    minted: &mut u64,
    badge_address: ResourceAddress,
    nft_address: ResourceAddress,
    nft_id: u64,
    component_address: ComponentAddress,
) -> (badge: (NonFungible, Badge))
    requires
        *old(minted) < u64::MAX,
    ensures
        *final(minted) == *old(minted) + 1,
        badge.0 == (NonFungible { resource: badge_address, id: *old(minted) }),
        badge.1.name@ == seller_badge_name(),
        badge.1.description@ == seller_badge_description(),
        badge.1.nft_address == nft_address,
        badge.1.nft_id == nft_id,
        badge.1.component_address == component_address,
{
    let id = *minted;
    *minted = id + 1;
    (
        NonFungible { resource: badge_address, id },
        Badge {
            name: "impahla seller badge".to_owned(),
            description: "this badge allow you to interact with your offer in the secondary market".to_owned(),
            nft_address,
            nft_id,
            component_address,
        },
    )
}

} // verus!
