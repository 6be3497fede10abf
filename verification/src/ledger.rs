//! The market's books as mathematics: the three registries, the custody of
//! assets and currency, and the rules every operation follows.
//!
//! Amounts are whole numbers of attos. Each operation is given by two spec
//! functions: the reason it is refused, if any, and the books after it has
//! gone through.

use crate::amount::{attos_per_unit, max_attos, scaled_product};
use crate::assets::{
    seller_badge_description, seller_badge_name, Badge, ComponentAddress, NonFungible,
    ResourceAddress,
};
use vstd::prelude::*;

verus! {

/// Why the market refused an operation. A refused operation changes nothing.
#[derive(Clone, Copy, Debug, PartialEq, Eq, Structural)]
pub enum MarketError {
    /// A negative price was given.
    InvalidPrice,
    /// An asset, a badge or a payment is not of the type the market expects.
    WrongAssetType,
    /// The badge was never issued by this market, or has been burned.
    UnknownBadge,
    /// The asset or badge has no current offer: it was sold or cancelled.
    NoActiveOffer,
    /// The badge has no proceeds waiting for it.
    AlreadyCollected,
    /// The payment is smaller than the price.
    InsufficientPayment,
    /// The fee authority's capability was not presented.
    Unauthorized,
}

/// The sum of all amounts in an owed-funds registry.
pub open spec fn total_owed(owed: Map<u64, int>) -> int
    decreases owed.dom().len(),
    when owed.dom().finite()
{
    if owed.dom().len() == 0 {
        0
    } else {
        let badge = owed.dom().choose();
        owed[badge] + total_owed(owed.remove(badge))
    }
}

/// The sum of a registry is the entry of any one badge plus the sum of the
/// registry without that badge.
pub proof fn lemma_total_owed_remove(owed: Map<u64, int>, badge: u64)
    requires
        owed.dom().finite(),
        owed.contains_key(badge),
    ensures
        total_owed(owed) == owed[badge] + total_owed(owed.remove(badge)),
    decreases owed.dom().len(),
{
    let chosen = owed.dom().choose();
    if chosen != badge {
        lemma_total_owed_remove(owed.remove(chosen), badge);
        lemma_total_owed_remove(owed.remove(badge), chosen);
        assert(owed.remove(chosen).remove(badge) =~= owed.remove(badge).remove(chosen));
    }
}

/// Recording an amount for a badge that had none adds that amount to the sum.
pub proof fn lemma_total_owed_insert(owed: Map<u64, int>, badge: u64, amount: int)
    requires
        owed.dom().finite(),
        !owed.contains_key(badge),
    ensures
        total_owed(owed.insert(badge, amount)) == total_owed(owed) + amount,
{
    lemma_total_owed_remove(owed.insert(badge, amount), badge);
    assert(owed.insert(badge, amount).remove(badge) =~= owed);
}

/// A registry without negative entries has a sum that is not negative.
pub proof fn lemma_total_owed_nonnegative(owed: Map<u64, int>)
    requires
        owed.dom().finite(),
        forall|badge: u64| owed.contains_key(badge) ==> owed[badge] >= 0,
    ensures
        total_owed(owed) >= 0,
    decreases owed.dom().len(),
{
    if owed.dom().len() != 0 {
        lemma_total_owed_nonnegative(owed.remove(owed.dom().choose()));
    }
}

/// The fee taken out of a sale: the fixed-point product of price and fee
/// rate, rounded toward zero at the eighteenth decimal place.
pub open spec fn fee_share(price: int, fee_rate: int) -> int {
    scaled_product(price, fee_rate)
}

/// With a rate between nothing and the whole, the fee of a price that is not
/// negative lies between nothing and the price.
pub proof fn lemma_fee_share_bounds(price: int, fee_rate: int)
    requires
        0 <= price,
        0 <= fee_rate <= attos_per_unit(),
    ensures
        0 <= fee_share(price, fee_rate) <= price,
{
    let product = price * fee_rate;
    assert(0 <= product <= price * 1_000_000_000_000_000_000) by (nonlinear_arith)
        requires
            product == price * fee_rate,
            0 <= price,
            0 <= fee_rate <= 1_000_000_000_000_000_000,
    ;
}

/// Whether two books belong to markets set up alike: for the same type of
/// asset, in the same currency, with the same badge resource, fee authority,
/// address and fee rate.
pub open spec fn same_setup(a: MarketState, b: MarketState) -> bool {
    &&& a.listable == b.listable
    &&& a.currency == b.currency
    &&& a.badge_resource == b.badge_resource
    &&& a.fee_authority == b.fee_authority
    &&& a.component == b.component
    &&& a.fee_rate == b.fee_rate
}

/// An active offer: the badge that controls it and the asking price in attos.
pub struct Listing {
    pub badge: u64,
    pub price: int,
}

/// Everything the market keeps: its fixed configuration, the three
/// registries, the contents of its vaults and the tracked fee counter.
pub struct MarketState {
    /// The type of asset that may be listed.
    pub listable: ResourceAddress,
    /// The currency all prices and payments are in.
    pub currency: ResourceAddress,
    /// The resource the market's badges belong to.
    pub badge_resource: ResourceAddress,
    /// The capability that may sweep the fee treasury.
    pub fee_authority: ResourceAddress,
    /// The market's own address, embedded in every badge.
    pub component: ComponentAddress,
    /// The fraction of each sale kept as fee, in attos of one.
    pub fee_rate: int,
    /// Badge to the asset it was issued for, from mint until burn.
    pub badges: Map<u64, u64>,
    /// Asset to its active offer.
    pub offers: Map<u64, Listing>,
    /// Badge to the proceeds waiting for it.
    pub to_collect: Map<u64, int>,
    /// The assets in custody.
    pub asset_vault: Set<u64>,
    /// The balance of the proceeds vault.
    pub proceeds: int,
    /// The balance of the fee treasury.
    pub fees: int,
    /// The tracked fee counter.
    pub fee_amount: int,
    /// How many badges have been minted so far.
    pub badges_issued: nat,
}

impl MarketState {
    /// The books of a market that has just been set up.
    pub open spec fn initial(
        listable: ResourceAddress,
        currency: ResourceAddress,
        fee_authority: ResourceAddress,
        fee_rate: int,
        component: ComponentAddress,
        badge_resource: ResourceAddress,
    ) -> MarketState {
        MarketState {
            listable,
            currency,
            badge_resource,
            fee_authority,
            component,
            fee_rate,
            badges: Map::empty(),
            offers: Map::empty(),
            to_collect: Map::empty(),
            asset_vault: Set::empty(),
            proceeds: 0,
            fees: 0,
            fee_amount: 0,
            badges_issued: 0,
        }
    }

    /// Whether the badge is live and the active offer for its asset is its own.
    pub open spec fn lists(self, badge: u64) -> bool {
        &&& self.badges.contains_key(badge)
        &&& self.offers.contains_key(self.badges[badge])
        &&& self.offers[self.badges[badge]].badge == badge
    }

    /// The registries, the custody of assets and the balances agree with one
    /// another.
    pub open spec fn consistent(self) -> bool {
        &&& 0 <= self.fee_rate <= attos_per_unit()
        &&& self.badges.dom().finite()
        &&& self.offers.dom().finite()
        &&& self.to_collect.dom().finite()
        // every offer is controlled by a live badge issued for that asset
        &&& forall|asset: u64| #[trigger]
            self.offers.contains_key(asset) ==> self.badges.contains_key(self.offers[asset].badge)
                && self.badges[self.offers[asset].badge] == asset
        // a live badge either controls an offer or has proceeds waiting, never both
        &&& forall|badge: u64| #[trigger]
            self.badges.contains_key(badge) ==> (self.lists(badge) <==> !self.to_collect.contains_key(
                badge,
            ))
        &&& forall|badge: u64| #[trigger]
            self.to_collect.contains_key(badge) ==> self.badges.contains_key(badge)
                && self.to_collect[badge] >= 0
        // the assets in custody are exactly the listed ones
        &&& self.asset_vault == self.offers.dom()
        &&& forall|asset: u64| #[trigger]
            self.offers.contains_key(asset) ==> self.offers[asset].price >= 0
        // the proceeds vault holds exactly what is owed
        &&& self.proceeds == total_owed(self.to_collect)
        // the treasury holds exactly what the fee counter has tracked
        &&& self.fee_amount == self.fees
        &&& 0 <= self.fees
        // badge identifiers are handed out in order and never reused
        &&& forall|badge: u64| #[trigger]
            self.badges.contains_key(badge) ==> badge < self.badges_issued
        &&& self.badges_issued <= u64::MAX
    }

    /// What holds of the books after every operation: they are consistent,
    /// and all the currency in the market's hands is a representable amount.
    pub open spec fn inv(self) -> bool {
        &&& self.consistent()
        &&& self.proceeds + self.fees <= max_attos()
    }

    /// Why a presented badge does not control an active offer, if it does not.
    pub open spec fn listing_error(self, badge: NonFungible) -> Option<MarketError> {
        if badge.resource != self.badge_resource {
            Some(MarketError::WrongAssetType)
        } else if !self.badges.contains_key(badge.id) {
            Some(MarketError::UnknownBadge)
        } else if !self.lists(badge.id) {
            Some(MarketError::NoActiveOffer)
        } else {
            None
        }
    }

    /// Why listing `asset` at `price` is refused, if it is.
    pub open spec fn sell_error(self, asset: NonFungible, price: int) -> Option<MarketError> {
        if price < 0 {
            Some(MarketError::InvalidPrice)
        } else if asset.resource != self.listable {
            Some(MarketError::WrongAssetType)
        } else {
            None
        }
    }

    /// Whether `asset` can be taken into custody: it is not there already,
    /// and a badge identifier is left to hand out.
    pub open spec fn can_list(self, asset: NonFungible) -> bool {
        &&& !self.asset_vault.contains(asset.id)
        &&& self.badges_issued < u64::MAX
    }

    /// The badge token minted at the next listing.
    pub open spec fn minted(self) -> NonFungible {
        NonFungible { resource: self.badge_resource, id: self.badges_issued as u64 }
    }

    /// Whether `data` is what the badge minted for the listing of `asset`
    /// says of itself.
    pub open spec fn describes(self, data: Badge, asset: NonFungible) -> bool {
        &&& data.name@ == seller_badge_name()
        &&& data.description@ == seller_badge_description()
        &&& data.nft_address == self.listable
        &&& data.nft_id == asset.id
        &&& data.component_address == self.component
    }

    /// The books after `asset` has been listed at `price`.
    pub open spec fn after_sell(self, asset: NonFungible, price: int) -> MarketState {
        let badge = self.minted().id;
        MarketState {
            badges: self.badges.insert(badge, asset.id),
            offers: self.offers.insert(asset.id, Listing { badge, price }),
            asset_vault: self.asset_vault.insert(asset.id),
            badges_issued: self.badges_issued + 1,
            ..self
        }
    }

    /// Why re-pricing the offer of `badge` to `price` is refused, if it is.
    pub open spec fn update_error(self, badge: NonFungible, price: int) -> Option<MarketError> {
        if price < 0 {
            Some(MarketError::InvalidPrice)
        } else {
            self.listing_error(badge)
        }
    }

    /// The books after the offer of `badge` has been re-priced to `price`.
    pub open spec fn after_update(self, badge: u64, price: int) -> MarketState {
        MarketState {
            offers: self.offers.insert(self.badges[badge], Listing { badge, price }),
            ..self
        }
    }

    /// Why withdrawing the offer of `badge` is refused, if it is.
    pub open spec fn cancel_error(self, badge: NonFungible) -> Option<MarketError> {
        self.listing_error(badge)
    }

    /// The asset that `badge` was issued for, as it leaves custody.
    pub open spec fn asset_of(self, badge: u64) -> NonFungible {
        NonFungible { resource: self.listable, id: self.badges[badge] }
    }

    /// The books after the offer of `badge` has been withdrawn.
    pub open spec fn after_cancel(self, badge: u64) -> MarketState {
        let asset = self.badges[badge];
        MarketState {
            badges: self.badges.remove(badge),
            offers: self.offers.remove(asset),
            asset_vault: self.asset_vault.remove(asset),
            ..self
        }
    }

    /// Why collecting the proceeds of `badge` is refused, if it is.
    pub open spec fn collect_error(self, badge: NonFungible) -> Option<MarketError> {
        if badge.resource != self.badge_resource {
            Some(MarketError::WrongAssetType)
        } else if !self.badges.contains_key(badge.id) {
            Some(MarketError::UnknownBadge)
        } else if !self.to_collect.contains_key(badge.id) {
            Some(MarketError::AlreadyCollected)
        } else {
            None
        }
    }

    /// The books after the proceeds of `badge` have been collected.
    pub open spec fn after_collect(self, badge: u64) -> MarketState {
        MarketState {
            badges: self.badges.remove(badge),
            to_collect: self.to_collect.remove(badge),
            proceeds: self.proceeds - self.to_collect[badge],
            ..self
        }
    }

    /// Why buying `asset` with `paid` attos of `payment_resource` is refused,
    /// if it is.
    pub open spec fn buy_error(
        self,
        asset: u64,
        payment_resource: ResourceAddress,
        paid: int,
    ) -> Option<MarketError> {
        if !self.offers.contains_key(asset) {
            Some(MarketError::NoActiveOffer)
        } else if paid < self.offers[asset].price {
            Some(MarketError::InsufficientPayment)
        } else if payment_resource != self.currency {
            Some(MarketError::WrongAssetType)
        } else {
            None
        }
    }

    /// Whether the vaults can take in `price` attos more: all the currency
    /// then in the market's hands is still a representable amount.
    pub open spec fn can_settle(self, price: int) -> bool {
        self.proceeds + self.fees + price <= max_attos()
    }

    /// What is left of a payment of `paid` attos once the price of `asset`
    /// has been taken out of it.
    pub open spec fn change_of(self, asset: u64, paid: int) -> int {
        paid - self.offers[asset].price
    }

    /// The fee taken when `asset` sells at its asking price.
    pub open spec fn fee_of(self, asset: u64) -> int {
        fee_share(self.offers[asset].price, self.fee_rate)
    }

    /// What the seller is owed when `asset` sells: the price less the fee.
    pub open spec fn net_of(self, asset: u64) -> int {
        self.offers[asset].price - self.fee_of(asset)
    }

    /// The books after `asset` has sold at its asking price.
    pub open spec fn after_buy(self, asset: u64) -> MarketState {
        MarketState {
            offers: self.offers.remove(asset),
            asset_vault: self.asset_vault.remove(asset),
            to_collect: self.to_collect.insert(self.offers[asset].badge, self.net_of(asset)),
            proceeds: self.proceeds + self.net_of(asset),
            fees: self.fees + self.fee_of(asset),
            fee_amount: self.fees + self.fee_of(asset),
            ..self
        }
    }

    /// Why sweeping the treasury is refused when the caller has proved
    /// possession of `authority`, if it is.
    pub open spec fn collect_fees_error(self, authority: ResourceAddress) -> Option<MarketError> {
        if authority != self.fee_authority {
            Some(MarketError::Unauthorized)
        } else {
            None
        }
    }

    /// The books after the treasury has been swept.
    pub open spec fn after_collect_fees(self) -> MarketState {
        MarketState { fees: 0, fee_amount: 0, ..self }
    }

    /// Whether an offer for `asset` at `price` under `badge` can be entered
    /// into the books as they stand: the price is not negative, the badge
    /// has been minted and is not live, and the asset has no offer yet.
    pub open spec fn admits_listing(self, asset: u64, badge: u64, price: int) -> bool {
        &&& price >= 0
        &&& badge < self.badges_issued
        &&& !self.badges.contains_key(badge)
        &&& !self.offers.contains_key(asset)
    }

    /// The books with an offer for `asset` at `price` under `badge` entered.
    pub open spec fn with_listing(self, asset: u64, badge: u64, price: int) -> MarketState {
        MarketState {
            badges: self.badges.insert(badge, asset),
            offers: self.offers.insert(asset, Listing { badge, price }),
            asset_vault: self.asset_vault.insert(asset),
            ..self
        }
    }

    /// Whether proceeds of `owed` for `badge` can be entered into the books
    /// as they stand: the amount is not negative, and the badge has been
    /// minted and is not live.
    pub open spec fn admits_claim(self, badge: u64, owed: int) -> bool {
        &&& owed >= 0
        &&& badge < self.badges_issued
        &&& !self.badges.contains_key(badge)
    }

    /// The books with proceeds of `owed` entered for `badge`, which was
    /// issued for `asset`.
    pub open spec fn with_claim(self, badge: u64, asset: u64, owed: int) -> MarketState {
        MarketState {
            badges: self.badges.insert(badge, asset),
            to_collect: self.to_collect.insert(badge, owed),
            proceeds: self.proceeds + owed,
            ..self
        }
    }

    /// Entering an admitted offer keeps the books consistent.
    pub proof fn lemma_with_listing_consistent(self, asset: u64, badge: u64, price: int)
        requires
            self.consistent(),
            self.admits_listing(asset, badge, price),
        ensures
            self.with_listing(asset, badge, price).consistent(),
    {
    }

    /// Entering admitted proceeds keeps the books consistent.
    pub proof fn lemma_with_claim_consistent(self, badge: u64, asset: u64, owed: int)
        requires
            self.consistent(),
            self.admits_claim(badge, owed),
        ensures
            self.with_claim(badge, asset, owed).consistent(),
    {
        lemma_total_owed_insert(self.to_collect, badge, owed);
    }

    /// A market that has just been set up keeps its books in order.
    pub proof fn lemma_initial_inv(
        listable: ResourceAddress,
        currency: ResourceAddress,
        fee_authority: ResourceAddress,
        fee_rate: int,
        component: ComponentAddress,
        badge_resource: ResourceAddress,
    )
        requires
            0 <= fee_rate <= attos_per_unit(),
        ensures
            MarketState::initial(
                listable,
                currency,
                fee_authority,
                fee_rate,
                component,
                badge_resource,
            ).inv(),
    {
    }

    /// Listing keeps the books in order.
    pub proof fn lemma_sell_inv(self, asset: NonFungible, price: int)
        requires
            self.inv(),
            self.sell_error(asset, price) is None,
            self.can_list(asset),
        ensures
            self.after_sell(asset, price).inv(),
    {
    }

    /// Re-pricing keeps the books in order.
    pub proof fn lemma_update_inv(self, badge: NonFungible, price: int)
        requires
            self.inv(),
            self.update_error(badge, price) is None,
        ensures
            self.after_update(badge.id, price).inv(),
    {
        assert(self.after_update(badge.id, price).offers.dom() =~= self.offers.dom());
    }

    /// Withdrawing keeps the books in order.
    pub proof fn lemma_cancel_inv(self, badge: NonFungible)
        requires
            self.inv(),
            self.cancel_error(badge) is None,
        ensures
            self.after_cancel(badge.id).inv(),
    {
    }

    /// Collecting keeps the books in order.
    pub proof fn lemma_collect_inv(self, badge: NonFungible)
        requires
            self.inv(),
            self.collect_error(badge) is None,
        ensures
            self.after_collect(badge.id).inv(),
            0 <= self.to_collect[badge.id] <= self.proceeds,
    {
        lemma_total_owed_remove(self.to_collect, badge.id);
        lemma_total_owed_nonnegative(self.to_collect.remove(badge.id));
    }

    /// A sale keeps the books in order.
    pub proof fn lemma_buy_inv(self, asset: u64, payment_resource: ResourceAddress, paid: int)
        requires
            self.inv(),
            self.buy_error(asset, payment_resource, paid) is None,
            self.can_settle(self.offers[asset].price),
        ensures
            self.after_buy(asset).inv(),
            0 <= self.fee_of(asset) <= self.offers[asset].price,
    {
        lemma_fee_share_bounds(self.offers[asset].price, self.fee_rate);
        lemma_total_owed_insert(self.to_collect, self.offers[asset].badge, self.net_of(asset));
    }

    /// Consistent books owe nothing negative in all.
    pub proof fn lemma_proceeds_nonnegative(self)
        requires
            self.consistent(),
        ensures
            0 <= self.proceeds,
    {
        lemma_total_owed_nonnegative(self.to_collect);
    }

    /// Sweeping the treasury keeps the books in order.
    pub proof fn lemma_collect_fees_inv(self)
        requires
            self.inv(),
        ensures
            self.after_collect_fees().inv(),
    {
    }
}

} // verus!
