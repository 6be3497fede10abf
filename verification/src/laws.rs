//! What follows from the market's rules, whatever the books hold: each law
//! is stated over [`MarketState`] and proved from the definitions of the
//! operations.

use crate::amount::attos_per_unit;
use crate::assets::{NonFungible, ResourceAddress};
use crate::ledger::{fee_share, lemma_fee_share_bounds, same_setup, MarketError, MarketState};
use vstd::prelude::*;

verus! {

/// Listing an asset and withdrawing the listing straight away gives the same
/// asset back and leaves every registry and every vault as it was before the
/// listing. Only the count of badges minted has moved on, so that the burned
/// badge's identifier is never handed out again.
pub proof fn lemma_sell_then_cancel_restores(before: MarketState, asset: NonFungible, price: int)
    requires
        before.inv(),
        before.sell_error(asset, price) is None,
        before.can_list(asset),
    ensures
        before.after_sell(asset, price).cancel_error(before.minted()) is None,
        before.after_sell(asset, price).asset_of(before.minted().id) == asset,
        before.after_sell(asset, price).after_cancel(before.minted().id) == (MarketState {
            badges_issued: before.badges_issued + 1,
            ..before
        }),
{
    let after = before.after_sell(asset, price).after_cancel(before.minted().id);
    assert(after.badges =~= before.badges);
    assert(after.offers =~= before.offers);
}

/// Re-pricing changes the price stored for the badge's asset and nothing
/// else: the offer stays under the same badge, every other offer, both other
/// registries, the custody of assets and all balances are as before.
pub proof fn lemma_update_changes_only_the_price(before: MarketState, badge: NonFungible, price: int)
    requires
        before.inv(),
        before.update_error(badge, price) is None,
    ensures
        before.after_update(badge.id, price) == (MarketState {
            offers: before.after_update(badge.id, price).offers,
            ..before
        }),
        before.after_update(badge.id, price).offers.dom() == before.offers.dom(),
        before.after_update(badge.id, price).offers[before.badges[badge.id]].price == price,
        before.after_update(badge.id, price).offers[before.badges[badge.id]].badge
            == before.offers[before.badges[badge.id]].badge,
        forall|other: u64|
            other != before.badges[badge.id] && #[trigger] before.offers.contains_key(other)
                ==> before.after_update(badge.id, price).offers[other] == before.offers[other],
{
}

/// A badge that is live but controls no active offer cannot re-price
/// anything: the attempt is refused for want of an active offer.
pub proof fn lemma_update_without_offer_is_refused(before: MarketState, badge: NonFungible, price: int)
    requires
        before.inv(),
        price >= 0,
        badge.resource == before.badge_resource,
        before.badges.contains_key(badge.id),
        !before.lists(badge.id),
    ensures
        before.update_error(badge, price) == Some(MarketError::NoActiveOffer),
{
}

/// Once its asset has sold, a badge is good for collecting the proceeds and
/// for nothing else: it can neither re-price nor withdraw an offer, not even
/// after the same asset has been listed again by its new owner.
pub proof fn lemma_sold_badge_only_collects(before: MarketState, badge: NonFungible, price: int)
    requires
        before.inv(),
        price >= 0,
        badge.resource == before.badge_resource,
        before.to_collect.contains_key(badge.id),
    ensures
        before.update_error(badge, price) == Some(MarketError::NoActiveOffer),
        before.cancel_error(badge) == Some(MarketError::NoActiveOffer),
        before.collect_error(badge) is None,
{
}

/// With a fee rate of nothing and a payment of exactly the price, the whole
/// price waits for the seller's badge, the fee treasury stays as it was, and
/// no change is handed back.
pub proof fn lemma_buy_without_fee(
    before: MarketState,
    asset: u64,
    payment_resource: ResourceAddress,
)
    requires
        before.inv(),
        before.fee_rate == 0,
        before.buy_error(asset, payment_resource, before.offers[asset].price) is None,
    ensures
        before.after_buy(asset).to_collect[before.offers[asset].badge]
            == before.offers[asset].price,
        before.after_buy(asset).fees == before.fees,
        before.change_of(asset, before.offers[asset].price) == 0,
{
}

/// A sale splits the price in two: the fee, which is the price times the
/// fee rate rounded toward zero, is added to the treasury, and the rest of
/// the price waits for the seller's badge. Nothing of the price is lost.
pub proof fn lemma_buy_splits_the_price(
    before: MarketState,
    asset: u64,
    payment_resource: ResourceAddress,
    paid: int,
)
    requires
        before.inv(),
        before.buy_error(asset, payment_resource, paid) is None,
    ensures
        before.fee_of(asset) == fee_share(before.offers[asset].price, before.fee_rate),
        0 <= before.fee_of(asset) <= before.offers[asset].price,
        before.after_buy(asset).fees == before.fees + before.fee_of(asset),
        before.after_buy(asset).to_collect[before.offers[asset].badge]
            == before.offers[asset].price - before.fee_of(asset),
        before.after_buy(asset).proceeds + before.after_buy(asset).fees == before.proceeds
            + before.fees + before.offers[asset].price,
{
    lemma_fee_share_bounds(before.offers[asset].price, before.fee_rate);
}

/// Where the price times the fee rate needs no rounding, the treasury grows
/// by exactly that product and the seller is owed exactly the price times
/// the rest of the rate. Both sides are scaled by the attos in one unit.
pub proof fn lemma_buy_splits_exactly(
    before: MarketState,
    asset: u64,
    payment_resource: ResourceAddress,
    paid: int,
)
    requires
        before.inv(),
        before.buy_error(asset, payment_resource, paid) is None,
        (before.offers[asset].price * before.fee_rate) % attos_per_unit() == 0,
    ensures
        (before.after_buy(asset).fees - before.fees) * attos_per_unit()
            == before.offers[asset].price * before.fee_rate,
        before.after_buy(asset).to_collect[before.offers[asset].badge] * attos_per_unit()
            == before.offers[asset].price * (attos_per_unit() - before.fee_rate),
{
    let price = before.offers[asset].price;
    let rate = before.fee_rate;
    let fee = before.fee_of(asset);
    assert((price - fee) * 1_000_000_000_000_000_000 == price * (1_000_000_000_000_000_000
        - rate)) by (nonlinear_arith)
        requires
            fee * 1_000_000_000_000_000_000 == price * rate,
    ;
}

/// Collecting pays out exactly what was waiting for the badge and burns it:
/// the badge is gone from both registries, and presenting it again is
/// refused as an unknown badge.
pub proof fn lemma_collect_burns_the_badge(before: MarketState, badge: NonFungible)
    requires
        before.inv(),
        before.collect_error(badge) is None,
    ensures
        before.after_collect(badge.id).proceeds == before.proceeds - before.to_collect[badge.id],
        !before.after_collect(badge.id).badges.contains_key(badge.id),
        !before.after_collect(badge.id).to_collect.contains_key(badge.id),
        before.after_collect(badge.id).collect_error(badge) == Some(MarketError::UnknownBadge),
{
}

/// After a sale the seller's badge collects the price less the fee.
pub proof fn lemma_collect_after_buy(
    before: MarketState,
    asset: u64,
    payment_resource: ResourceAddress,
    paid: int,
    badge: NonFungible,
)
    requires
        before.inv(),
        before.buy_error(asset, payment_resource, paid) is None,
        badge.resource == before.badge_resource,
        badge.id == before.offers[asset].badge,
    ensures
        before.after_buy(asset).collect_error(badge) is None,
        before.after_buy(asset).to_collect[badge.id] == before.net_of(asset),
{
}

/// An asset without an active offer cannot be bought, whatever is paid.
pub proof fn lemma_buy_without_offer_is_refused(
    before: MarketState,
    asset: u64,
    payment_resource: ResourceAddress,
    paid: int,
)
    requires
        !before.offers.contains_key(asset),
    ensures
        before.buy_error(asset, payment_resource, paid) == Some(MarketError::NoActiveOffer),
{
}

/// An asset that has just been sold has no active offer any more.
pub proof fn lemma_sold_asset_is_not_for_sale(
    before: MarketState,
    asset: u64,
    payment_resource: ResourceAddress,
    paid: int,
)
    requires
        before.inv(),
        before.buy_error(asset, payment_resource, paid) is None,
    ensures
        forall|resource: ResourceAddress, again: int|
            #[trigger] before.after_buy(asset).buy_error(asset, resource, again) == Some(
                MarketError::NoActiveOffer,
            ),
{
}

/// An asset whose listing has just been withdrawn has no active offer any
/// more.
pub proof fn lemma_cancelled_asset_is_not_for_sale(before: MarketState, badge: NonFungible)
    requires
        before.inv(),
        before.cancel_error(badge) is None,
    ensures
        forall|resource: ResourceAddress, paid: int|
            #[trigger] before.after_cancel(badge.id).buy_error(
                before.badges[badge.id],
                resource,
                paid,
            ) == Some(MarketError::NoActiveOffer),
{
}

/// The fee authority is never refused, and a treasury that has just been
/// swept is empty: sweeping it again yields nothing.
pub proof fn lemma_second_sweep_is_empty(before: MarketState, authority: ResourceAddress)
    requires
        before.inv(),
        authority == before.fee_authority,
    ensures
        before.collect_fees_error(authority) is None,
        before.after_collect_fees().collect_fees_error(authority) is None,
        before.after_collect_fees().fees == 0,
        before.after_collect_fees().after_collect_fees().fees == 0,
{
}

/// What a market is set up with stays with it for good: no operation
/// changes the type of asset it lists, its currency, its badge resource, its
/// own address, its fee rate or the capability that may sweep its treasury.
pub proof fn lemma_setup_never_changes(
    before: MarketState,
    asset: NonFungible,
    price: int,
    badge: NonFungible,
    sold: u64,
)
    ensures
        same_setup(before.after_sell(asset, price), before),
        same_setup(before.after_update(badge.id, price), before),
        same_setup(before.after_cancel(badge.id), before),
        same_setup(before.after_collect(badge.id), before),
        same_setup(before.after_buy(sold), before),
        same_setup(before.after_collect_fees(), before),
{
}

/// The treasury moves only when an asset sells and when it is swept:
/// listing, re-pricing, withdrawing and collecting leave its balance and the
/// fee counter as they were.
pub proof fn lemma_only_sales_and_sweeps_move_the_treasury(
    before: MarketState,
    asset: NonFungible,
    price: int,
    badge: NonFungible,
)
    ensures
        before.after_sell(asset, price).fees == before.fees,
        before.after_sell(asset, price).fee_amount == before.fee_amount,
        before.after_update(badge.id, price).fees == before.fees,
        before.after_update(badge.id, price).fee_amount == before.fee_amount,
        before.after_cancel(badge.id).fees == before.fees,
        before.after_cancel(badge.id).fee_amount == before.fee_amount,
        before.after_collect(badge.id).fees == before.fees,
        before.after_collect(badge.id).fee_amount == before.fee_amount,
{
}

/// A badge that has been burned stays burned: whatever happens next, its
/// identifier is not live again, for new badges take identifiers that have
/// never been handed out.
pub proof fn lemma_burned_badges_stay_burned(
    before: MarketState,
    burned: u64,
    asset: NonFungible,
    price: int,
    badge: NonFungible,
    sold: u64,
)
    requires
        before.inv(),
        burned < before.badges_issued,
        !before.badges.contains_key(burned),
    ensures
        !before.after_sell(asset, price).badges.contains_key(burned),
        !before.after_update(badge.id, price).badges.contains_key(burned),
        !before.after_cancel(badge.id).badges.contains_key(burned),
        !before.after_collect(badge.id).badges.contains_key(burned),
        !before.after_buy(sold).badges.contains_key(burned),
        !before.after_collect_fees().badges.contains_key(burned),
        burned < before.after_sell(asset, price).badges_issued,
{
}

/// The life of a badge: minted at a listing, it controls the offer; it
/// still does after a re-pricing; once the asset sells it has proceeds
/// waiting instead; and withdrawing or collecting burns it.
pub proof fn lemma_badge_life_cycle(
    before: MarketState,
    asset: NonFungible,
    price: int,
    badge: NonFungible,
    sold: u64,
    payment_resource: ResourceAddress,
    paid: int,
)
    requires
        before.inv(),
    ensures
        before.sell_error(asset, price) is None && before.can_list(asset) ==> before.after_sell(
            asset,
            price,
        ).lists(before.minted().id),
        before.update_error(badge, price) is None ==> before.after_update(badge.id, price).lists(
            badge.id,
        ),
        before.buy_error(sold, payment_resource, paid) is None ==> {
            &&& before.lists(before.offers[sold].badge)
            &&& !before.after_buy(sold).lists(before.offers[sold].badge)
            &&& before.after_buy(sold).to_collect.contains_key(before.offers[sold].badge)
            &&& before.after_buy(sold).badges.contains_key(before.offers[sold].badge)
        },
        before.cancel_error(badge) is None ==> !before.after_cancel(badge.id).badges.contains_key(
            badge.id,
        ),
        before.collect_error(badge) is None ==> !before.after_collect(badge.id).badges.contains_key(
            badge.id,
        ),
{
}

/// Currency comes into the vaults only as the price of a sale and leaves
/// them only as a payout: a sale adds the price, collecting takes out what
/// was owed, a sweep takes out the treasury, and nothing else moves a
/// balance.
pub proof fn lemma_currency_is_accounted_for(
    before: MarketState,
    asset: NonFungible,
    price: int,
    badge: NonFungible,
    sold: u64,
)
    ensures
        before.after_sell(asset, price).proceeds + before.after_sell(asset, price).fees
            == before.proceeds + before.fees,
        before.after_update(badge.id, price).proceeds + before.after_update(badge.id, price).fees
            == before.proceeds + before.fees,
        before.after_cancel(badge.id).proceeds + before.after_cancel(badge.id).fees
            == before.proceeds + before.fees,
        before.after_buy(sold).proceeds + before.after_buy(sold).fees == before.proceeds
            + before.fees + before.offers[sold].price,
        before.after_collect(badge.id).proceeds + before.after_collect(badge.id).fees
            == before.proceeds + before.fees - before.to_collect[badge.id],
        before.after_collect_fees().proceeds + before.after_collect_fees().fees == before.proceeds,
{
}

} // verus!
