use nft_secondary_market::amount::Amount;
use nft_secondary_market::assets::{Badge, ComponentAddress, Funds, NonFungible, ResourceAddress};
use nft_secondary_market::ledger::MarketError;
use nft_secondary_market::market::NftSecondaryMarket;

const ONE: i128 = 1_000_000_000_000_000_000;

fn nft_addr() -> ResourceAddress {
    ResourceAddress { node_id: [0x9a; 30] }
}

fn xrd() -> ResourceAddress {
    ResourceAddress { node_id: [0x5d; 30] }
}

fn other_currency() -> ResourceAddress {
    ResourceAddress { node_id: [0x5e; 30] }
}

fn fee_badge() -> ResourceAddress {
    ResourceAddress { node_id: [0xfe; 30] }
}

fn badge_addr() -> ResourceAddress {
    ResourceAddress { node_id: [0xba; 30] }
}

fn instance() -> ComponentAddress {
    ComponentAddress { node_id: [0xc0; 30] }
}

fn new_market(fee_rate: Amount) -> NftSecondaryMarket {
    NftSecondaryMarket::instantiate_component(
        nft_addr(),
        xrd(),
        fee_badge(),
        fee_rate,
        instance(),
        badge_addr(),
    )
}

fn nft(id: u64) -> NonFungible {
    NonFungible { resource: nft_addr(), id }
}

fn units(n: u64) -> Amount {
    Amount::from_units(n)
}

fn attos(n: i128) -> Amount {
    Amount::from_attos(n)
}

fn pay(n: u64) -> Funds {
    Funds { resource: xrd(), amount: units(n) }
}

fn quarter() -> Amount {
    attos(ONE / 4)
}

#[test]
fn sell_hands_out_a_badge_bound_to_the_asset() {
    let mut market = new_market(units(0));
    let (badge, data) = market.sell(nft(7), units(5)).unwrap();
    assert_eq!(badge, NonFungible { resource: badge_addr(), id: 0 });
    assert_eq!(
        data,
        Badge {
            name: String::from("impahla seller badge"),
            description: String::from(
                "this badge allow you to interact with your offer in the secondary market"
            ),
            nft_address: nft_addr(),
            nft_id: 7,
            component_address: instance(),
        }
    );
    assert_eq!(market.badges_issued(), 1);
    assert_eq!(market.badge_asset(0), Some(7));
    assert_eq!(market.offer(7), Some((0, units(5))));
    assert!(market.holds_asset(7));
}

#[test]
fn badges_are_numbered_in_order_and_never_reused() {
    let mut market = new_market(units(0));
    let first = market.sell(nft(1), units(5)).unwrap().0;
    let second = market.sell(nft(2), units(5)).unwrap().0;
    assert_eq!((first.id, second.id), (0, 1));
    market.cancel(first).unwrap();
    let third = market.sell(nft(1), units(5)).unwrap().0;
    assert_eq!(third.id, 2);
    assert_eq!(market.badges_issued(), 3);
}

#[test]
fn sell_then_cancel_leaves_the_books_as_they_were() {
    let mut market = new_market(quarter());
    let kept = market.sell(nft(1), units(9)).unwrap().0;
    let sold = market.sell(nft(2), units(8)).unwrap().0;
    market.buy(2, pay(8)).unwrap();
    let before = market.record();

    let badge = market.sell(nft(3), units(5)).unwrap().0;
    assert_eq!(market.cancel(badge), Ok(nft(3)));

    let after = market.record();
    assert_eq!(after.badges_minted, before.badges_minted + 1);
    assert_eq!(after.listings, before.listings);
    assert_eq!(after.claims, before.claims);
    assert_eq!(after.fees, before.fees);
    assert_eq!(market.offer(1), Some((kept.id, units(9))));
    assert_eq!(market.offer(3), None);
    assert_eq!(market.badge_asset(2), None);
    assert!(!market.holds_asset(3));
    assert_eq!(market.owed_to(sold.id), Some(units(6)));
    assert_eq!(market.proceeds_balance(), units(6));
    assert_eq!(market.fee_balance(), units(2));
}

#[test]
fn sell_at_price_zero_is_accepted() {
    let mut market = new_market(quarter());
    let badge = market.sell(nft(1), units(0)).unwrap().0;
    let (asset, change) = market.buy(1, pay(3)).unwrap();
    assert_eq!(asset, nft(1));
    assert_eq!(change, pay(3));
    assert_eq!(market.collect(badge), Ok(pay(0)));
    assert_eq!(market.fee_balance(), units(0));
}

#[test]
fn sell_refuses_a_negative_price() {
    let mut market = new_market(units(0));
    assert_eq!(market.sell(nft(1), attos(-1)), Err(MarketError::InvalidPrice));
    assert_eq!(market.badges_issued(), 0);
    assert!(!market.holds_asset(1));
    assert_eq!(market.offer(1), None);
}

#[test]
fn sell_refuses_an_asset_of_another_type() {
    let mut market = new_market(units(0));
    let stranger = NonFungible { resource: xrd(), id: 1 };
    assert_eq!(market.sell(stranger, units(5)), Err(MarketError::WrongAssetType));
    assert_eq!(market.badges_issued(), 0);
    assert!(!market.holds_asset(1));
}

#[test]
fn sell_checks_the_price_before_the_type() {
    let mut market = new_market(units(0));
    let stranger = NonFungible { resource: xrd(), id: 1 };
    assert_eq!(market.sell(stranger, attos(-1)), Err(MarketError::InvalidPrice));
}

#[test]
fn can_list_tells_whether_an_asset_is_already_in_custody() {
    let mut market = new_market(units(0));
    assert!(market.can_list(&nft(1)));
    let badge = market.sell(nft(1), units(5)).unwrap().0;
    assert!(!market.can_list(&nft(1)));
    assert!(market.can_list(&nft(2)));
    market.cancel(badge).unwrap();
    assert!(market.can_list(&nft(1)));
}

#[test]
fn update_changes_only_the_price() {
    let mut market = new_market(quarter());
    let badge = market.sell(nft(1), units(5)).unwrap().0;
    let other = market.sell(nft(2), units(7)).unwrap().0;
    assert_eq!(market.update(badge, units(4)), Ok(badge));
    assert_eq!(market.offer(1), Some((badge.id, units(4))));
    assert_eq!(market.offer(2), Some((other.id, units(7))));
    assert_eq!(market.badge_asset(badge.id), Some(1));
    assert_eq!(market.badge_asset(other.id), Some(2));
    assert!(market.holds_asset(1));
    assert!(market.holds_asset(2));
    assert_eq!(market.owed_to(badge.id), None);
    assert_eq!(market.proceeds_balance(), units(0));
    assert_eq!(market.fee_balance(), units(0));
    assert_eq!(market.badges_issued(), 2);
}

#[test]
fn update_refuses_a_negative_price() {
    let mut market = new_market(units(0));
    let badge = market.sell(nft(1), units(5)).unwrap().0;
    assert_eq!(market.update(badge, attos(-1)), Err(MarketError::InvalidPrice));
    assert_eq!(market.offer(1), Some((badge.id, units(5))));
}

#[test]
fn update_refuses_a_badge_of_another_resource() {
    let mut market = new_market(units(0));
    let badge = market.sell(nft(1), units(5)).unwrap().0;
    let forged = NonFungible { resource: xrd(), ..badge };
    assert_eq!(market.update(forged, units(4)), Err(MarketError::WrongAssetType));
    assert_eq!(market.offer(1), Some((badge.id, units(5))));
}

#[test]
fn update_refuses_a_badge_that_was_never_issued() {
    let mut market = new_market(units(0));
    let badge = market.sell(nft(1), units(5)).unwrap().0;
    let unknown = NonFungible { id: 17, ..badge };
    assert_eq!(market.update(unknown, units(4)), Err(MarketError::UnknownBadge));
}

#[test]
fn update_refuses_a_cancelled_badge() {
    let mut market = new_market(units(0));
    let badge = market.sell(nft(1), units(5)).unwrap().0;
    market.cancel(badge).unwrap();
    assert_eq!(market.update(badge, units(4)), Err(MarketError::UnknownBadge));
}

#[test]
fn update_refuses_a_sold_badge() {
    let mut market = new_market(units(0));
    let badge = market.sell(nft(1), units(5)).unwrap().0;
    market.buy(1, pay(5)).unwrap();
    assert_eq!(market.update(badge, units(4)), Err(MarketError::NoActiveOffer));
    assert_eq!(market.owed_to(badge.id), Some(units(5)));
    assert_eq!(market.offer(1), None);
}

#[test]
fn sold_badge_cannot_touch_a_later_listing_of_the_same_asset() {
    let mut market = new_market(units(0));
    let seller = market.sell(nft(1), units(5)).unwrap().0;
    let (asset, _) = market.buy(1, pay(5)).unwrap();
    let buyer = market.sell(asset, units(10)).unwrap().0;

    assert_eq!(market.update(seller, units(1)), Err(MarketError::NoActiveOffer));
    assert_eq!(market.cancel(seller), Err(MarketError::NoActiveOffer));
    assert_eq!(market.offer(1), Some((buyer.id, units(10))));
    assert!(market.holds_asset(1));

    assert_eq!(market.collect(seller), Ok(pay(5)));
    assert_eq!(market.cancel(buyer), Ok(nft(1)));
}

#[test]
fn cancel_returns_the_asset_and_burns_the_badge() {
    let mut market = new_market(units(0));
    let badge = market.sell(nft(1), units(5)).unwrap().0;
    assert_eq!(market.cancel(badge), Ok(nft(1)));
    assert_eq!(market.badge_asset(badge.id), None);
    assert_eq!(market.offer(1), None);
    assert!(!market.holds_asset(1));
    assert_eq!(market.cancel(badge), Err(MarketError::UnknownBadge));
    assert_eq!(market.collect(badge), Err(MarketError::UnknownBadge));
}

#[test]
fn cancel_refuses_a_badge_of_another_resource() {
    let mut market = new_market(units(0));
    let badge = market.sell(nft(1), units(5)).unwrap().0;
    let forged = NonFungible { resource: nft_addr(), ..badge };
    assert_eq!(market.cancel(forged), Err(MarketError::WrongAssetType));
    assert!(market.holds_asset(1));
}

#[test]
fn cancel_refuses_a_sold_badge() {
    let mut market = new_market(units(0));
    let badge = market.sell(nft(1), units(5)).unwrap().0;
    market.buy(1, pay(5)).unwrap();
    assert_eq!(market.cancel(badge), Err(MarketError::NoActiveOffer));
    assert_eq!(market.owed_to(badge.id), Some(units(5)));
}

#[test]
fn buy_with_exact_payment_and_no_fee() {
    let mut market = new_market(units(0));
    let badge = market.sell(nft(1), units(5)).unwrap().0;
    let (asset, change) = market.buy(1, pay(5)).unwrap();
    assert_eq!(asset, nft(1));
    assert_eq!(change, pay(0));
    assert_eq!(market.owed_to(badge.id), Some(units(5)));
    assert_eq!(market.proceeds_balance(), units(5));
    assert_eq!(market.fee_balance(), units(0));
    assert_eq!(market.fee_amount(), units(0));
    assert_eq!(market.badge_asset(badge.id), Some(1));
}

#[test]
fn buy_splits_the_price_by_the_fee_rate() {
    let mut market = new_market(quarter());
    let badge = market.sell(nft(1), units(20)).unwrap().0;
    let (_, change) = market.buy(1, pay(20)).unwrap();
    assert_eq!(change, pay(0));
    assert_eq!(market.owed_to(badge.id), Some(units(15)));
    assert_eq!(market.proceeds_balance(), units(15));
    assert_eq!(market.fee_balance(), units(5));
    assert_eq!(market.fee_amount(), units(5));
}

#[test]
fn buy_hands_back_the_change() {
    let mut market = new_market(quarter());
    market.sell(nft(1), units(20)).unwrap().0;
    let (_, change) = market.buy(1, pay(23)).unwrap();
    assert_eq!(change, pay(3));
    assert_eq!(market.proceeds_balance(), units(15));
    assert_eq!(market.fee_balance(), units(5));
}

#[test]
fn buy_rounds_the_fee_toward_zero() {
    let mut market = new_market(attos(ONE / 2));
    let first = market.sell(nft(1), attos(1)).unwrap().0;
    let second = market.sell(nft(2), attos(3)).unwrap().0;
    market.buy(1, Funds { resource: xrd(), amount: attos(1) }).unwrap();
    assert_eq!(market.owed_to(first.id), Some(attos(1)));
    assert_eq!(market.fee_balance(), attos(0));
    market.buy(2, Funds { resource: xrd(), amount: attos(3) }).unwrap();
    assert_eq!(market.owed_to(second.id), Some(attos(2)));
    assert_eq!(market.fee_balance(), attos(1));
    assert_eq!(market.proceeds_balance(), attos(3));
}

#[test]
fn buy_with_a_fee_rate_of_one_leaves_nothing_to_collect() {
    let mut market = new_market(units(1));
    let badge = market.sell(nft(1), units(20)).unwrap().0;
    market.buy(1, pay(20)).unwrap();
    assert_eq!(market.owed_to(badge.id), Some(units(0)));
    assert_eq!(market.fee_balance(), units(20));
    assert_eq!(market.collect(badge), Ok(pay(0)));
}

#[test]
fn buy_refuses_an_asset_without_an_offer() {
    let mut market = new_market(quarter());
    market.sell(nft(1), units(20)).unwrap().0;
    market.buy(1, pay(20)).unwrap();
    assert_eq!(market.buy(1, pay(20)), Err(MarketError::NoActiveOffer));
    assert_eq!(market.buy(2, pay(20)), Err(MarketError::NoActiveOffer));
    assert_eq!(market.proceeds_balance(), units(15));
    assert_eq!(market.fee_balance(), units(5));
    assert_eq!(market.fee_amount(), units(5));
}

#[test]
fn buy_refuses_a_short_payment() {
    let mut market = new_market(quarter());
    let badge = market.sell(nft(1), units(20)).unwrap().0;
    let short = Funds { resource: xrd(), amount: attos(20 * ONE - 1) };
    assert_eq!(market.buy(1, short), Err(MarketError::InsufficientPayment));
    let negative = Funds { resource: xrd(), amount: attos(-1) };
    assert_eq!(market.buy(1, negative), Err(MarketError::InsufficientPayment));
    assert_eq!(market.offer(1), Some((badge.id, units(20))));
    assert!(market.holds_asset(1));
    assert_eq!(market.owed_to(badge.id), None);
    assert_eq!(market.proceeds_balance(), units(0));
    assert_eq!(market.fee_balance(), units(0));
}

#[test]
fn buy_refuses_another_currency() {
    let mut market = new_market(quarter());
    let badge = market.sell(nft(1), units(20)).unwrap().0;
    let foreign = Funds { resource: other_currency(), amount: units(20) };
    assert_eq!(market.buy(1, foreign), Err(MarketError::WrongAssetType));
    assert_eq!(market.offer(1), Some((badge.id, units(20))));
    assert_eq!(market.proceeds_balance(), units(0));
}

#[test]
fn buy_checks_the_amount_before_the_currency() {
    let mut market = new_market(quarter());
    market.sell(nft(1), units(20)).unwrap().0;
    let foreign = Funds { resource: other_currency(), amount: units(19) };
    assert_eq!(market.buy(1, foreign), Err(MarketError::InsufficientPayment));
    assert_eq!(
        market.buy(2, Funds { resource: other_currency(), amount: units(19) }),
        Err(MarketError::NoActiveOffer)
    );
}

#[test]
fn can_settle_tells_whether_the_vaults_have_room() {
    let mut market = new_market(quarter());
    let largest = Amount { lo: u64::MAX, mid: u64::MAX, hi: 0x7fff_ffff_ffff_ffff };
    assert!(market.can_settle(&largest));
    assert!(market.can_settle(&attos(-1)));
    market.sell(nft(1), units(20)).unwrap().0;
    market.buy(1, pay(20)).unwrap();
    assert!(!market.can_settle(&largest));
    let room = largest.checked_sub(units(20)).unwrap();
    assert!(market.can_settle(&room));
    assert!(!market.can_settle(&room.checked_add(attos(1)).unwrap()));
}

#[test]
fn buy_at_the_largest_price_fills_the_vaults() {
    let mut market = new_market(attos(ONE / 2));
    let largest = Amount { lo: u64::MAX, mid: u64::MAX, hi: 0x7fff_ffff_ffff_ffff };
    let badge = market.sell(nft(1), largest).unwrap().0;
    assert!(market.can_settle(&largest));
    let (_, change) = market.buy(1, Funds { resource: xrd(), amount: largest }).unwrap();
    assert_eq!(change, pay(0));
    let fee = Amount { lo: u64::MAX, mid: u64::MAX, hi: 0x3fff_ffff_ffff_ffff };
    assert_eq!(market.fee_balance(), fee);
    assert_eq!(market.owed_to(badge.id), Some(largest.checked_sub(fee).unwrap()));
    assert!(!market.can_settle(&attos(1)));
    assert!(market.can_settle(&attos(0)));
}

#[test]
fn collect_pays_what_was_owed_and_burns_the_badge() {
    let mut market = new_market(quarter());
    let badge = market.sell(nft(1), units(20)).unwrap().0;
    market.buy(1, pay(20)).unwrap();
    assert_eq!(market.owed_to(badge.id), Some(units(15)));
    assert_eq!(market.collect(badge), Ok(pay(15)));
    assert_eq!(market.owed_to(badge.id), None);
    assert_eq!(market.badge_asset(badge.id), None);
    assert_eq!(market.proceeds_balance(), units(0));
    assert_eq!(market.fee_balance(), units(5));
    assert_eq!(market.collect(badge), Err(MarketError::UnknownBadge));
}

#[test]
fn seller_collects_five_and_a_second_collect_is_refused() {
    let mut market = new_market(units(0));
    let badge = market.sell(nft(1), units(5)).unwrap().0;
    market.buy(1, pay(5)).unwrap();
    assert_eq!(market.collect(badge), Ok(pay(5)));
    assert_eq!(market.collect(badge), Err(MarketError::UnknownBadge));
}

#[test]
fn collect_refuses_a_badge_whose_asset_has_not_sold() {
    let mut market = new_market(units(0));
    let badge = market.sell(nft(1), units(5)).unwrap().0;
    assert_eq!(market.collect(badge), Err(MarketError::AlreadyCollected));
    assert_eq!(market.offer(1), Some((badge.id, units(5))));
    assert_eq!(market.badge_asset(badge.id), Some(1));
}

#[test]
fn collect_refuses_a_badge_of_another_resource() {
    let mut market = new_market(units(0));
    let badge = market.sell(nft(1), units(5)).unwrap().0;
    market.buy(1, pay(5)).unwrap();
    let forged = NonFungible { resource: fee_badge(), ..badge };
    assert_eq!(market.collect(forged), Err(MarketError::WrongAssetType));
    assert_eq!(market.owed_to(badge.id), Some(units(5)));
}

#[test]
fn collect_refuses_a_badge_that_was_never_issued() {
    let mut market = new_market(units(0));
    let badge = market.sell(nft(1), units(5)).unwrap().0;
    market.buy(1, pay(5)).unwrap();
    let unknown = NonFungible { id: 3, ..badge };
    assert_eq!(market.collect(unknown), Err(MarketError::UnknownBadge));
    assert_eq!(market.proceeds_balance(), units(5));
}

#[test]
fn badges_of_another_market_are_unknown() {
    let mut here = new_market(units(0));
    let mut there = new_market(units(0));
    here.sell(nft(1), units(5)).unwrap().0;
    there.sell(nft(1), units(5)).unwrap().0;
    let foreign = there.sell(nft(2), units(5)).unwrap().0;
    assert_eq!(here.cancel(foreign), Err(MarketError::UnknownBadge));
    assert_eq!(here.update(foreign, units(1)), Err(MarketError::UnknownBadge));
    assert_eq!(here.collect(foreign), Err(MarketError::UnknownBadge));
}

#[test]
fn collect_fees_drains_the_treasury() {
    let mut market = new_market(quarter());
    market.sell(nft(1), units(20)).unwrap().0;
    market.buy(1, pay(20)).unwrap();
    market.sell(nft(2), units(40)).unwrap().0;
    market.buy(2, pay(40)).unwrap();
    assert_eq!(market.fee_amount(), units(15));
    assert_eq!(market.collect_fees(fee_badge()), Ok(pay(15)));
    assert_eq!(market.fee_balance(), units(0));
    assert_eq!(market.fee_amount(), units(0));
    assert_eq!(market.proceeds_balance(), units(45));
}

#[test]
fn collect_fees_twice_yields_nothing_the_second_time() {
    let mut market = new_market(quarter());
    market.sell(nft(1), units(20)).unwrap().0;
    market.buy(1, pay(20)).unwrap();
    assert_eq!(market.collect_fees(fee_badge()), Ok(pay(5)));
    assert_eq!(market.collect_fees(fee_badge()), Ok(pay(0)));
    assert_eq!(market.collect_fees(fee_badge()), Ok(pay(0)));
}

#[test]
fn collect_fees_on_a_new_market_yields_nothing() {
    let mut market = new_market(quarter());
    assert_eq!(market.collect_fees(fee_badge()), Ok(pay(0)));
}

#[test]
fn collect_fees_refuses_anyone_but_the_fee_authority() {
    let mut market = new_market(quarter());
    market.sell(nft(1), units(20)).unwrap().0;
    market.buy(1, pay(20)).unwrap();
    assert_eq!(market.collect_fees(badge_addr()), Err(MarketError::Unauthorized));
    assert_eq!(market.collect_fees(xrd()), Err(MarketError::Unauthorized));
    assert_eq!(market.fee_balance(), units(5));
    assert_eq!(market.fee_amount(), units(5));
}

#[test]
fn accepts_fee_rate_takes_fractions_only() {
    assert!(NftSecondaryMarket::accepts_fee_rate(&attos(0)));
    assert!(NftSecondaryMarket::accepts_fee_rate(&quarter()));
    assert!(NftSecondaryMarket::accepts_fee_rate(&attos(ONE)));
    assert!(!NftSecondaryMarket::accepts_fee_rate(&attos(ONE + 1)));
    assert!(!NftSecondaryMarket::accepts_fee_rate(&attos(-1)));
}

#[test]
fn resource_addresses_compare_byte_by_byte() {
    let mut bytes = [7u8; 30];
    let a = ResourceAddress { node_id: bytes };
    assert!(a == ResourceAddress { node_id: [7u8; 30] });
    bytes[29] = 8;
    assert!(a != ResourceAddress { node_id: bytes });
    bytes[29] = 7;
    bytes[0] = 8;
    assert!(a != ResourceAddress { node_id: bytes });
}
