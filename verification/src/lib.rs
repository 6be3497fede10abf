//! A secondary market for unique assets, with its rules proved.
//!
//! A seller hands an asset to the market and gets a badge for it. Anyone
//! can buy a listed asset for its price; the price, less the market's fee,
//! then waits for whoever presents the badge. Until the asset has sold, the
//! badge also re-prices or withdraws the listing.
//!
//! [`ledger`] states the rules over mathematical books, [`market`] keeps
//! executable books that follow them, [`laws`] proves what the rules imply,
//! [`record`] lays the books out as plain lists, and [`amount`] and
//! [`assets`] hold the values that go in and out.

pub mod amount;
pub mod assets;
pub mod laws;
pub mod ledger;
pub mod market;
pub mod record;

pub use amount::Amount;
pub use assets::{Badge, ComponentAddress, Funds, NonFungible, ResourceAddress};
pub use ledger::MarketError;
pub use market::NftSecondaryMarket;
pub use record::{ClaimRecord, ListingRecord, MarketRecord};
