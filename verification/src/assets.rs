//! The plain values that pass between the market and its callers: addresses,
//! tokens, funds and badge data.

use crate::amount::Amount;
use vstd::prelude::*;
use vstd::std_specs::cmp::PartialEqSpecImpl;

verus! {

/// The address of a resource: the type of an asset, of a currency or of a
/// capability token. Two tokens are of the same type exactly when their
/// resource addresses are equal.
#[derive(Clone, Copy, Debug, Eq)]
pub struct ResourceAddress {
    pub node_id: [u8; 30],
}

impl PartialEq for ResourceAddress {
    fn eq(&self, other: &Self) -> (r: bool) {
        let mut i: usize = 0;
        while i < 30
            invariant
                i <= 30,
                forall|j: int| 0 <= j < i ==> self.node_id@[j] == other.node_id@[j],
            decreases 30 - i,
        {
            if self.node_id[i] != other.node_id[i] {
                return false;
            }
            i += 1;
        }
        assert(self.node_id =~= other.node_id);
        true
    }
}

impl PartialEqSpecImpl for ResourceAddress {
    open spec fn obeys_eq_spec() -> bool {
        true
    }

    open spec fn eq_spec(&self, other: &Self) -> bool {
        *self == *other
    }
}

/// The address of a market instance on the ledger.
#[derive(Clone, Copy, Debug, PartialEq, Eq)]
pub struct ComponentAddress {
    pub node_id: [u8; 30],
}

/// One non-fungible token, be it an asset or a badge: the resource it
/// belongs to and its identifier within that resource.
#[derive(Clone, Copy, Debug, PartialEq, Eq)]
pub struct NonFungible {
    pub resource: ResourceAddress,
    pub id: u64,
}

/// A quantity of one fungible currency.
#[derive(Clone, Copy, Debug, PartialEq, Eq)]
pub struct Funds {
    pub resource: ResourceAddress,
    pub amount: Amount,
}

/// What a badge says of itself: its display texts and the listing it was
/// minted for. The ledger keeps these with the badge token.
#[derive(Clone, Debug, PartialEq, Eq)]
pub struct Badge {
    pub name: String,
    pub description: String,
    /// The type of the asset the badge was issued for.
    pub nft_address: ResourceAddress,
    /// The identifier of the asset the badge was issued for.
    pub nft_id: u64,
    /// The market that issued the badge.
    pub component_address: ComponentAddress,
}

/// The display name every badge carries.
pub open spec fn seller_badge_name() -> Seq<char> {
    "impahla seller badge"@
}

/// The display description every badge carries.
pub open spec fn seller_badge_description() -> Seq<char> {
    "this badge allow you to interact with your offer in the secondary market"@
}

} // verus!
