//! The asset descriptor in the shape that the metadata program expects.

use crate::address::Address;
use mpl_token_metadata::state::{UseMethod, Uses};
use vstd::prelude::*;

verus! {

/// How a use of an asset is counted; the metadata program's own type.
#[verifier::external_type_specification]
pub struct ExUseMethod(UseMethod);

/// The usage terms of an asset; the metadata program's own type.
#[verifier::external_type_specification]
pub struct ExUses(Uses);

/// One creator of an asset.
#[derive(Clone, Copy, Debug, PartialEq, Eq)]
pub struct Creator {
    pub address: Address,
    pub verified: bool,
    /// In percent, not in basis points.
    pub share: u8,
}

/// The collection that an asset belongs to.
#[derive(Clone, Copy, Debug, PartialEq, Eq)]
pub struct Collection {
    pub verified: bool,
    pub key: Address,
}

/// The descriptor of an asset.
#[derive(Clone, Debug, PartialEq, Eq)]
pub struct DataV2 {
    /// The name of the asset.
    pub name: String,
    /// The symbol for the asset.
    pub symbol: String,
    /// URI pointing to JSON representing the asset.
    pub uri: String,
    /// Royalty basis points that go to creators in secondary sales (0-10000).
    pub seller_fee_basis_points: u16,
    /// The creators, if any are named.
    pub creators: Option<Vec<Creator>>,
    /// The collection, if the asset belongs to one.
    pub collection: Option<Collection>,
    /// The usage terms, if the asset has any.
    pub uses: Option<Uses>,
}

/// What a descriptor holds.
pub struct DataV2View {
    pub name: Seq<char>,
    pub symbol: Seq<char>,
    pub uri: Seq<char>,
    pub seller_fee_basis_points: u16,
    pub creators: Option<Seq<Creator>>,
    pub collection: Option<Collection>,
    pub uses: Option<Uses>,
}

impl View for DataV2 {
    type V = DataV2View;

    open spec fn view(&self) -> DataV2View {
        DataV2View {
            name: self.name@,
            symbol: self.symbol@,
            uri: self.uri@,
            seller_fee_basis_points: self.seller_fee_basis_points,
            creators: match self.creators {
                Some(creators) => Some(creators@),
                None => None,
            },
            collection: self.collection,
            uses: self.uses,
        }
    }
}

} // verus!
