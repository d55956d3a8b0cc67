//! The asset descriptor as a request carries it, and its conversion into
//! the shape that the metadata program expects.

use crate::address::Address;
use crate::instruction::{encodable, fits_length_prefix};
use crate::metadata::{Collection, Creator, DataV2, DataV2View};
use mpl_token_metadata::state::{UseMethod, Uses};
use vstd::prelude::*;
use vstd::utf8::encode_utf8;

verus! {

/// The descriptor of an asset as a request carries it.
#[derive(Clone, Debug, PartialEq)]
pub struct AnchorDataV2 {
    /// The name of the asset.
    pub name: String,
    /// The symbol for the asset.
    pub symbol: String,
    /// URI pointing to JSON representing the asset.
    pub uri: String,
    /// Royalty basis points that go to creators in secondary sales (0-10000).
    pub seller_fee_basis_points: u16,
    /// The creators, if any are named.
    pub creators: Option<Vec<AnchorCreator>>,
    /// The collection, if the asset belongs to one.
    pub collection: Option<AnchorCollection>,
    /// The usage terms, if the asset has any.
    pub uses: Option<AnchorUses>,
}

/// One creator of an asset.
#[derive(Clone, Copy, Debug, PartialEq)]
pub struct AnchorCreator {
    pub address: Address,
    pub verified: bool,
    /// In percent, not in basis points.
    pub share: u8,
}

/// How a use of an asset is counted.
#[derive(Clone, Copy, Debug, PartialEq)]
pub enum AnchorUseMethod {
    Burn,
    Multiple,
    Single,
}

/// The usage terms of an asset.
#[derive(Clone, Copy, Debug, PartialEq)]
pub struct AnchorUses {
    pub use_method: AnchorUseMethod,
    pub remaining: u64,
    pub total: u64,
}

/// The collection that an asset belongs to.
#[derive(Clone, Copy, Debug, PartialEq)]
pub struct AnchorCollection {
    pub verified: bool,
    pub key: Address,
}

/// What a descriptor holds.
pub struct AnchorDataV2View {
    pub name: Seq<char>,
    pub symbol: Seq<char>,
    pub uri: Seq<char>,
    pub seller_fee_basis_points: u16,
    pub creators: Option<Seq<AnchorCreator>>,
    pub collection: Option<AnchorCollection>,
    pub uses: Option<AnchorUses>,
}

impl View for AnchorDataV2 {
    type V = AnchorDataV2View;

    open spec fn view(&self) -> AnchorDataV2View {
        AnchorDataV2View {
            name: self.name@,
            symbol: self.symbol@,
            uri: self.uri@,
            seller_fee_basis_points: self.seller_fee_basis_points,
            creators: match self.creators {
                Some(creators) => Some(creators@),
                None => None,
            },
            collection: self.collection,
            uses: self.uses,
        }
    }
}

/// The usage method of the metadata program that stands for `item`: the one
/// of the same name, so that the three usage methods stay distinct.
pub open spec fn use_method_shape(item: AnchorUseMethod) -> UseMethod {
    match item {
        AnchorUseMethod::Burn => UseMethod::Burn,
        AnchorUseMethod::Multiple => UseMethod::Multiple,
        AnchorUseMethod::Single => UseMethod::Single,
    }
}

/// The usage terms that the metadata program receives for `item`.
pub open spec fn uses_shape(item: AnchorUses) -> Uses {
    Uses {
        use_method: use_method_shape(item.use_method),
        remaining: item.remaining,
        total: item.total,
    }
}

/// The creator that the metadata program receives for `item`.
pub open spec fn creator_shape(item: AnchorCreator) -> Creator {
    Creator { address: item.address, verified: item.verified, share: item.share }
}

/// The collection reference that the metadata program receives for `item`.
pub open spec fn collection_shape(item: AnchorCollection) -> Collection {
    Collection { verified: item.verified, key: item.key }
}

impl From<AnchorUseMethod> for UseMethod {
    /// Each usage method becomes the method of the same name.
    fn from(item: AnchorUseMethod) -> (method: UseMethod)
        ensures
            method == use_method_shape(item),
    {
        match item {
            AnchorUseMethod::Burn => UseMethod::Burn,
            AnchorUseMethod::Multiple => UseMethod::Multiple,
            AnchorUseMethod::Single => UseMethod::Single,
        }
    }
}

impl vstd::std_specs::convert::FromSpecImpl<AnchorUseMethod> for UseMethod {
    open spec fn obeys_from_spec() -> bool {
        true
    }

    open spec fn from_spec(item: AnchorUseMethod) -> UseMethod {
        use_method_shape(item)
    }
}

impl From<AnchorUses> for Uses {
    /// The usage terms with the method converted and both counts unchanged.
    fn from(item: AnchorUses) -> (uses: Uses)
        ensures
            uses == uses_shape(item),
    {
        Uses {
            use_method: UseMethod::from(item.use_method),
            remaining: item.remaining,
            total: item.total,
        }
    }
}

impl vstd::std_specs::convert::FromSpecImpl<AnchorUses> for Uses {
    open spec fn obeys_from_spec() -> bool {
        true
    }

    open spec fn from_spec(item: AnchorUses) -> Uses {
        uses_shape(item)
    }
}

impl From<AnchorCreator> for Creator {
    /// The creator with every field unchanged.
    fn from(item: AnchorCreator) -> (creator: Creator)
        ensures
            creator == creator_shape(item),
    {
        Creator { address: item.address, verified: item.verified, share: item.share }
    }
}

impl vstd::std_specs::convert::FromSpecImpl<AnchorCreator> for Creator {
    open spec fn obeys_from_spec() -> bool {
        true
    }

    open spec fn from_spec(item: AnchorCreator) -> Creator {
        creator_shape(item)
    }
}

impl From<AnchorCollection> for Collection {
    /// The collection reference with both fields unchanged.
    fn from(item: AnchorCollection) -> (collection: Collection)
        ensures
            collection == collection_shape(item),
    {
        Collection { verified: item.verified, key: item.key }
    }
}

impl vstd::std_specs::convert::FromSpecImpl<AnchorCollection> for Collection {
    open spec fn obeys_from_spec() -> bool {
        true
    }

    open spec fn from_spec(item: AnchorCollection) -> Collection {
        collection_shape(item)
    }
}

/// The descriptor that the metadata program receives for the descriptor
/// `item` of a request: name, symbol, URI and royalty unchanged, and each
/// creator, the collection and the usage terms converted one for one.
pub open spec fn external_shape(item: AnchorDataV2View) -> DataV2View {
    DataV2View {
        name: item.name,
        symbol: item.symbol,
        uri: item.uri,
        seller_fee_basis_points: item.seller_fee_basis_points,
        creators: match item.creators {
            Some(creators) => Some(
                creators.map_values(|creator: AnchorCreator| creator_shape(creator)),
            ),
            None => None,
        },
        collection: match item.collection {
            Some(collection) => Some(collection_shape(collection)),
            None => None,
        },
        uses: match item.uses {
            Some(uses) => Some(uses_shape(uses)),
            None => None,
        },
    }
}

fn convert_creators(items: Vec<AnchorCreator>) -> (creators: Vec<Creator>)
    ensures
        creators@ == items@.map_values(|creator: AnchorCreator| creator_shape(creator)),
{
    let mut creators: Vec<Creator> = Vec::new();
    let mut i: usize = 0;
    while i < items.len()
        invariant
            i <= items@.len(),
            creators@.len() == i,
            forall|j: int| 0 <= j < i ==> creators@[j] == creator_shape(items@[j]),
        decreases items@.len() - i,
    {
        creators.push(Creator::from(items[i]));
        i += 1;
    }
    assert(creators@ =~= items@.map_values(|creator: AnchorCreator| creator_shape(creator)));
    creators
}

impl From<AnchorDataV2> for DataV2 {
    /// The descriptor in the shape that the metadata program expects.
    fn from(item: AnchorDataV2) -> (data: DataV2)
        ensures
            data@ == external_shape(item@),
    {
        DataV2 {
            name: item.name,
            symbol: item.symbol,
            uri: item.uri,
            seller_fee_basis_points: item.seller_fee_basis_points,
            creators: match item.creators {
                Some(creators) => Some(convert_creators(creators)),
                None => None,
            },
            collection: match item.collection {
                Some(collection) => Some(Collection::from(collection)),
                None => None,
            },
            uses: match item.uses {
                Some(uses) => Some(Uses::from(uses)),
                None => None,
            },
        }
    }
}

impl vstd::std_specs::convert::FromSpecImpl<AnchorDataV2> for DataV2 {
    /// A descriptor owns its strings and its list of creators, so the result
    /// is stated by its view, in the `ensures` of `from`.
    open spec fn obeys_from_spec() -> bool {
        false
    }

    open spec fn from_spec(item: AnchorDataV2) -> DataV2 {
        arbitrary()
    }
}

/// The three usage methods stay apart: the conversion never turns two
/// different methods into one, so that what a request asks for can be read
/// back from what the metadata program stores.
pub proof fn lemma_use_methods_stay_distinct(a: AnchorUseMethod, b: AnchorUseMethod)
    ensures
        use_method_shape(a) == use_method_shape(b) <==> a == b,
{
}

/// The conversion loses nothing: two descriptors that the metadata program
/// receives alike are alike.
pub proof fn lemma_external_shape_is_faithful(a: AnchorDataV2View, b: AnchorDataV2View)
    requires
        external_shape(a) == external_shape(b),
    ensures
        a == b,
{
    match (a.creators, b.creators) {
        (Some(x), Some(y)) => {
            let converted_x = x.map_values(|creator: AnchorCreator| creator_shape(creator));
            let converted_y = y.map_values(|creator: AnchorCreator| creator_shape(creator));
            assert(converted_x == converted_y);
            assert(x.len() == converted_x.len());
            assert(y.len() == converted_y.len());
            assert forall|i: int| 0 <= i < x.len() implies x[i] == y[i] by {
                assert(converted_x[i] == creator_shape(x[i]));
                assert(converted_y[i] == creator_shape(y[i]));
            }
            assert(x =~= y);
        },
        _ => {},
    }
    match (a.uses, b.uses) {
        (Some(x), Some(y)) => {
            lemma_use_methods_stay_distinct(x.use_method, y.use_method);
        },
        _ => {},
    }
}

/// The largest royalty: 10000 basis points, the whole price.
pub const MAX_SELLER_FEE_BASIS_POINTS: u16 = 10000;

fn fits(text: &String) -> (fits: bool)
    ensures
        fits == fits_length_prefix(encode_utf8(text@).len()),
{
    text.as_str().as_bytes().len() <= 0xffff_ffff
}

impl AnchorDataV2 {
    /// Whether the royalty is at most the whole price. The metadata program
    /// refuses a descriptor whose royalty is not.
    pub fn royalty_in_range(&self) -> (in_range: bool)
        ensures
            in_range == (self@.seller_fee_basis_points <= MAX_SELLER_FEE_BASIS_POINTS),
    {
        self.seller_fee_basis_points <= MAX_SELLER_FEE_BASIS_POINTS
    }

    /// Whether the descriptor can be put into an instruction: whether its
    /// strings and its list of creators have lengths that fit 32 bits.
    pub fn encodable(&self) -> (fits: bool)
        ensures
            fits == encodable(external_shape(self@)),
    {
        let creators = match &self.creators {
            Some(creators) => creators.len() <= 0xffff_ffff,
            None => true,
        };
        fits(&self.name) && fits(&self.symbol) && fits(&self.uri) && creators
    }
}

} // verus!
