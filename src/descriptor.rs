use vstd::prelude::*;
use crate::address::{base58_key, parse_address, Address};
use crate::data::{
    FungibleAssetMetadata, FungibleTokenMetadata, NonFungibleTokenMetadata, TokenData,
};

verus! {

/// How a consumable asset is used up.
#[derive(Clone, Copy, Debug, PartialEq, Eq, Structural)]
pub enum UseMethod {
    Burn,
    Multiple,
    Single,
}

/// Bounded-use tracking of a consumable asset.
#[derive(Clone, Copy, Debug, PartialEq, Eq, Structural)]
pub struct Uses {
    pub use_method: UseMethod,
    pub remaining: u64,
    pub total: u64,
}

/// A creator entitled to a share of royalties, in percent.
#[derive(Clone, Copy, Debug, PartialEq, Eq)]
pub struct Creator {
    pub address: Address,
    pub verified: bool,
    pub share: u8,
}

/// The collection that an item belongs to.
#[derive(Clone, Copy, Debug, PartialEq, Eq)]
pub struct Collection {
    pub verified: bool,
    pub key: Address,
}

/// The canonical on-ledger metadata record of a mint.
#[derive(Clone, Debug, PartialEq, Eq)]
pub struct MintDescriptor {
    pub name: String,
    pub symbol: String,
    pub uri: String,
    pub seller_fee_basis_points: u16,
    pub creators: Option<Vec<Creator>>,
    pub collection: Option<Collection>,
    pub uses: Option<Uses>,
}

/// Why a request's metadata could not be projected.
#[derive(Clone, Copy, Debug, PartialEq, Eq, Structural)]
pub enum ProjectionError {
    /// A creator or collection address is not a valid base58 key.
    InvalidAddress,
}

/// The mathematical value of a `Creator`.
pub struct CreatorModel {
    pub address: Seq<u8>,
    pub verified: bool,
    pub share: u8,
}

/// The mathematical value of a `Collection`.
pub struct CollectionModel {
    pub verified: bool,
    pub key: Seq<u8>,
}

/// The mathematical value of a `MintDescriptor`.
pub struct DescriptorModel {
    pub name: Seq<char>,
    pub symbol: Seq<char>,
    pub uri: Seq<char>,
    pub seller_fee_basis_points: u16,
    pub creators: Option<Seq<CreatorModel>>,
    pub collection: Option<CollectionModel>,
    pub uses: Option<Uses>,
}

impl View for Creator {
    type V = CreatorModel;

    open spec fn view(&self) -> CreatorModel {
        CreatorModel { address: self.address@, verified: self.verified, share: self.share }
    }
}

impl View for Collection {
    type V = CollectionModel;

    open spec fn view(&self) -> CollectionModel {
        CollectionModel { verified: self.verified, key: self.key@ }
    }
}

impl View for MintDescriptor {
    type V = DescriptorModel;

    open spec fn view(&self) -> DescriptorModel {
        DescriptorModel {
            name: self.name@,
            symbol: self.symbol@,
            uri: self.uri@,
            seller_fee_basis_points: self.seller_fee_basis_points,
            creators: match self.creators {
                Some(v) => Some(v@.map_values(|c: Creator| c@)),
                None => None,
            },
            collection: match self.collection {
                Some(c) => Some(c@),
                None => None,
            },
            uses: self.uses,
        }
    }
}

/// Each of `count` creators gets `floor(100 / count)` percent; the remainder
/// of the division is not handed out.
pub open spec fn creator_share(count: int) -> u8 {
    if count <= 0 {
        0
    } else {
        (100int / count) as u8
    }
}

/// Every address in the list is a valid base58 key.
pub open spec fn all_keys_valid(addresses: Seq<String>) -> bool {
    forall|i: int| 0 <= i < addresses.len() ==> (#[trigger] base58_key(addresses[i]@)) is Some
}

/// The creators recorded for a list of addresses, in the order given, all
/// unverified and with equal shares.
pub open spec fn creators_model(addresses: Seq<String>) -> Seq<CreatorModel> {
    addresses.map(
        |i: int, a: String|
            CreatorModel {
                address: base58_key(a@).unwrap(),
                verified: false,
                share: creator_share(addresses.len() as int),
            },
    )
}

/// The addresses of a non-fungible request can all be decoded.
pub open spec fn addresses_valid(m: NonFungibleTokenMetadata) -> bool {
    &&& (m.creators_addresses matches Some(v) ==> all_keys_valid(v@))
    &&& (m.collection_address matches Some(c) ==> base58_key(c@) is Some)
}

/// The metadata record of a request, or `None` where an address of a
/// non-fungible request is not a valid key.
pub open spec fn descriptor_model(data: TokenData) -> Option<DescriptorModel> {
    match data {
        TokenData::Fungible(p) => Some(
            DescriptorModel {
                name: p.metadata.name@,
                symbol: p.metadata.symbol@,
                uri: p.metadata.uri@,
                seller_fee_basis_points: 0,
                creators: None,
                collection: None,
                uses: None,
            },
        ),
        TokenData::FungibleAsset(p) => Some(
            DescriptorModel {
                name: p.metadata.name@,
                symbol: p.metadata.symbol@,
                uri: p.metadata.uri@,
                seller_fee_basis_points: 0,
                creators: None,
                collection: None,
                uses: if p.metadata.uses > 0 {
                    Some(
                        Uses {
                            use_method: UseMethod::Burn,
                            remaining: p.metadata.uses,
                            total: p.metadata.uses,
                        },
                    )
                } else {
                    None
                },
            },
        ),
        TokenData::NonFungible(p) => if addresses_valid(p.metadata) {
            Some(
                DescriptorModel {
                    name: p.metadata.name@,
                    symbol: p.metadata.symbol@,
                    uri: p.metadata.uri@,
                    seller_fee_basis_points: p.metadata.seller_fee_basis_points,
                    creators: match p.metadata.creators_addresses {
                        Some(v) => Some(creators_model(v@)),
                        None => None,
                    },
                    collection: match p.metadata.collection_address {
                        Some(c) => Some(CollectionModel { verified: false, key: base58_key(c@).unwrap() }),
                        None => None,
                    },
                    uses: None,
                },
            )
        } else {
            None
        },
    }
}

/// The share of each of `count` creators: `floor(100 / count)`.
pub fn creator_share_of(count: usize) -> (r: u8)
    ensures
        r == creator_share(count as int),
        count > 0 ==> r as int * count <= 100,
{
    if count == 0 {
        0
    } else {
        let share = 100 / count;
        assert(share * count <= 100) by (nonlinear_arith)
            requires
                share == 100usize / count,
                count > 0,
        ;
        share as u8
    }
}

/// Builds the unverified creator records for a list of addresses.
fn creators_from(addresses: &Vec<String>) -> (r: Result<Vec<Creator>, ProjectionError>)
    ensures
        match r {
            Ok(v) => all_keys_valid(addresses@) && v@.map_values(|c: Creator| c@)
                == creators_model(addresses@),
            Err(_) => !all_keys_valid(addresses@),
        },
{
    let share = creator_share_of(addresses.len());
    let mut out: Vec<Creator> = Vec::new();
    let mut i: usize = 0;
    while i < addresses.len()
        invariant
            i <= addresses@.len(),
            out@.len() == i,
            share == creator_share(addresses@.len() as int),
            forall|j: int| 0 <= j < i ==> (#[trigger] base58_key(addresses@[j]@)) is Some,
            forall|j: int|
                0 <= j < i ==> #[trigger] out@[j]@ == creators_model(addresses@)[j],
        decreases addresses.len() - i,
    {
        match parse_address(&addresses[i]) {
            Some(key) => {
                out.push(Creator { address: key, verified: false, share });
            },
            None => {
                return Err(ProjectionError::InvalidAddress);
            },
        }
        i += 1;
    }
    assert(out@.map_values(|c: Creator| c@) =~= creators_model(addresses@));
    Ok(out)
}

fn fungible_descriptor(m: &FungibleTokenMetadata) -> (r: MintDescriptor)
    ensures
        r@ == (DescriptorModel {
            name: m.name@,
            symbol: m.symbol@,
            uri: m.uri@,
            seller_fee_basis_points: 0,
            creators: None,
            collection: None,
            uses: None,
        }),
{
    MintDescriptor {
        name: m.name.clone(),
        symbol: m.symbol.clone(),
        uri: m.uri.clone(),
        seller_fee_basis_points: 0,
        creators: None,
        collection: None,
        uses: None,
    }
}

fn asset_descriptor(m: &FungibleAssetMetadata) -> (r: MintDescriptor)
    ensures
        r@.name == m.name@,
        r@.symbol == m.symbol@,
        r@.uri == m.uri@,
        r@.seller_fee_basis_points == 0,
        r@.creators is None,
        r@.collection is None,
        r@.uses == (if m.uses > 0 {
            Some(Uses { use_method: UseMethod::Burn, remaining: m.uses, total: m.uses })
        } else {
            None
        }),
{
    let uses = if m.uses > 0 {
        Some(Uses { use_method: UseMethod::Burn, remaining: m.uses, total: m.uses })
    } else {
        None
    };
    MintDescriptor {
        name: m.name.clone(),
        symbol: m.symbol.clone(),
        uri: m.uri.clone(),
        seller_fee_basis_points: 0,
        creators: None,
        collection: None,
        uses,
    }
}

fn non_fungible_descriptor(m: &NonFungibleTokenMetadata) -> (r: Result<
    MintDescriptor,
    ProjectionError,
>)
    ensures
        match r {
            Ok(d) => descriptor_model(
                TokenData::NonFungible(crate::data::NonFungibleTokenParams { metadata: *m }),
            ) == Some(d@),
            Err(_) => !addresses_valid(*m),
        },
{
    let creators = match &m.creators_addresses {
        Some(addresses) => match creators_from(addresses) {
            Ok(v) => Some(v),
            Err(e) => {
                return Err(e);
            },
        },
        None => None,
    };
    let collection = match &m.collection_address {
        Some(text) => match parse_address(text) {
            Some(key) => Some(Collection { verified: false, key }),
            None => {
                return Err(ProjectionError::InvalidAddress);
            },
        },
        None => None,
    };
    Ok(
        MintDescriptor {
            name: m.name.clone(),
            symbol: m.symbol.clone(),
            uri: m.uri.clone(),
            seller_fee_basis_points: m.seller_fee_basis_points,
            creators,
            collection,
            uses: None,
        },
    )
}

impl MintDescriptor {
    /// The metadata record of a request. Fungible currencies carry no uses,
    /// creators, collection or royalty; assets carry `uses` when their count is
    /// positive; unique items carry their royalty, equal-share unverified
    /// creators and an unverified collection. Fails only where an address of a
    /// unique item is not a valid key.
    pub fn from_token_data(data: &TokenData) -> (r: Result<MintDescriptor, ProjectionError>)
        ensures
            match r {
                Ok(d) => descriptor_model(*data) == Some(d@),
                Err(e) => descriptor_model(*data) is None && e == ProjectionError::InvalidAddress,
            },
    {
        match data {
            TokenData::Fungible(p) => Ok(fungible_descriptor(&p.metadata)),
            TokenData::FungibleAsset(p) => Ok(asset_descriptor(&p.metadata)),
            TokenData::NonFungible(p) => non_fungible_descriptor(&p.metadata),
        }
    }
}

} // verus!
