use vstd::prelude::*;

verus! {

/// Descriptive fields of a fungible currency.
#[derive(Clone, Debug, PartialEq, Eq)]
pub struct FungibleTokenMetadata {
    pub name: String,
    pub symbol: String,
    pub uri: String,
}

/// Descriptive fields of a semi-fungible asset. `uses == 0` means that the
/// asset is not consumable; otherwise it can be used `uses` times.
#[derive(Clone, Debug, PartialEq, Eq)]
pub struct FungibleAssetMetadata {
    pub name: String,
    pub symbol: String,
    pub uri: String,
    pub uses: u64,
}

/// Descriptive fields of a unique item. Addresses are base58 text.
#[derive(Clone, Debug, PartialEq, Eq)]
pub struct NonFungibleTokenMetadata {
    pub name: String,
    pub symbol: String,
    pub uri: String,
    pub seller_fee_basis_points: u16,
    pub creators_addresses: Option<Vec<String>>,
    pub collection_address: Option<String>,
}

#[derive(Clone, Debug, PartialEq, Eq)]
pub struct FungibleTokenParams {
    pub decimals: u8,
    pub initial_supply: u64,
    pub should_freeze_after_mint: bool,
    pub metadata: FungibleTokenMetadata,
}

#[derive(Clone, Debug, PartialEq, Eq)]
pub struct FungibleAssetParams {
    pub decimals: u8,
    pub quantity: u64,
    pub metadata: FungibleAssetMetadata,
}

#[derive(Clone, Debug, PartialEq, Eq)]
pub struct NonFungibleTokenParams {
    pub metadata: NonFungibleTokenMetadata,
}

/// An issuance request: exactly one of the three token kinds.
#[derive(Clone, Debug, PartialEq, Eq)]
pub enum TokenData {
    Fungible(FungibleTokenParams),
    FungibleAsset(FungibleAssetParams),
    NonFungible(NonFungibleTokenParams),
}

/// `10` to the power `e`.
pub open spec fn pow10(e: nat) -> nat
    decreases e,
{
    if e == 0 {
        1
    } else {
        10 * pow10((e - 1) as nat)
    }
}

proof fn lemma_pow10_grows(a: nat, b: nat)
    requires
        a <= b,
    ensures
        pow10(a) <= pow10(b),
    decreases b - a,
{
    if a < b {
        lemma_pow10_grows(a, (b - 1) as nat);
    }
}

/// `10^e` where it fits in a `u64`.
pub fn power_of_ten(e: u8) -> (r: Option<u64>)
    ensures
        r == (if pow10(e as nat) <= u64::MAX {
            Some(pow10(e as nat) as u64)
        } else {
            None
        }),
{
    let mut acc: u64 = 1;
    let mut i: u8 = 0;
    while i < e
        invariant
            i <= e,
            acc == pow10(i as nat),
        decreases e - i,
    {
        match acc.checked_mul(10) {
            Some(v) => {
                acc = v;
            },
            None => {
                proof {
                    lemma_pow10_grows((i + 1) as nat, e as nat);
                }
                return None;
            },
        }
        i += 1;
    }
    Some(acc)
}

/// Decimal places of the mint: none for a unique item.
pub open spec fn decimals_of(data: TokenData) -> u8 {
    match data {
        TokenData::Fungible(p) => p.decimals,
        TokenData::FungibleAsset(p) => p.decimals,
        TokenData::NonFungible(_) => 0,
    }
}

/// Units issued to the holding account: the supply scaled to the mint's
/// decimal places for a currency, the quantity for an asset, one for a unique
/// item.
pub open spec fn amount_of(data: TokenData) -> int {
    match data {
        TokenData::Fungible(p) => p.initial_supply * pow10(p.decimals as nat),
        TokenData::FungibleAsset(p) => p.quantity as int,
        TokenData::NonFungible(_) => 1,
    }
}

/// The holding account is frozen after minting: on request for a currency,
/// always for an asset or a unique item.
pub open spec fn freezes(data: TokenData) -> bool {
    match data {
        TokenData::Fungible(p) => p.should_freeze_after_mint,
        _ => true,
    }
}

impl TokenData {
    /// Decimal places of the mint.
    pub fn decimals(&self) -> (r: u8)
        ensures
            r == decimals_of(*self),
    {
        match self {
            TokenData::Fungible(p) => p.decimals,
            TokenData::FungibleAsset(p) => p.decimals,
            TokenData::NonFungible(_) => 0,
        }
    }

    /// Units to issue, or `None` where they do not fit in a `u64`.
    pub fn mint_amount(&self) -> (r: Option<u64>)
        ensures
            r == (if amount_of(*self) <= u64::MAX {
                Some(amount_of(*self) as u64)
            } else {
                None
            }),
    {
        match self {
            TokenData::Fungible(p) => {
                if p.initial_supply == 0 {
                    return Some(0);
                }
                match power_of_ten(p.decimals) {
                    Some(scale) => p.initial_supply.checked_mul(scale),
                    None => {
                        let ghost s = p.initial_supply as int;
                        let ghost t = pow10(p.decimals as nat) as int;
                        assert(s * t > u64::MAX) by (nonlinear_arith)
                            requires
                                s >= 1,
                                t > u64::MAX,
                        ;
                        None
                    },
                }
            },
            TokenData::FungibleAsset(p) => Some(p.quantity),
            TokenData::NonFungible(_) => Some(1),
        }
    }

    /// Whether the holding account is frozen after minting.
    pub fn freezes_after_mint(&self) -> (r: bool)
        ensures
            r == freezes(*self),
    {
        match self {
            TokenData::Fungible(p) => p.should_freeze_after_mint,
            _ => true,
        }
    }
}

} // verus!
