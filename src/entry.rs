use vstd::prelude::*;
use crate::address::Address;
use crate::data::TokenData;
use crate::minter::{layout, Execution, Minter, Step, REQUIRED_RESOURCES};
use crate::resources::ConstructionError;

verus! {

/// Why an issuance did not start.
#[derive(Clone, Copy, Debug, PartialEq, Eq, Structural)]
pub enum MintError {
    /// The request is of another kind than the entry point issues.
    VariantMismatch,
    /// The resource list is too short.
    Construction(ConstructionError),
}

/// What an entry point owes for a request of the kind it accepts.
pub open spec fn issues<F: Fn(&Step) -> Result<(), u64>>(
    resources: Seq<Address>,
    data: TokenData,
    ledger: F,
    r: Result<Execution, MintError>,
) -> bool {
    if resources.len() < REQUIRED_RESOURCES {
        r == Err::<Execution, MintError>(MintError::Construction(ConstructionError::MissingResource))
    } else {
        r matches Ok(ex) && layout(resources, data).executes(ledger, ex)
    }
}

fn issue<F: Fn(&Step) -> Result<(), u64>>(resources: &[Address], data: TokenData, ledger: F) -> (r:
    Result<Execution, MintError>)
    requires
        forall|s: Step| call_requires(ledger, (&s,)),
    ensures
        issues(resources@, data, ledger, r),
{
    match Minter::try_new(resources, data) {
        Ok(minter) => Ok(minter.run(ledger)),
        Err(e) => Err(MintError::Construction(e)),
    }
}

/// Issues a fungible currency; any other request is refused before any step.
pub fn mint_fungible_token<F: Fn(&Step) -> Result<(), u64>>(
    resources: &[Address],
    data: TokenData,
    ledger: F,
) -> (r: Result<Execution, MintError>)
    requires
        forall|s: Step| call_requires(ledger, (&s,)),
    ensures
        !(data is Fungible) ==> r == Err::<Execution, MintError>(MintError::VariantMismatch),
        data is Fungible ==> issues(resources@, data, ledger, r),
{
    if let TokenData::Fungible(_) = &data {
        issue(resources, data, ledger)
    } else {
        Err(MintError::VariantMismatch)
    }
}

/// Issues a semi-fungible asset; any other request is refused before any
/// step.
pub fn mint_fungible_asset<F: Fn(&Step) -> Result<(), u64>>(
    resources: &[Address],
    data: TokenData,
    ledger: F,
) -> (r: Result<Execution, MintError>)
    requires
        forall|s: Step| call_requires(ledger, (&s,)),
    ensures
        !(data is FungibleAsset) ==> r == Err::<Execution, MintError>(MintError::VariantMismatch),
        data is FungibleAsset ==> issues(resources@, data, ledger, r),
{
    if let TokenData::FungibleAsset(_) = &data {
        issue(resources, data, ledger)
    } else {
        Err(MintError::VariantMismatch)
    }
}

/// Issues a unique item; any other request is refused before any step.
pub fn mint_nft<F: Fn(&Step) -> Result<(), u64>>(
    resources: &[Address],
    data: TokenData,
    ledger: F,
) -> (r: Result<Execution, MintError>)
    requires
        forall|s: Step| call_requires(ledger, (&s,)),
    ensures
        !(data is NonFungible) ==> r == Err::<Execution, MintError>(MintError::VariantMismatch),
        data is NonFungible ==> issues(resources@, data, ledger, r),
{
    if let TokenData::NonFungible(_) = &data {
        issue(resources, data, ledger)
    } else {
        Err(MintError::VariantMismatch)
    }
}

} // verus!
