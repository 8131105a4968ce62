use vstd::prelude::*;
use crate::address::Address;

verus! {

/// The records that an issuance writes: the mint, the holding account, the
/// authority that signs and pays, the metadata record and, for unique items,
/// the master-edition record.
#[derive(Clone, Copy, Debug, PartialEq, Eq)]
pub struct MinterAccounts {
    pub mint: Address,
    pub token: Address,
    pub mint_authority: Address,
    pub metadata: Address,
    pub master_edition: Option<Address>,
}

/// The services that an issuance calls.
#[derive(Clone, Copy, Debug, PartialEq, Eq)]
pub struct MinterPrograms {
    pub rent: Address,
    pub system: Address,
    pub token: Address,
    pub associated_token: Address,
    pub metadata: Address,
}

/// The resource list is too short for the positional layout.
#[derive(Clone, Copy, Debug, PartialEq, Eq, Structural)]
pub enum ConstructionError {
    MissingResource,
}

/// Number of records before the services, without an edition record.
pub const ACCOUNT_COUNT: usize = 4;

/// Number of services.
pub const PROGRAM_COUNT: usize = 5;

/// The records read from the front of a resource list, the edition record
/// fifth where one is expected.
pub open spec fn accounts_at(resources: Seq<Address>, with_edition: bool) -> MinterAccounts {
    MinterAccounts {
        mint: resources[0],
        token: resources[1],
        mint_authority: resources[2],
        metadata: resources[3],
        master_edition: if with_edition {
            Some(resources[4])
        } else {
            None
        },
    }
}

/// The services read from a resource list from position `start` on.
pub open spec fn programs_at(resources: Seq<Address>, start: int) -> MinterPrograms {
    MinterPrograms {
        rent: resources[start],
        system: resources[start + 1],
        token: resources[start + 2],
        associated_token: resources[start + 3],
        metadata: resources[start + 4],
    }
}

impl MinterAccounts {
    /// Reads mint, holding account, authority and metadata record, then the
    /// edition record when `with_edition` holds.
    pub fn try_new(resources: &[Address], with_edition: bool) -> (r: Result<
        MinterAccounts,
        ConstructionError,
    >)
        ensures
            match r {
                Ok(a) => resources@.len() >= ACCOUNT_COUNT + (if with_edition {
                    1int
                } else {
                    0
                }) && a == accounts_at(resources@, with_edition),
                Err(e) => resources@.len() < ACCOUNT_COUNT + (if with_edition {
                    1int
                } else {
                    0
                }) && e == ConstructionError::MissingResource,
            },
    {
        let needed: usize = if with_edition {
            ACCOUNT_COUNT + 1
        } else {
            ACCOUNT_COUNT
        };
        if resources.len() < needed {
            return Err(ConstructionError::MissingResource);
        }
        let master_edition = if with_edition {
            Some(resources[4])
        } else {
            None
        };
        Ok(
            MinterAccounts {
                mint: resources[0],
                token: resources[1],
                mint_authority: resources[2],
                metadata: resources[3],
                master_edition,
            },
        )
    }
}

impl MinterPrograms {
    /// Reads the rent, system, token, associated-account and metadata
    /// services from position `start` on.
    pub fn try_new(resources: &[Address], start: usize) -> (r: Result<
        MinterPrograms,
        ConstructionError,
    >)
        ensures
            match r {
                Ok(p) => resources@.len() >= start + PROGRAM_COUNT && p == programs_at(
                    resources@,
                    start as int,
                ),
                Err(e) => resources@.len() < start + PROGRAM_COUNT && e
                    == ConstructionError::MissingResource,
            },
    {
        if resources.len() < start || resources.len() - start < PROGRAM_COUNT {
            return Err(ConstructionError::MissingResource);
        }
        Ok(
            MinterPrograms {
                rent: resources[start],
                system: resources[start + 1],
                token: resources[start + 2],
                associated_token: resources[start + 3],
                metadata: resources[start + 4],
            },
        )
    }
}

/// The named accounts of a currency or asset issuance.
#[derive(Clone, Copy, Debug, PartialEq, Eq)]
pub struct MintFungible {
    pub mint: Address,
    pub token: Address,
    pub mint_authority: Address,
    pub metadata: Address,
    pub rent: Address,
    pub system_program: Address,
    pub token_program: Address,
    pub associated_token_program: Address,
    pub metadata_program: Address,
}

/// The named accounts of a unique-item issuance, edition record included.
#[derive(Clone, Copy, Debug, PartialEq, Eq)]
pub struct MintNonFungible {
    pub mint: Address,
    pub token: Address,
    pub mint_authority: Address,
    pub metadata: Address,
    pub master_edition: Address,
    pub rent: Address,
    pub system_program: Address,
    pub token_program: Address,
    pub associated_token_program: Address,
    pub metadata_program: Address,
}

impl<'a> From<&'a MintFungible> for MinterAccounts {
    fn from(value: &'a MintFungible) -> (r: MinterAccounts) {
        MinterAccounts {
            mint: value.mint,
            token: value.token,
            mint_authority: value.mint_authority,
            metadata: value.metadata,
            master_edition: None,
        }
    }
}

impl<'a> vstd::std_specs::convert::FromSpecImpl<&'a MintFungible> for MinterAccounts {
    open spec fn obeys_from_spec() -> bool {
        true
    }

    open spec fn from_spec(value: &'a MintFungible) -> MinterAccounts {
        MinterAccounts {
            mint: value.mint,
            token: value.token,
            mint_authority: value.mint_authority,
            metadata: value.metadata,
            master_edition: None,
        }
    }
}

impl<'a> From<&'a MintNonFungible> for MinterAccounts {
    fn from(value: &'a MintNonFungible) -> (r: MinterAccounts) {
        MinterAccounts {
            mint: value.mint,
            token: value.token,
            mint_authority: value.mint_authority,
            metadata: value.metadata,
            master_edition: Some(value.master_edition),
        }
    }
}

impl<'a> vstd::std_specs::convert::FromSpecImpl<&'a MintNonFungible> for MinterAccounts {
    open spec fn obeys_from_spec() -> bool {
        true
    }

    open spec fn from_spec(value: &'a MintNonFungible) -> MinterAccounts {
        MinterAccounts {
            mint: value.mint,
            token: value.token,
            mint_authority: value.mint_authority,
            metadata: value.metadata,
            master_edition: Some(value.master_edition),
        }
    }
}

impl<'a> From<&'a MintFungible> for MinterPrograms {
    fn from(value: &'a MintFungible) -> (r: MinterPrograms) {
        MinterPrograms {
            rent: value.rent,
            system: value.system_program,
            token: value.token_program,
            associated_token: value.associated_token_program,
            metadata: value.metadata_program,
        }
    }
}

impl<'a> vstd::std_specs::convert::FromSpecImpl<&'a MintFungible> for MinterPrograms {
    open spec fn obeys_from_spec() -> bool {
        true
    }

    open spec fn from_spec(value: &'a MintFungible) -> MinterPrograms {
        MinterPrograms {
            rent: value.rent,
            system: value.system_program,
            token: value.token_program,
            associated_token: value.associated_token_program,
            metadata: value.metadata_program,
        }
    }
}

impl<'a> From<&'a MintNonFungible> for MinterPrograms {
    fn from(value: &'a MintNonFungible) -> (r: MinterPrograms) {
        MinterPrograms {
            rent: value.rent,
            system: value.system_program,
            token: value.token_program,
            associated_token: value.associated_token_program,
            metadata: value.metadata_program,
        }
    }
}

impl<'a> vstd::std_specs::convert::FromSpecImpl<&'a MintNonFungible> for MinterPrograms {
    open spec fn obeys_from_spec() -> bool {
        true
    }

    open spec fn from_spec(value: &'a MintNonFungible) -> MinterPrograms {
        MinterPrograms {
            rent: value.rent,
            system: value.system_program,
            token: value.token_program,
            associated_token: value.associated_token_program,
            metadata: value.metadata_program,
        }
    }
}

} // verus!
