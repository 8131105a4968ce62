use vstd::prelude::*;
use crate::address::Address;
use crate::data::{amount_of, decimals_of, freezes, TokenData};
use crate::descriptor::{descriptor_model, MintDescriptor};
use crate::resources::{
    accounts_at, programs_at, ConstructionError, MinterAccounts, MinterPrograms, ACCOUNT_COUNT,
    PROGRAM_COUNT,
};

verus! {

/// Size in bytes of a mint record.
pub const MINT_ACCOUNT_SIZE: u64 = 82;

/// Fewest resources a request needs: four records and five services.
pub const REQUIRED_RESOURCES: usize = 9;

/// The pipeline's steps, in the order in which they may run.
#[derive(Clone, Copy, Debug, PartialEq, Eq, Structural)]
pub enum StepKind {
    CreateMintAccount,
    InitializeMint,
    CreateTokenAccount,
    MintTo,
    FreezeAccount,
    CreateMetadata,
    CreateMasterEdition,
}

/// One ledger operation, with the parameters that the ledger needs.
#[derive(Clone, Debug, PartialEq, Eq)]
pub enum Step {
    /// Create the mint record, `space` bytes large and owned by the token
    /// service, funded by `payer` with the rent-exempt minimum for `space`.
    CreateMintAccount { payer: Address, mint: Address, space: u64, owner: Address },
    /// Set the mint's decimal places, mint authority and freeze authority.
    InitializeMint {
        mint: Address,
        mint_authority: Address,
        freeze_authority: Option<Address>,
        decimals: u8,
    },
    /// Create the associated holding account of `owner` for `mint`.
    CreateTokenAccount { payer: Address, owner: Address, mint: Address, account: Address },
    /// Issue `amount` units of `mint` to `destination`.
    MintTo { mint: Address, destination: Address, authority: Address, amount: u64 },
    /// Lock the holding account.
    FreezeAccount { mint: Address, account: Address, authority: Address },
    /// Register the metadata record of `mint`, with `authority` as update
    /// authority.
    CreateMetadata {
        metadata: Address,
        mint: Address,
        authority: Address,
        descriptor: MintDescriptor,
        is_mutable: bool,
    },
    /// Mark the mint as a unique master edition.
    CreateMasterEdition {
        edition: Address,
        metadata: Address,
        mint: Address,
        authority: Address,
        max_supply: Option<u64>,
    },
}

/// Why a step failed.
#[derive(Clone, Copy, Debug, PartialEq, Eq, Structural)]
pub enum Failure {
    /// The ledger refused the operation, with this error code.
    Ledger(u64),
    /// The units to issue do not fit in a `u64`.
    AmountOverflow,
    /// A creator or collection address is not a valid key.
    InvalidAddress,
    /// A unique item has no master-edition record.
    MasterEditionMissing,
}

/// The failing step and its cause.
#[derive(Clone, Copy, Debug, PartialEq, Eq, Structural)]
pub struct StepError {
    pub step: StepKind,
    pub cause: Failure,
}

/// What a run did: the steps that were handed to the ledger, in order, and
/// how the run ended.
#[derive(Debug, PartialEq, Eq)]
pub struct Execution {
    pub performed: Vec<Step>,
    pub outcome: Result<(), StepError>,
}

/// An issuance: a request over the resources that it writes and calls.
#[derive(Clone, Debug, PartialEq, Eq)]
pub struct Minter {
    pub accounts: MinterAccounts,
    pub programs: MinterPrograms,
    pub data: TokenData,
}

/// The kind of a step.
pub open spec fn kind_of(s: Step) -> StepKind {
    match s {
        Step::CreateMintAccount { .. } => StepKind::CreateMintAccount,
        Step::InitializeMint { .. } => StepKind::InitializeMint,
        Step::CreateTokenAccount { .. } => StepKind::CreateTokenAccount,
        Step::MintTo { .. } => StepKind::MintTo,
        Step::FreezeAccount { .. } => StepKind::FreezeAccount,
        Step::CreateMetadata { .. } => StepKind::CreateMetadata,
        Step::CreateMasterEdition { .. } => StepKind::CreateMasterEdition,
    }
}

/// The steps of a request, in order: create and initialize the mint, create
/// the holding account, mint, freeze where the request freezes, register the
/// metadata, and for a unique item create the master edition.
pub open spec fn step_kinds(data: TokenData) -> Seq<StepKind> {
    seq![StepKind::CreateMintAccount, StepKind::InitializeMint, StepKind::CreateTokenAccount, StepKind::MintTo]
        + (if freezes(data) {
        seq![StepKind::FreezeAccount]
    } else {
        Seq::empty()
    }) + seq![StepKind::CreateMetadata] + (if data is NonFungible {
        seq![StepKind::CreateMasterEdition]
    } else {
        Seq::empty()
    })
}

/// The edition record is read from the resource list: only for a unique item,
/// and only where the list holds one more than the required resources.
pub open spec fn takes_edition(data: TokenData, count: int) -> bool {
    data is NonFungible && count > REQUIRED_RESOURCES
}

/// The issuance that a resource list and a request make.
pub open spec fn layout(resources: Seq<Address>, data: TokenData) -> Minter {
    let with_edition = takes_edition(data, resources.len() as int);
    Minter {
        accounts: accounts_at(resources, with_edition),
        programs: programs_at(
            resources,
            if with_edition {
                ACCOUNT_COUNT + 1
            } else {
                ACCOUNT_COUNT as int
            },
        ),
        data,
    }
}

impl Minter {
    /// The failure that a step meets before it reaches the ledger, if any.
    pub open spec fn failure_before(self, kind: StepKind) -> Option<Failure> {
        match kind {
            StepKind::MintTo => if amount_of(self.data) > u64::MAX {
                Some(Failure::AmountOverflow)
            } else {
                None
            },
            StepKind::CreateMetadata => if descriptor_model(self.data) is None {
                Some(Failure::InvalidAddress)
            } else {
                None
            },
            StepKind::CreateMasterEdition => if self.accounts.master_edition is None {
                Some(Failure::MasterEditionMissing)
            } else {
                None
            },
            _ => None,
        }
    }

    /// `s` carries the parameters that this issuance owes its kind of step.
    pub open spec fn owes(self, s: Step) -> bool {
        let a = self.accounts;
        let authority = a.mint_authority;
        match s {
            Step::CreateMintAccount { payer, mint, space, owner } => payer == authority && mint
                == a.mint && space == MINT_ACCOUNT_SIZE && owner == self.programs.token,
            Step::InitializeMint { mint, mint_authority, freeze_authority, decimals } => mint
                == a.mint && mint_authority == authority && freeze_authority == Some(authority)
                && decimals == decimals_of(self.data),
            Step::CreateTokenAccount { payer, owner, mint, account } => payer == authority
                && owner == authority && mint == a.mint && account == a.token,
            Step::MintTo { mint, destination, authority: signer, amount } => mint == a.mint
                && destination == a.token && signer == authority && amount == amount_of(
                self.data,
            ),
            Step::FreezeAccount { mint, account, authority: signer } => mint == a.mint && account
                == a.token && signer == authority,
            Step::CreateMetadata { metadata, mint, authority: signer, descriptor, is_mutable } => {
                metadata == a.metadata && mint == a.mint && signer == authority
                    && descriptor_model(self.data) == Some(descriptor@) && !is_mutable
            },
            Step::CreateMasterEdition { edition, metadata, mint, authority: signer, max_supply } => {
                a.master_edition == Some(edition) && metadata == a.metadata && mint == a.mint
                    && signer == authority && max_supply is None
            },
        }
    }

    /// Builds an issuance from a positional resource list: mint, holding
    /// account, authority, metadata record, the edition record for a unique
    /// item where the list has room for it, then the rent, system, token,
    /// associated-account and metadata services. Fails exactly when the list
    /// is shorter than the required resources.
    pub fn try_new(resources: &[Address], data: TokenData) -> (r: Result<Minter, ConstructionError>)
        ensures
            match r {
                Ok(m) => resources@.len() >= REQUIRED_RESOURCES && m == layout(resources@, data),
                Err(e) => resources@.len() < REQUIRED_RESOURCES && e
                    == ConstructionError::MissingResource,
            },
    {
        if resources.len() < REQUIRED_RESOURCES {
            return Err(ConstructionError::MissingResource);
        }
        let with_edition = match &data {
            TokenData::NonFungible(_) => resources.len() > REQUIRED_RESOURCES,
            _ => false,
        };
        let accounts = match MinterAccounts::try_new(resources, with_edition) {
            Ok(a) => a,
            Err(e) => {
                return Err(e);
            },
        };
        let start: usize = if with_edition {
            ACCOUNT_COUNT + 1
        } else {
            ACCOUNT_COUNT
        };
        let programs = match MinterPrograms::try_new(resources, start) {
            Ok(p) => p,
            Err(e) => {
                return Err(e);
            },
        };
        Ok(Minter { accounts, programs, data })
    }

    fn create_mint_account(&self) -> (r: Step)
        ensures
            kind_of(r) == StepKind::CreateMintAccount,
            self.owes(r),
    {
        Step::CreateMintAccount {
            payer: self.accounts.mint_authority,
            mint: self.accounts.mint,
            space: MINT_ACCOUNT_SIZE,
            owner: self.programs.token,
        }
    }

    fn initialize_mint(&self) -> (r: Step)
        ensures
            kind_of(r) == StepKind::InitializeMint,
            self.owes(r),
    {
        Step::InitializeMint {
            mint: self.accounts.mint,
            mint_authority: self.accounts.mint_authority,
            freeze_authority: Some(self.accounts.mint_authority),
            decimals: self.data.decimals(),
        }
    }

    fn create_token_account(&self) -> (r: Step)
        ensures
            kind_of(r) == StepKind::CreateTokenAccount,
            self.owes(r),
    {
        Step::CreateTokenAccount {
            payer: self.accounts.mint_authority,
            owner: self.accounts.mint_authority,
            mint: self.accounts.mint,
            account: self.accounts.token,
        }
    }

    fn mint(&self) -> (r: Result<Step, StepError>)
        ensures
            match r {
                Ok(s) => kind_of(s) == StepKind::MintTo && self.owes(s) && self.failure_before(
                    StepKind::MintTo,
                ) is None,
                Err(e) => e.step == StepKind::MintTo && self.failure_before(StepKind::MintTo)
                    == Some(e.cause),
            },
    {
        match self.data.mint_amount() {
            Some(amount) => Ok(
                Step::MintTo {
                    mint: self.accounts.mint,
                    destination: self.accounts.token,
                    authority: self.accounts.mint_authority,
                    amount,
                },
            ),
            None => Err(StepError { step: StepKind::MintTo, cause: Failure::AmountOverflow }),
        }
    }

    fn freeze(&self) -> (r: Step)
        ensures
            kind_of(r) == StepKind::FreezeAccount,
            self.owes(r),
    {
        Step::FreezeAccount {
            mint: self.accounts.mint,
            account: self.accounts.token,
            authority: self.accounts.mint_authority,
        }
    }

    fn create_metadata_account(&self) -> (r: Result<Step, StepError>)
        ensures
            match r {
                Ok(s) => kind_of(s) == StepKind::CreateMetadata && self.owes(s)
                    && self.failure_before(StepKind::CreateMetadata) is None,
                Err(e) => e.step == StepKind::CreateMetadata && self.failure_before(
                    StepKind::CreateMetadata,
                ) == Some(e.cause),
            },
    {
        match MintDescriptor::from_token_data(&self.data) {
            Ok(descriptor) => Ok(
                Step::CreateMetadata {
                    metadata: self.accounts.metadata,
                    mint: self.accounts.mint,
                    authority: self.accounts.mint_authority,
                    descriptor,
                    is_mutable: false,
                },
            ),
            Err(_) => Err(StepError { step: StepKind::CreateMetadata, cause: Failure::InvalidAddress }),
        }
    }

    fn create_master_edition(&self) -> (r: Result<Step, StepError>)
        ensures
            match r {
                Ok(s) => kind_of(s) == StepKind::CreateMasterEdition && self.owes(s)
                    && self.failure_before(StepKind::CreateMasterEdition) is None,
                Err(e) => e.step == StepKind::CreateMasterEdition && self.failure_before(
                    StepKind::CreateMasterEdition,
                ) == Some(e.cause),
            },
    {
        match self.accounts.master_edition {
            Some(edition) => Ok(
                Step::CreateMasterEdition {
                    edition,
                    metadata: self.accounts.metadata,
                    mint: self.accounts.mint,
                    authority: self.accounts.mint_authority,
                    max_supply: None,
                },
            ),
            None => Err(
                StepError { step: StepKind::CreateMasterEdition, cause: Failure::MasterEditionMissing },
            ),
        }
    }

    /// `ex` is what a run of this issuance does against `ledger`: the steps
    /// handed to the ledger are a prefix of the pipeline, each with the
    /// parameters owed to it, and each but the last accepted by the ledger.
    /// The run succeeds when every step of the pipeline was accepted; it fails
    /// with the first step that fails before it reaches the ledger, or with the
    /// last step handed over, which the ledger refused with the code given.
    pub open spec fn executes<F: Fn(&Step) -> Result<(), u64>>(self, ledger: F, ex: Execution) -> bool {
        let kinds = step_kinds(self.data);
        let done = ex.performed@;
        let n = done.len() as int;
        &&& n <= kinds.len()
        &&& forall|i: int|
            0 <= i < n ==> kind_of(#[trigger] done[i]) == kinds[i] && self.owes(done[i])
                && self.failure_before(kinds[i]) is None
        &&& forall|i: int| 0 <= i < n - 1 ==> call_ensures(ledger, (&done[i],), Ok(()))
        &&& match ex.outcome {
            Ok(()) => n == kinds.len() && (n > 0 ==> call_ensures(ledger, (&done[n - 1],), Ok(()))),
            Err(e) => {
                ||| n < kinds.len() && e.step == kinds[n] && self.failure_before(kinds[n]) == Some(
                    e.cause,
                ) && (n > 0 ==> call_ensures(ledger, (&done[n - 1],), Ok(())))
                ||| n > 0 && e.step == kinds[n - 1] && (e.cause matches Failure::Ledger(code)
                    && call_ensures(ledger, (&done[n - 1],), Err(code)))
            },
        }
    }

    /// Runs the pipeline: hands each step in turn to `ledger`, and stops at
    /// the first step that fails, without undoing the steps before it.
    pub fn run<F: Fn(&Step) -> Result<(), u64>>(&self, ledger: F) -> (r: Execution)
        requires
            forall|s: Step| call_requires(ledger, (&s,)),
        ensures
            self.executes(ledger, r),
    {
        let kinds = self.pipeline();
        let mut performed: Vec<Step> = Vec::new();
        let mut i: usize = 0;
        while i < kinds.len()
            invariant
                kinds@ == step_kinds(self.data),
                i <= kinds@.len(),
                performed@.len() == i,
                forall|s: Step| call_requires(ledger, (&s,)),
                forall|j: int|
                    0 <= j < i ==> kind_of(#[trigger] performed@[j]) == kinds@[j] && self.owes(
                        performed@[j],
                    ) && self.failure_before(kinds@[j]) is None,
                forall|j: int| 0 <= j < i ==> call_ensures(ledger, (&performed@[j],), Ok(())),
            decreases kinds.len() - i,
        {
            let step = match self.step_for(kinds[i]) {
                Ok(s) => s,
                Err(e) => {
                    return Execution { performed, outcome: Err(e) };
                },
            };
            let result = ledger(&step);
            performed.push(step);
            match result {
                Ok(u) => {
                    assert(u == ());
                    assert(result == Ok::<(), u64>(()));
                },
                Err(code) => {
                    return Execution {
                        performed,
                        outcome: Err(StepError { step: kinds[i], cause: Failure::Ledger(code) }),
                    };
                },
            }
            i += 1;
        }
        Execution { performed, outcome: Ok(()) }
    }

    /// The steps of this issuance, in the order in which they run.
    pub fn pipeline(&self) -> (r: Vec<StepKind>)
        ensures
            r@ == step_kinds(self.data),
    {
        let mut kinds: Vec<StepKind> = Vec::new();
        kinds.push(StepKind::CreateMintAccount);
        kinds.push(StepKind::InitializeMint);
        kinds.push(StepKind::CreateTokenAccount);
        kinds.push(StepKind::MintTo);
        if self.data.freezes_after_mint() {
            kinds.push(StepKind::FreezeAccount);
        }
        kinds.push(StepKind::CreateMetadata);
        if let TokenData::NonFungible(_) = &self.data {
            kinds.push(StepKind::CreateMasterEdition);
        }
        assert(kinds@ =~= step_kinds(self.data));
        kinds
    }

    /// The ledger operation of one kind of step, or the failure that it meets
    /// before it reaches the ledger.
    pub fn step_for(&self, kind: StepKind) -> (r: Result<Step, StepError>)
        ensures
            match r {
                Ok(s) => kind_of(s) == kind && self.owes(s) && self.failure_before(kind) is None,
                Err(e) => e.step == kind && self.failure_before(kind) == Some(e.cause),
            },
    {
        match kind {
            StepKind::CreateMintAccount => Ok(self.create_mint_account()),
            StepKind::InitializeMint => Ok(self.initialize_mint()),
            StepKind::CreateTokenAccount => Ok(self.create_token_account()),
            StepKind::MintTo => self.mint(),
            StepKind::FreezeAccount => Ok(self.freeze()),
            StepKind::CreateMetadata => self.create_metadata_account(),
            StepKind::CreateMasterEdition => self.create_master_edition(),
        }
    }
}

} // verus!
