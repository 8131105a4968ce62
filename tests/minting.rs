use std::str::FromStr;
use tokens::address::Address;
use tokens::data::{
    FungibleAssetMetadata, FungibleAssetParams, FungibleTokenMetadata, FungibleTokenParams,
    NonFungibleTokenMetadata, NonFungibleTokenParams, TokenData,
};
use tokens::descriptor::{Collection, Creator, UseMethod, Uses};
use tokens::entry::{mint_fungible_asset, mint_fungible_token, mint_nft, MintError};
use tokens::minter::{Failure, Minter, Step, StepError, StepKind, MINT_ACCOUNT_SIZE};
use tokens::resources::ConstructionError;

const CREATOR_A: &str = "TokenkegQfeZyiNwAJbNbGKPFXCWuBvf9Ss623VQ5DA";
const CREATOR_B: &str = "ATokenGPvbdGVxr1b2hvZbsiqW5xWH25efTNsLJA8knL";
const CREATOR_C: &str = "metaqbxxUerdq28cj1RbAWkYQm3ybzjb6a8bt518x1s";
const COLLECTION_D: &str = "SysvarRent111111111111111111111111111111111";

fn key(text: &str) -> Address {
    solana_program::pubkey::Pubkey::from_str(text).unwrap().to_bytes()
}

fn resources(n: usize) -> Vec<Address> {
    (0..n).map(|i| [i as u8 + 1; 32]).collect()
}

fn accept_all(_step: &Step) -> Result<(), u64> {
    Ok(())
}

fn kinds(steps: &[Step]) -> Vec<StepKind> {
    steps
        .iter()
        .map(|s| match s {
            Step::CreateMintAccount { .. } => StepKind::CreateMintAccount,
            Step::InitializeMint { .. } => StepKind::InitializeMint,
            Step::CreateTokenAccount { .. } => StepKind::CreateTokenAccount,
            Step::MintTo { .. } => StepKind::MintTo,
            Step::FreezeAccount { .. } => StepKind::FreezeAccount,
            Step::CreateMetadata { .. } => StepKind::CreateMetadata,
            Step::CreateMasterEdition { .. } => StepKind::CreateMasterEdition,
        })
        .collect()
}

fn jbc(freeze: bool) -> TokenData {
    let token_metadata = FungibleTokenMetadata {
        symbol: String::from("JBC"),
        name: String::from("Jogo do Bicho Coin"),
        uri: String::from("https://gateway.pinata.cloud/ipfs/bafkreicrswd7o45wtlkkvqijr7w7ksvugjjww5ylwopb32wqvs5cihp4lm"),
    };
    TokenData::Fungible(FungibleTokenParams {
        metadata: token_metadata,
        decimals: 9,
        initial_supply: 1_000_000,
        should_freeze_after_mint: freeze,
    })
}

fn asset(decimals: u8, quantity: u64, uses: u64) -> TokenData {
    TokenData::FungibleAsset(FungibleAssetParams {
        decimals,
        quantity,
        metadata: FungibleAssetMetadata {
            name: String::from("Ticket"),
            symbol: String::from("TKT"),
            uri: String::from("ipfs://ticket"),
            uses,
        },
    })
}

fn nft(creators: Option<Vec<&str>>, collection: Option<&str>) -> TokenData {
    TokenData::NonFungible(NonFungibleTokenParams {
        metadata: NonFungibleTokenMetadata {
            name: String::from("Bicho"),
            symbol: String::from("BCH"),
            uri: String::from("ipfs://bicho"),
            seller_fee_basis_points: 500,
            creators_addresses: creators.map(|v| v.into_iter().map(String::from).collect()),
            collection_address: collection.map(String::from),
        },
    })
}

#[test]
fn test_fungible_token_mint() {
    let res = resources(9);
    let ex = mint_fungible_token(&res, jbc(true), accept_all).unwrap();
    assert_eq!(ex.outcome, Ok(()));
    assert_eq!(
        kinds(&ex.performed),
        vec![
            StepKind::CreateMintAccount,
            StepKind::InitializeMint,
            StepKind::CreateTokenAccount,
            StepKind::MintTo,
            StepKind::FreezeAccount,
            StepKind::CreateMetadata,
        ]
    );
    let (mint, token, authority, metadata) = (res[0], res[1], res[2], res[3]);
    assert_eq!(
        ex.performed[0],
        Step::CreateMintAccount { payer: authority, mint, space: MINT_ACCOUNT_SIZE, owner: res[6] }
    );
    assert_eq!(
        ex.performed[1],
        Step::InitializeMint { mint, mint_authority: authority, freeze_authority: Some(authority), decimals: 9 }
    );
    assert_eq!(
        ex.performed[2],
        Step::CreateTokenAccount { payer: authority, owner: authority, mint, account: token }
    );
    assert_eq!(
        ex.performed[3],
        Step::MintTo { mint, destination: token, authority, amount: 1_000_000_000_000_000 }
    );
    assert_eq!(ex.performed[4], Step::FreezeAccount { mint, account: token, authority });
    match &ex.performed[5] {
        Step::CreateMetadata { metadata: m, mint: t, authority: a, descriptor, is_mutable } => {
            assert_eq!((*m, *t, *a, *is_mutable), (metadata, mint, authority, false));
            assert_eq!(descriptor.name, "Jogo do Bicho Coin");
            assert_eq!(descriptor.symbol, "JBC");
            assert_eq!(descriptor.seller_fee_basis_points, 0);
            assert_eq!(descriptor.uses, None);
            assert_eq!(descriptor.creators, None);
            assert_eq!(descriptor.collection, None);
        }
        other => panic!("unexpected step {:?}", other),
    }
}

#[test]
fn test_fungible_asset_mint() {
    let res = resources(9);
    let ex = mint_fungible_asset(&res, asset(2, 40, 3), accept_all).unwrap();
    assert_eq!(ex.outcome, Ok(()));
    assert_eq!(
        kinds(&ex.performed),
        vec![
            StepKind::CreateMintAccount,
            StepKind::InitializeMint,
            StepKind::CreateTokenAccount,
            StepKind::MintTo,
            StepKind::FreezeAccount,
            StepKind::CreateMetadata,
        ]
    );
    match &ex.performed[3] {
        Step::MintTo { amount, .. } => assert_eq!(*amount, 40),
        other => panic!("unexpected step {:?}", other),
    }
    match &ex.performed[1] {
        Step::InitializeMint { decimals, .. } => assert_eq!(*decimals, 2),
        other => panic!("unexpected step {:?}", other),
    }
    match &ex.performed[5] {
        Step::CreateMetadata { descriptor, .. } => assert_eq!(
            descriptor.uses,
            Some(Uses { use_method: UseMethod::Burn, remaining: 3, total: 3 })
        ),
        other => panic!("unexpected step {:?}", other),
    }
}

#[test]
fn test_non_fungible_token_mint() {
    let res = resources(10);
    let data = nft(Some(vec![CREATOR_A, CREATOR_B, CREATOR_C]), Some(COLLECTION_D));
    let ex = mint_nft(&res, data, accept_all).unwrap();
    assert_eq!(ex.outcome, Ok(()));
    assert_eq!(
        kinds(&ex.performed),
        vec![
            StepKind::CreateMintAccount,
            StepKind::InitializeMint,
            StepKind::CreateTokenAccount,
            StepKind::MintTo,
            StepKind::FreezeAccount,
            StepKind::CreateMetadata,
            StepKind::CreateMasterEdition,
        ]
    );
    match &ex.performed[1] {
        Step::InitializeMint { decimals, .. } => assert_eq!(*decimals, 0),
        other => panic!("unexpected step {:?}", other),
    }
    match &ex.performed[3] {
        Step::MintTo { amount, .. } => assert_eq!(*amount, 1),
        other => panic!("unexpected step {:?}", other),
    }
    match &ex.performed[5] {
        Step::CreateMetadata { descriptor, .. } => {
            assert_eq!(descriptor.seller_fee_basis_points, 500);
            assert_eq!(
                descriptor.creators,
                Some(vec![
                    Creator { address: key(CREATOR_A), verified: false, share: 33 },
                    Creator { address: key(CREATOR_B), verified: false, share: 33 },
                    Creator { address: key(CREATOR_C), verified: false, share: 33 },
                ])
            );
            assert_eq!(descriptor.collection, Some(Collection { verified: false, key: key(COLLECTION_D) }));
            assert_eq!(descriptor.uses, None);
        }
        other => panic!("unexpected step {:?}", other),
    }
    assert_eq!(
        ex.performed[6],
        Step::CreateMasterEdition {
            edition: res[4],
            metadata: res[3],
            mint: res[0],
            authority: res[2],
            max_supply: None,
        }
    );
}

#[test]
fn nft_without_edition_fails_at_master_edition() {
    let res = resources(9);
    let data = nft(Some(vec![CREATOR_A, CREATOR_B, CREATOR_C]), Some(COLLECTION_D));
    let ex = mint_nft(&res, data, accept_all).unwrap();
    assert_eq!(
        ex.outcome,
        Err(StepError { step: StepKind::CreateMasterEdition, cause: Failure::MasterEditionMissing })
    );
    assert_eq!(ex.performed.len(), 6);
    assert_eq!(kinds(&ex.performed)[5], StepKind::CreateMetadata);
}

#[test]
fn fungible_without_freeze_never_freezes() {
    let minter = Minter::try_new(&resources(9), jbc(false)).unwrap();
    let ex = minter.run(accept_all);
    assert_eq!(ex.outcome, Ok(()));
    assert_eq!(
        kinds(&ex.performed),
        vec![
            StepKind::CreateMintAccount,
            StepKind::InitializeMint,
            StepKind::CreateTokenAccount,
            StepKind::MintTo,
            StepKind::CreateMetadata,
        ]
    );
    assert_eq!(minter.pipeline(), kinds(&ex.performed));
}

#[test]
fn ledger_refusal_stops_the_run() {
    let minter = Minter::try_new(&resources(9), jbc(true)).unwrap();
    let ex = minter.run(|s: &Step| match s {
        Step::InitializeMint { .. } => Err(7),
        _ => Ok(()),
    });
    assert_eq!(ex.outcome, Err(StepError { step: StepKind::InitializeMint, cause: Failure::Ledger(7) }));
    assert_eq!(kinds(&ex.performed), vec![StepKind::CreateMintAccount, StepKind::InitializeMint]);
}

#[test]
fn amount_overflow_stops_before_mint() {
    let data = TokenData::Fungible(FungibleTokenParams {
        decimals: 20,
        initial_supply: 1,
        should_freeze_after_mint: true,
        metadata: FungibleTokenMetadata {
            name: String::from("Big"),
            symbol: String::from("BIG"),
            uri: String::from("ipfs://big"),
        },
    });
    let ex = Minter::try_new(&resources(9), data).unwrap().run(accept_all);
    assert_eq!(ex.outcome, Err(StepError { step: StepKind::MintTo, cause: Failure::AmountOverflow }));
    assert_eq!(ex.performed.len(), 3);
}

#[test]
fn invalid_creator_address_stops_at_metadata() {
    let data = nft(Some(vec![CREATOR_A, "not a key"]), None);
    let ex = Minter::try_new(&resources(10), data).unwrap().run(accept_all);
    assert_eq!(ex.outcome, Err(StepError { step: StepKind::CreateMetadata, cause: Failure::InvalidAddress }));
    assert_eq!(ex.performed.len(), 5);
}

#[test]
fn entry_points_refuse_other_kinds() {
    let res = resources(10);
    assert_eq!(mint_nft(&res, jbc(true), accept_all), Err(MintError::VariantMismatch));
    assert_eq!(mint_fungible_token(&res, asset(0, 1, 0), accept_all), Err(MintError::VariantMismatch));
    assert_eq!(mint_fungible_asset(&res, nft(None, None), accept_all), Err(MintError::VariantMismatch));
    assert_eq!(
        mint_fungible_token(&resources(8), jbc(true), accept_all),
        Err(MintError::Construction(ConstructionError::MissingResource))
    );
}

#[test]
fn construction_needs_every_required_resource() {
    for data in [jbc(true), asset(0, 1, 0), nft(None, None)] {
        for n in 0..9 {
            assert_eq!(
                Minter::try_new(&resources(n), data.clone()),
                Err(ConstructionError::MissingResource)
            );
        }
        assert!(Minter::try_new(&resources(9), data.clone()).is_ok());
    }
}

#[test]
fn construction_reads_positions() {
    let res = resources(10);
    let m = Minter::try_new(&res[..9], jbc(true)).unwrap();
    assert_eq!(m.accounts.master_edition, None);
    assert_eq!(m.programs.rent, res[4]);
    assert_eq!(m.programs.metadata, res[8]);
    let m = Minter::try_new(&res, jbc(true)).unwrap();
    assert_eq!(m.accounts.master_edition, None);
    assert_eq!(m.programs.rent, res[4]);
    let m = Minter::try_new(&res, nft(None, None)).unwrap();
    assert_eq!(m.accounts.mint, res[0]);
    assert_eq!(m.accounts.token, res[1]);
    assert_eq!(m.accounts.mint_authority, res[2]);
    assert_eq!(m.accounts.metadata, res[3]);
    assert_eq!(m.accounts.master_edition, Some(res[4]));
    assert_eq!(m.programs.rent, res[5]);
    assert_eq!(m.programs.system, res[6]);
    assert_eq!(m.programs.token, res[7]);
    assert_eq!(m.programs.associated_token, res[8]);
    assert_eq!(m.programs.metadata, res[9]);
}
