use tokens::resources::{MintFungible, MintNonFungible, MinterAccounts, MinterPrograms};

#[test]
fn named_bundles_convert() {
    let f = MintFungible {
        mint: [1; 32],
        token: [2; 32],
        mint_authority: [3; 32],
        metadata: [4; 32],
        rent: [5; 32],
        system_program: [6; 32],
        token_program: [7; 32],
        associated_token_program: [8; 32],
        metadata_program: [9; 32],
    };
    let a = MinterAccounts::from(&f);
    assert_eq!(
        a,
        MinterAccounts { mint: [1; 32], token: [2; 32], mint_authority: [3; 32], metadata: [4; 32], master_edition: None }
    );
    let p = MinterPrograms::from(&f);
    assert_eq!(
        p,
        MinterPrograms { rent: [5; 32], system: [6; 32], token: [7; 32], associated_token: [8; 32], metadata: [9; 32] }
    );
    let n = MintNonFungible {
        mint: [1; 32],
        token: [2; 32],
        mint_authority: [3; 32],
        metadata: [4; 32],
        master_edition: [10; 32],
        rent: [5; 32],
        system_program: [6; 32],
        token_program: [7; 32],
        associated_token_program: [8; 32],
        metadata_program: [9; 32],
    };
    assert_eq!(MinterAccounts::from(&n).master_edition, Some([10; 32]));
    assert_eq!(MinterPrograms::from(&n), p);
}
