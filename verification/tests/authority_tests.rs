use amm_pool::authority::derive_pool_authority;
use amm_pool::identity::Identity;
use solana_program::pubkey::Pubkey;

#[test]
fn derivation_matches_the_ledger_library() {
    for b in [0u8, 1, 7, 200] {
        let program = Identity::new(vec![b; 32]);
        let (authority, bump) = derive_pool_authority(&program).unwrap();
        let pk = Pubkey::new_from_array([b; 32]);
        let (expected, expected_bump) =
            Pubkey::try_find_program_address(&[b"bravv"], &pk).unwrap();
        assert_eq!(authority.as_bytes().as_slice(), expected.to_bytes().as_slice());
        assert_eq!(bump, expected_bump);
    }
}

#[test]
fn derivation_is_bound_to_the_program() {
    let (a1, _) = derive_pool_authority(&Identity::new(vec![1; 32])).unwrap();
    let (a2, _) = derive_pool_authority(&Identity::new(vec![2; 32])).unwrap();
    assert_ne!(a1.as_bytes(), a2.as_bytes());
}
