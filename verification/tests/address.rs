use solana_program::pubkey::Pubkey;
use solana_token::address::{
    Address, PROGRAM_ID, RENT_SYSVAR_ID, SYSTEM_PROGRAM_ID, TOKEN_PROGRAM_ID,
};
use solana_token::instruction::AccountMeta;
use solana_token::{find_program_address, id};

fn address(byte: u8) -> Address {
    Address { bytes: [byte; 32] }
}

#[test]
fn derivation_is_repeatable() {
    let first = find_program_address(&address(7), &address(9));
    let second = find_program_address(&address(7), &address(9));
    assert!(first.is_some());
    assert_eq!(first, second);
}

#[test]
fn derivation_differs_with_the_seed() {
    let (one, _) = find_program_address(&id(), &address(1)).unwrap();
    let (two, _) = find_program_address(&id(), &address(2)).unwrap();
    assert_ne!(one, two);
    assert_ne!(one, address(1));
}

#[test]
fn derivation_differs_with_the_program() {
    let (one, _) = find_program_address(&address(3), &address(1)).unwrap();
    let (two, _) = find_program_address(&address(4), &address(1)).unwrap();
    assert_ne!(one, two);
}

#[test]
fn derivation_is_the_ledgers_own() {
    for byte in 0..20u8 {
        let seed = address(byte);
        let program = Pubkey::new_from_array(id().bytes);
        let (expected, expected_bump) = Pubkey::find_program_address(&[&seed.bytes], &program);
        let (derived, bump) = find_program_address(&id(), &seed).unwrap();
        assert_eq!(derived.bytes, expected.to_bytes());
        assert_eq!(bump, expected_bump);
        let again = Pubkey::create_program_address(&[&seed.bytes, &[bump]], &program).unwrap();
        assert_eq!(again.to_bytes(), derived.bytes);
        assert!(!Pubkey::new_from_array(derived.bytes).is_on_curve());
    }
}

#[test]
fn program_id_is_the_declared_address() {
    assert_eq!(id().bytes, PROGRAM_ID);
    assert_eq!(
        Pubkey::new_from_array(id().bytes).to_string(),
        "6pMk1woyNXh31Ba7wYuwkDeBgWfohTCor1AGVUQAGxXb"
    );
}

#[test]
fn well_known_addresses_are_the_ledgers_own() {
    assert_eq!(SYSTEM_PROGRAM_ID, solana_program::system_program::id().to_bytes());
    assert_eq!(TOKEN_PROGRAM_ID, spl_token::id().to_bytes());
    assert_eq!(RENT_SYSVAR_ID, solana_program::sysvar::rent::id().to_bytes());
}

#[test]
fn addresses_compare_by_their_bytes() {
    let mut other = [5u8; 32];
    assert!(address(5) == Address { bytes: other });
    other[31] = 6;
    assert!(address(5) != Address { bytes: other });
    other[31] = 5;
    other[0] = 4;
    assert!(address(5) != Address { bytes: other });
}

#[test]
fn account_metas_carry_their_flags() {
    let writable = AccountMeta::new(address(1), true);
    assert_eq!(writable, AccountMeta { pubkey: address(1), is_signer: true, is_writable: true });
    let readonly = AccountMeta::new_readonly(address(2), false);
    assert_eq!(readonly, AccountMeta { pubkey: address(2), is_signer: false, is_writable: false });
}
