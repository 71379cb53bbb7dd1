use movie_review::address::{self, Address, MAX_SEED_BYTES};
use movie_review::error::ReviewError;
use solana_program::pubkey::Pubkey;

fn program() -> Address {
    Address::new([7u8; 32])
}

fn caller() -> Address {
    Address::new([1u8; 32])
}

#[test]
fn derive_is_stable_across_calls() {
    let first = address::derive(&caller(), "Up", &program());
    let second = address::derive(&caller(), "Up", &program());
    assert!(first.is_some());
    assert_eq!(first, second);
}

#[test]
fn derive_agrees_with_the_host() {
    let (expected, bump) = Pubkey::find_program_address(
        &[&[1u8; 32], "Up".as_bytes()],
        &Pubkey::new_from_array([7u8; 32]),
    );
    assert_eq!(
        address::derive(&caller(), "Up", &program()),
        Some((Address::new(expected.to_bytes()), bump))
    );
}

#[test]
fn derive_yields_neither_caller_nor_program() {
    let (derived, _) = address::derive(&caller(), "Up", &program()).unwrap();
    assert_ne!(derived, caller());
    assert_ne!(derived, program());
}

#[test]
fn derive_tells_callers_titles_and_programs_apart() {
    let base = address::derive(&caller(), "Up", &program()).unwrap().0;
    let other_caller = address::derive(&Address::new([2u8; 32]), "Up", &program()).unwrap().0;
    let other_title = address::derive(&caller(), "Heat", &program()).unwrap().0;
    let other_program = address::derive(&caller(), "Up", &Address::new([8u8; 32])).unwrap().0;
    assert_ne!(base, other_caller);
    assert_ne!(base, other_title);
    assert_ne!(base, other_program);
}

#[test]
fn derive_has_no_address_for_long_titles() {
    let longest: String = "t".repeat(MAX_SEED_BYTES);
    assert!(address::derive(&caller(), &longest, &program()).is_some());
    let too_long: String = "t".repeat(MAX_SEED_BYTES + 1);
    assert_eq!(address::derive(&caller(), &too_long, &program()), None);
    assert_eq!(
        Pubkey::try_find_program_address(
            &[&[1u8; 32], too_long.as_bytes()],
            &Pubkey::new_from_array([7u8; 32])
        ),
        None
    );
    let wide: String = "é".repeat(17);
    assert_eq!(address::derive(&caller(), &wide, &program()), None);
}

#[test]
fn validate_compares_byte_for_byte() {
    let mut bytes: [u8; 32] = [3u8; 32];
    let expected = Address::new(bytes);
    assert_eq!(address::validate(&expected, &Address::new(bytes)), Ok(()));
    bytes[31] = 4;
    assert_eq!(
        address::validate(&expected, &Address::new(bytes)),
        Err(ReviewError::InvalidAddress)
    );
    bytes[31] = 3;
    bytes[0] = 0;
    assert_eq!(
        address::validate(&expected, &Address::new(bytes)),
        Err(ReviewError::InvalidAddress)
    );
    assert!(expected.same_as(&Address::new([3u8; 32])));
    assert!(!expected.same_as(&Address::new(bytes)));
}
