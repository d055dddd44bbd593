use std::str::FromStr;
use token_info::address::{
    derive_metadata_address, get_metadata_address, parse_token_address, Cli, METAPLEX_PROGRAM_ID,
};
use token_info::errors::AppError;

const WRAPPED_SOL: &str = "So11111111111111111111111111111111111111112";

#[test]
fn token_address_is_read_as_32_bytes() {
    let bytes = parse_token_address(WRAPPED_SOL).unwrap();
    assert_eq!(bytes.to_vec(), bs58::decode(WRAPPED_SOL).into_vec().unwrap());
    assert_eq!(&bytes[..4], &[0x06, 0x9b, 0x88, 0x57]);
    assert_eq!(bytes[31], 1);
}

#[test]
fn malformed_token_address_is_rejected() {
    for text in ["", "abc", "not an address", "So1111111111111111111111111111111111111111O"] {
        match parse_token_address(text) {
            Err(AppError::InvalidTokenAddress(detail)) => assert_eq!(detail, text),
            other => panic!("unexpected: {:?}", other),
        }
        assert!(matches!(derive_metadata_address(text), Err(AppError::InvalidTokenAddress(_))));
    }
}

#[test]
fn invalid_token_address_reads_as_such() {
    let error = parse_token_address("abc").unwrap_err();
    assert_eq!(error.message(), "Invalid token address - abc");
}

#[test]
fn metadata_address_is_deterministic_and_differs_from_the_mint() {
    let first = derive_metadata_address(WRAPPED_SOL).unwrap();
    let second = derive_metadata_address(WRAPPED_SOL).unwrap();
    assert_eq!(first, second);
    assert_ne!(first, parse_token_address(WRAPPED_SOL).unwrap());
}

#[test]
fn metadata_address_is_the_program_derived_address() {
    let program = solana_sdk::pubkey::Pubkey::from_str(METAPLEX_PROGRAM_ID).unwrap();
    let mint = solana_sdk::pubkey::Pubkey::from_str(WRAPPED_SOL).unwrap();
    let expected = solana_sdk::pubkey::Pubkey::find_program_address(
        &[b"metadata", program.as_ref(), mint.as_ref()],
        &program,
    )
    .0;
    assert_eq!(derive_metadata_address(WRAPPED_SOL).unwrap(), expected.to_bytes());
    assert_eq!(get_metadata_address(&mint.to_bytes()), Some(expected.to_bytes()));
}

#[test]
fn different_mints_have_different_metadata_addresses() {
    let other = "EPjFWdd5AufqSSqeM2qN1xzybapC8G4wEGGkZwyTDt1v";
    assert_ne!(
        derive_metadata_address(WRAPPED_SOL).unwrap(),
        derive_metadata_address(other).unwrap()
    );
}

#[test]
fn base58_argument_is_kept() {
    let cli = Cli { token_address: WRAPPED_SOL.to_string() };
    assert_eq!(cli.get_encoded_token_address(), Ok(WRAPPED_SOL.to_string()));
}

#[test]
fn other_argument_is_encoded() {
    let cli = Cli { token_address: "Hello World!".to_string() };
    assert_eq!(cli.get_encoded_token_address(), Ok("2NEpo7TZRRrLZSi2U".to_string()));
}
