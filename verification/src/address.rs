use crate::errors::AppError;
use vstd::prelude::*;
use vstd::slice::slice_to_vec;
use vstd::string::StringExecFns;

verus! {

/// The detail of the error for a mint from which no address can be derived.
pub const NO_ADDRESS: &'static str = "Unable to find a viable program address bump seed";

/// The base-58 text of the identifier of the token metadata program.
pub const METAPLEX_PROGRAM_ID: &'static str = "metaqbxxUerdq28cj1RbAWkYQm3ybzjb6a8bt518x1s";

/// The 32 bytes that `Pubkey::from_str` reads from a text, or `None` where it
/// rejects the text.
pub uninterp spec fn pubkey_from_text(text: Seq<char>) -> Option<Seq<u8>>;

/// The address that `Pubkey::try_find_program_address` derives from seeds and
/// a program identifier, or `None` where it finds none.
pub uninterp spec fn program_address(seeds: Seq<Seq<u8>>, program_id: Seq<u8>) -> Option<Seq<u8>>;

/// The bytes that `bs58` decodes from a text, or `None` where it rejects the
/// text.
pub uninterp spec fn base58_decoded(text: Seq<char>) -> Option<Seq<u8>>;

/// The text that `bs58` encodes bytes to.
pub uninterp spec fn base58_encoded(bytes: Seq<u8>) -> Seq<char>;

/// Calls `solana_sdk::pubkey::Pubkey::from_str`. Trusted: the bytes returned
/// are those that the call reads from the text, and `None` stands for each of
/// its errors.
#[verifier::external_body]
fn pubkey_from_str(text: &str) -> (r: Option<[u8; 32]>)
    ensures
        (match r {
            Some(bytes) => pubkey_from_text(text@) == Some(bytes@),
            None => pubkey_from_text(text@) is None,
        }),
{
    match <solana_sdk::pubkey::Pubkey as std::str::FromStr>::from_str(text) {
        Ok(key) => Some(key.to_bytes()),
        Err(_) => None,
    }
}

/// Calls `solana_sdk::pubkey::Pubkey::try_find_program_address`. Trusted: the
/// address returned is the one that the call derives from these seeds and
/// this program identifier; the bump seed found with it is dropped.
#[verifier::external_body]
fn try_find_program_address(seeds: &Vec<Vec<u8>>, program_id: &[u8; 32]) -> (r: Option<[u8; 32]>)
    ensures
        (match r {
            Some(bytes) => program_address(seeds.deep_view(), program_id@) == Some(bytes@),
            None => program_address(seeds.deep_view(), program_id@) is None,
        }),
{
    let parts: Vec<&[u8]> = seeds.iter().map(|seed| seed.as_slice()).collect();
    let program = solana_sdk::pubkey::Pubkey::new_from_array(*program_id);
    solana_sdk::pubkey::Pubkey::try_find_program_address(&parts, &program).map(
        |found| found.0.to_bytes(),
    )
}

/// Calls `bs58::decode` and `into_vec` on its builder. Trusted: the bytes
/// returned are those that the text decodes to, and `None` stands for each
/// decoding error.
#[verifier::external_body]
fn bs58_decode(text: &str) -> (r: Option<Vec<u8>>)
    ensures
        (match r {
            Some(bytes) => base58_decoded(text@) == Some(bytes@),
            None => base58_decoded(text@) is None,
        }),
{
    match bs58::decode(text).into_vec() {
        Ok(bytes) => Some(bytes),
        Err(_) => None,
    }
}

/// Calls `bs58::encode` and `into_string` on its builder. Trusted: the text
/// returned is the base-58 form of the bytes.
#[verifier::external_body]
fn bs58_encode(bytes: &[u8]) -> (r: String)
    ensures
        r@ == base58_encoded(bytes@),
{
    bs58::encode(bytes).into_string()
}

/// The bytes of the seed tag, the ASCII text `metadata`.
pub open spec fn metadata_tag() -> Seq<u8> {
    seq![109u8, 101u8, 116u8, 97u8, 100u8, 97u8, 116u8, 97u8]
}

/// The seeds from which the metadata address of a mint is derived: the tag,
/// the program identifier, the mint.
pub open spec fn metadata_seeds(program_id: Seq<u8>, mint: Seq<u8>) -> Seq<Seq<u8>> {
    seq![metadata_tag(), program_id, mint]
}

/// The address of the metadata account of a mint. It is `None` where the
/// program identifier cannot be read or no address can be derived.
pub open spec fn metadata_address(mint: Seq<u8>) -> Option<Seq<u8>> {
    match pubkey_from_text(METAPLEX_PROGRAM_ID@) {
        Some(program_id) => program_address(metadata_seeds(program_id, mint), program_id),
        None => None,
    }
}

/// The metadata address of the token whose address is given as text: `None`
/// where the text is no token address or no address can be derived.
pub open spec fn derived_metadata_address(token_address: Seq<char>) -> Option<Seq<u8>> {
    match pubkey_from_text(token_address) {
        None => None,
        Some(mint) => metadata_address(mint),
    }
}

/// Reads a token address from its base-58 text. The text is rejected with
/// `InvalidTokenAddress`, which carries it, exactly where it is not the text
/// of 32 bytes.
pub fn parse_token_address(token_address: &str) -> (r: Result<[u8; 32], AppError>)
    ensures
        (match r {
            Ok(bytes) => pubkey_from_text(token_address@) == Some(bytes@),
            Err(e) => pubkey_from_text(token_address@) is None && e.detail() == token_address@
                && e is InvalidTokenAddress,
        }),
{
    match pubkey_from_str(token_address) {
        Some(bytes) => Ok(bytes),
        None => Err(AppError::InvalidTokenAddress(String::from_str(token_address))),
    }
}

/// Derives the address of the metadata account of a mint from the seed tag,
/// the metadata program's identifier and the mint.
pub fn get_metadata_address(mint: &[u8; 32]) -> (r: Option<[u8; 32]>)
    ensures
        (match r {
            Some(bytes) => metadata_address(mint@) == Some(bytes@),
            None => metadata_address(mint@) is None,
        }),
{
    match pubkey_from_str(METAPLEX_PROGRAM_ID) {
        None => None,
        Some(program_id) => {
            let mut seeds: Vec<Vec<u8>> = Vec::new();
            seeds.push(vec![109u8, 101u8, 116u8, 97u8, 100u8, 97u8, 116u8, 97u8]);
            seeds.push(slice_to_vec(program_id.as_slice()));
            seeds.push(slice_to_vec(mint.as_slice()));
            assert(seeds.deep_view() =~= metadata_seeds(program_id@, mint@)) by {
                assert(seeds[0].deep_view() =~= metadata_tag());
                assert(seeds[1].deep_view() =~= program_id@);
                assert(seeds[2].deep_view() =~= mint@);
            }
            try_find_program_address(&seeds, &program_id)
        },
    }
}

/// Whether `outcome` is what the derivation makes of a token address given
/// as text: the derived address, or `InvalidTokenAddress`, which carries the
/// text, exactly where the text is not that of 32 bytes, or `GeneralError`
/// exactly where the text is valid and no address can be derived from it.
pub open spec fn is_derivation(token_address: Seq<char>, outcome: Result<[u8; 32], AppError>) -> bool {
    match outcome {
        Ok(bytes) => derived_metadata_address(token_address) == Some(bytes@),
        Err(e) => derived_metadata_address(token_address) is None && (if pubkey_from_text(
            token_address,
        ) is None {
            e is InvalidTokenAddress && e.detail() == token_address
        } else {
            e is GeneralError && e.detail() == NO_ADDRESS@
        }),
    }
}

/// Derives the metadata address of the token whose address is given as
/// base-58 text.
pub fn derive_metadata_address(token_address: &str) -> (r: Result<[u8; 32], AppError>)
    ensures
        is_derivation(token_address@, r),
{
    match parse_token_address(token_address) {
        Err(e) => Err(e),
        Ok(mint) => match get_metadata_address(&mint) {
            Some(address) => Ok(address),
            None => Err(AppError::GeneralError(String::from_str(NO_ADDRESS))),
        },
    }
}

/// The derivation is deterministic: two outcomes for the same token address
/// succeed or fail together, with the same address where they succeed and
/// with the same kind of error where they fail.
pub proof fn lemma_derivation_deterministic(
    token_address: Seq<char>,
    first: Result<[u8; 32], AppError>,
    second: Result<[u8; 32], AppError>,
)
    requires
        is_derivation(token_address, first),
        is_derivation(token_address, second),
    ensures
        first is Ok <==> second is Ok,
        first is Ok ==> first->Ok_0@ == second->Ok_0@,
        first is Err ==> (first->Err_0 is InvalidTokenAddress <==> second->Err_0
            is InvalidTokenAddress),
        first is Err ==> (first->Err_0 is GeneralError <==> second->Err_0 is GeneralError),
{
}

/// The arguments of the command line.
#[derive(Debug)]
pub struct Cli {
    /// The token address to resolve, as the user gave it.
    pub token_address: String,
}

/// The address that the command line stands for: the text itself where it is
/// base-58, else the base-58 form of its UTF-8 bytes.
pub open spec fn encoded_token_address(text: Seq<char>) -> Seq<char> {
    if base58_decoded(text) is Some {
        text
    } else {
        base58_encoded(vstd::utf8::encode_utf8(text))
    }
}

impl Cli {
    /// Returns the token address as base-58 text: the argument itself where it
    /// decodes as base-58, else the encoding of its bytes. It never fails.
    pub fn get_encoded_token_address(&self) -> (r: Result<String, String>)
        ensures
            r is Ok,
            r->Ok_0@ == encoded_token_address(self.token_address@),
    {
        match bs58_decode(self.token_address.as_str()) {
            Some(_) => Ok(self.token_address.clone()),
            None => Ok(bs58_encode(self.token_address.as_str().as_bytes())),
        }
    }
}

} // verus!
