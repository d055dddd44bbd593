use crate::address::{parse_token_address, pubkey_from_text};
use crate::errors::AppError;
use vstd::prelude::*;
use vstd::string::StringExecFns;

verus! {

/// The supply of a token, as the decimal text that the chain reports. It is
/// kept as text: a supply may exceed any fixed-width integer.
#[derive(Debug)]
pub struct SupplyInfo {
    pub amount: String,
}

/// Settles the supply lookup for a token address, given what the chain
/// answered: the amount, or the reason why none came. An address that is not
/// the text of 32 bytes is rejected with `InvalidTokenAddress`, whatever the
/// answer; a lookup that failed gives `ChainError`; otherwise the amount is
/// returned as it came.
pub fn get_supply_info(token_address: &str, response: Result<String, String>) -> (r: Result<
    SupplyInfo,
    AppError,
>)
    ensures
        pubkey_from_text(token_address@) is None ==> r is Err && r->Err_0 is InvalidTokenAddress
            && r->Err_0.detail() == token_address@,
        pubkey_from_text(token_address@) is Some && response is Err ==> r is Err && r->Err_0
            is ChainError && r->Err_0.detail() == "Failed to fetch supply info"@,
        pubkey_from_text(token_address@) is Some && response is Ok ==> r is Ok && r->Ok_0.amount
            == response->Ok_0,
{
    match parse_token_address(token_address) {
        Err(e) => Err(e),
        Ok(_) => match response {
            Err(_) => Err(AppError::ChainError(String::from_str("Failed to fetch supply info"))),
            Ok(amount) => Ok(SupplyInfo { amount }),
        },
    }
}

} // verus!
