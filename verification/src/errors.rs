use vstd::prelude::*;
use vstd::string::StringExecFns;

verus! {

/// Why a resolution ended without a record. Each variant carries the detail
/// that its message ends with.
#[derive(Debug)]
pub enum AppError {
    /// The token address is not the base-58 text of 32 bytes.
    InvalidTokenAddress(String),
    /// The website named by the off-chain document has a malformed host.
    InvalidDomain(String),
    /// The metadata account is too short for the fields it should hold.
    ParseError(String),
    /// The chain could not be reached or holds no such account.
    ChainError(String),
    /// The off-chain document could not be fetched.
    FetchError(String),
    /// The off-chain document is not a JSON object.
    DeserializationError(String),
    /// The resolver could not be set up.
    DnsError(String),
    /// Any other failure; the detail is the whole message.
    GeneralError(String),
}

impl AppError {
    /// The text that stands before the detail in the message.
    pub open spec fn prefix(&self) -> Seq<char> {
        match self {
            AppError::InvalidTokenAddress(_) => "Invalid token address - "@,
            AppError::InvalidDomain(_) => "Invalid domain - "@,
            AppError::ParseError(_) => "Parse error - "@,
            AppError::ChainError(_) => "Solana client error - "@,
            AppError::FetchError(_) => "Request error - "@,
            AppError::DeserializationError(_) => "Deserialization error - "@,
            AppError::DnsError(_) => "Failed to resolve DNS - "@,
            AppError::GeneralError(_) => ""@,
        }
    }

    /// The detail carried by the error.
    pub open spec fn detail(&self) -> Seq<char> {
        match self {
            AppError::InvalidTokenAddress(s) => s@,
            AppError::InvalidDomain(s) => s@,
            AppError::ParseError(s) => s@,
            AppError::ChainError(s) => s@,
            AppError::FetchError(s) => s@,
            AppError::DeserializationError(s) => s@,
            AppError::DnsError(s) => s@,
            AppError::GeneralError(s) => s@,
        }
    }

    /// The message shown to the user: the prefix followed by the detail.
    pub open spec fn message_spec(&self) -> Seq<char> {
        self.prefix() + self.detail()
    }

    /// Renders the error as the message shown to the user.
    pub fn message(&self) -> (r: String)
        ensures
            r@ == self.message_spec(),
    {
        match self {
            AppError::InvalidTokenAddress(s) => String::from_str("Invalid token address - ").concat(
                s.as_str(),
            ),
            AppError::InvalidDomain(s) => String::from_str("Invalid domain - ").concat(s.as_str()),
            AppError::ParseError(s) => String::from_str("Parse error - ").concat(s.as_str()),
            AppError::ChainError(s) => String::from_str("Solana client error - ").concat(
                s.as_str(),
            ),
            AppError::FetchError(s) => String::from_str("Request error - ").concat(s.as_str()),
            AppError::DeserializationError(s) => String::from_str(
                "Deserialization error - ",
            ).concat(s.as_str()),
            AppError::DnsError(s) => String::from_str("Failed to resolve DNS - ").concat(
                s.as_str(),
            ),
            AppError::GeneralError(s) => String::from_str("").concat(s.as_str()),
        }
    }
}

} // verus!
