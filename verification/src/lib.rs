//! Resolution of a token address into a descriptive token record.
//!
//! The library holds the rules of the resolution: the derivation of the
//! metadata account's address, the layout of the metadata account, the
//! filters on text taken from untrusted sources, the rule for host names,
//! the wording of DNS entries, and the order in which the steps follow one
//! another. Network access is left to the caller, which performs the action
//! that each step asks for and hands back what came of it.
pub mod errors;
pub mod text;
pub mod address;
pub mod domain;
pub mod metadata;
pub mod dns;
pub mod supply_info;
pub mod report;
pub mod token_info;
