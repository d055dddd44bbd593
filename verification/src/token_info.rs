use crate::address::{
    derive_metadata_address, derived_metadata_address, pubkey_from_text, NO_ADDRESS,
};
use crate::dns::{dns_entries, get_dns_entries, texts, DnsAnswer};
use crate::domain::{get_cleaned_domain, is_valid_domain, url_host, valid_domain};
use crate::errors::AppError;
use crate::metadata::{account_complete, parse_uri, uri_text, TOO_SHORT};
use crate::text::{clean_uri, clean_uri_spec, lemma_filter_kept_pass, uri_char_allowed};
use vstd::prelude::*;
use vstd::string::StringExecFns;

verus! {

/// The detail of the error for an event that the stage does not wait for.
pub const OUT_OF_TURN: &'static str = "Unexpected event";

/// What is known of a token. Every field may be absent: the off-chain
/// document is written by strangers and may leave out any of them.
#[derive(Debug)]
pub struct TokenInfo {
    pub name: Option<String>,
    pub symbol: Option<String>,
    pub description: Option<String>,
    pub website: Option<String>,
    pub dns_entries: Option<Vec<String>>,
    pub telegram: Option<String>,
    pub twitter: Option<String>,
    pub facebook: Option<String>,
    pub instagram: Option<String>,
    pub supply: Option<String>,
}

/// Where a resolution stands: what it waits for.
#[derive(Debug)]
pub enum Stage {
    /// The bytes of the metadata account.
    AwaitingAccount,
    /// The off-chain document.
    AwaitingDocument,
    /// The resolver's answer for the website's host; the record waits with it.
    AwaitingDns(TokenInfo),
    /// Nothing: the resolution has ended.
    Done,
}

/// Why no off-chain document could be had.
#[derive(Debug)]
pub enum DocumentFailure {
    /// The document could not be fetched; the reason is carried along.
    Unreachable(String),
    /// What was fetched is not a JSON object.
    Malformed,
}

/// What came of the action that the last step asked for.
#[derive(Debug)]
pub enum Event {
    /// The metadata account's bytes, or why they could not be read.
    Account(Result<Vec<u8>, String>),
    /// The off-chain document's fields, or why they could not be had.
    Document(Result<TokenInfo, DocumentFailure>),
    /// The resolver's answer, or why no resolver could be set up.
    Dns(Result<DnsAnswer, String>),
}

/// What the caller is to do next.
#[derive(Debug)]
pub enum Action {
    /// Read the account at this address, and come back with `Event::Account`.
    FetchAccount([u8; 32]),
    /// Fetch the document at this URI, and come back with `Event::Document`.
    FetchDocument(String),
    /// Look up this domain, and come back with `Event::Dns`.
    ResolveDns(String),
    /// The resolution has ended with this record.
    Finish(TokenInfo),
    /// The resolution has ended with this error.
    Fail(AppError),
}

/// A step of a resolution: the stage it leads to and the action it asks for.
#[derive(Debug)]
pub struct Step {
    pub stage: Stage,
    pub action: Action,
}

/// Whether a step ends the resolution with an error of which `about` holds.
pub open spec fn fails_with(step: Step, about: spec_fn(AppError) -> bool) -> bool {
    &&& step.stage is Done
    &&& step.action is Fail
    &&& about(step.action->Fail_0)
}

/// Whether `step` is the first step of the resolution of `token_address`:
/// it asks for the account at the derived metadata address, or fails at once,
/// with `InvalidTokenAddress` where the text is no token address.
pub open spec fn first_step(token_address: Seq<char>, step: Step) -> bool {
    match derived_metadata_address(token_address) {
        Some(address) => {
            &&& step.stage is AwaitingAccount
            &&& step.action is FetchAccount
            &&& step.action->FetchAccount_0@ == address
        },
        None => if pubkey_from_text(token_address) is None {
            fails_with(
                step,
                |e: AppError| e is InvalidTokenAddress && e.detail() == token_address,
            )
        } else {
            fails_with(step, |e: AppError| e is GeneralError && e.detail() == NO_ADDRESS@)
        },
    }
}

/// Whether `step` is the step that follows `event` at `stage`.
pub open spec fn step_follows(stage: Stage, event: Event, step: Step) -> bool {
    match (stage, event) {
        (Stage::AwaitingAccount, Event::Account(Err(reason))) => fails_with(
            step,
            |e: AppError|
                e is ChainError && e.detail() == "Failed to fetch metadata account - "@
                    + reason@,
        ),
        (Stage::AwaitingAccount, Event::Account(Ok(data))) => if account_complete(data@) {
            &&& step.stage is AwaitingDocument
            &&& step.action is FetchDocument
            &&& step.action->FetchDocument_0@ == clean_uri_spec(uri_text(data@))
        } else {
            fails_with(step, |e: AppError| e is ParseError && e.detail() == TOO_SHORT@)
        },
        (Stage::AwaitingDocument, Event::Document(Err(DocumentFailure::Unreachable(reason)))) =>
            fails_with(step, |e: AppError| e is FetchError && e.detail() == reason@),
        (Stage::AwaitingDocument, Event::Document(Err(DocumentFailure::Malformed))) => fails_with(
            step,
            |e: AppError|
                e is DeserializationError && e.detail() == "Failed to parse JSON from URI"@,
        ),
        (Stage::AwaitingDocument, Event::Document(Ok(info))) => match info.website {
            None => step.stage is Done && step.action == Action::Finish(info),
            Some(website) => match url_host(website@) {
                None => fails_with(
                    step,
                    |e: AppError| e is InvalidDomain && e.detail() == website@,
                ),
                Some(host) => if valid_domain(host) {
                    &&& step.stage == Stage::AwaitingDns(info)
                    &&& step.action is ResolveDns
                    &&& step.action->ResolveDns_0@ == host
                } else {
                    fails_with(step, |e: AppError| e is InvalidDomain && e.detail() == host)
                },
            },
        },
        (Stage::AwaitingDns(_), Event::Dns(Err(reason))) => fails_with(
            step,
            |e: AppError| e is DnsError && e.detail() == reason@,
        ),
        (Stage::AwaitingDns(info), Event::Dns(Ok(answer))) => {
            &&& step.stage is Done
            &&& step.action is Finish
            &&& step.action->Finish_0.dns_entries is Some
            &&& texts(step.action->Finish_0.dns_entries->0@) == dns_entries(answer)
            &&& step.action->Finish_0 == (TokenInfo {
                dns_entries: step.action->Finish_0.dns_entries,
                ..info
            })
        },
        _ => fails_with(step, |e: AppError| e is GeneralError && e.detail() == OUT_OF_TURN@),
    }
}

fn fail(error: AppError) -> (step: Step)
    ensures
        step.stage is Done,
        step.action == Action::Fail(error),
{
    Step { stage: Stage::Done, action: Action::Fail(error) }
}

/// Begins the resolution of a token address: derives the address of its
/// metadata account and asks for that account.
pub fn start_token_info(token_address: &str) -> (step: Step)
    ensures
        first_step(token_address@, step),
{
    match derive_metadata_address(token_address) {
        Ok(address) => Step { stage: Stage::AwaitingAccount, action: Action::FetchAccount(address) },
        Err(e) => fail(e),
    }
}

/// Settles what follows the metadata account: the sanitized URI of the
/// off-chain document to fetch, or the failure.
pub fn on_account(fetched: Result<Vec<u8>, String>) -> (step: Step)
    ensures
        step_follows(Stage::AwaitingAccount, Event::Account(fetched), step),
{
    match fetched {
        Err(reason) => fail(
            AppError::ChainError(
                String::from_str("Failed to fetch metadata account - ").concat(reason.as_str()),
            ),
        ),
        Ok(data) => match parse_uri(data.as_slice()) {
            Err(e) => fail(e),
            Ok(uri) => Step {
                stage: Stage::AwaitingDocument,
                action: Action::FetchDocument(clean_uri(uri.as_str())),
            },
        },
    }
}

/// Settles what follows the off-chain document: the record as it is where it
/// names no website, the domain to look up where the website's host is well
/// formed, and `InvalidDomain` where the website has no host or a malformed
/// one. A document that could not be fetched gives `FetchError`, one that is
/// no JSON object `DeserializationError`.
pub fn on_document(fetched: Result<TokenInfo, DocumentFailure>) -> (step: Step)
    ensures
        step_follows(Stage::AwaitingDocument, Event::Document(fetched), step),
{
    match fetched {
        Err(DocumentFailure::Unreachable(reason)) => fail(AppError::FetchError(reason)),
        Err(DocumentFailure::Malformed) => fail(
            AppError::DeserializationError(String::from_str("Failed to parse JSON from URI")),
        ),
        Ok(info) => {
            let domain = match &info.website {
                None => None,
                Some(website) => match get_cleaned_domain(website.as_str()) {
                    None => Some(Err(String::from_str(website.as_str()))),
                    Some(host) => if is_valid_domain(host.as_str()) {
                        Some(Ok(host))
                    } else {
                        Some(Err(host))
                    },
                },
            };
            match domain {
                None => Step { stage: Stage::Done, action: Action::Finish(info) },
                Some(Ok(host)) => Step {
                    stage: Stage::AwaitingDns(info),
                    action: Action::ResolveDns(host),
                },
                Some(Err(rejected)) => fail(AppError::InvalidDomain(rejected)),
            }
        },
    }
}

/// Settles what follows the resolver's answer: the record with one entry for
/// each record found, or `DnsError` where no resolver could be set up.
pub fn on_dns(info: TokenInfo, resolved: Result<DnsAnswer, String>) -> (step: Step)
    ensures
        step_follows(Stage::AwaitingDns(info), Event::Dns(resolved), step),
{
    match resolved {
        Err(reason) => fail(AppError::DnsError(reason)),
        Ok(answer) => {
            let entries = get_dns_entries(&answer);
            let mut record = info;
            record.dns_entries = Some(entries);
            Step { stage: Stage::Done, action: Action::Finish(record) }
        },
    }
}

/// Takes a resolution one step on: from the stage it stands at and the event
/// that came in to the next stage and the action to perform. An event that
/// the stage does not wait for ends the resolution with `GeneralError`.
pub fn get_token_info(stage: Stage, event: Event) -> (step: Step)
    ensures
        step_follows(stage, event, step),
{
    match (stage, event) {
        (Stage::AwaitingAccount, Event::Account(fetched)) => on_account(fetched),
        (Stage::AwaitingDocument, Event::Document(fetched)) => on_document(fetched),
        (Stage::AwaitingDns(info), Event::Dns(resolved)) => on_dns(info, resolved),
        _ => fail(AppError::GeneralError(String::from_str(OUT_OF_TURN))),
    }
}

/// A step never leaves the resolution waiting after a failure or a record:
/// the stage is `Done` exactly where the action is `Finish` or `Fail`.
pub proof fn lemma_step_ends_or_waits(stage: Stage, event: Event, step: Step)
    requires
        step_follows(stage, event, step),
    ensures
        step.stage is Done <==> (step.action is Finish || step.action is Fail),
        stage is Done ==> step.action is Fail,
{
}

/// The URI of the document to fetch holds only characters that a sanitized
/// URI may hold: no text from the chain is dereferenced as it was found.
pub proof fn lemma_fetched_uri_is_clean(stage: Stage, event: Event, step: Step)
    requires
        step_follows(stage, event, step),
        step.action is FetchDocument,
    ensures
        forall|i: int|
            0 <= i < step.action->FetchDocument_0@.len() ==> uri_char_allowed(
                #[trigger] step.action->FetchDocument_0@[i],
            ),
{
    match (stage, event) {
        (Stage::AwaitingAccount, Event::Account(Ok(data))) => {
            lemma_filter_kept_pass(uri_text(data@), |c: char| uri_char_allowed(c));
        },
        _ => {},
    }
}

/// A domain is looked up only where it is the host of the document's website
/// and passes the rule for host names; the record then waits unchanged.
pub proof fn lemma_lookup_only_of_valid_domain(stage: Stage, event: Event, step: Step)
    requires
        step_follows(stage, event, step),
        step.action is ResolveDns,
    ensures
        valid_domain(step.action->ResolveDns_0@),
        stage is AwaitingDocument,
        event matches Event::Document(Ok(info)) && info.website is Some && url_host(
            info.website->0@,
        ) == Some(step.action->ResolveDns_0@) && step.stage == Stage::AwaitingDns(info),
{
}

/// A document whose website has no host, or a host that the rule for host
/// names rejects, ends the resolution with `InvalidDomain`: the lookup is
/// never left out in silence.
pub proof fn lemma_bad_website_fails(info: TokenInfo, step: Step)
    requires
        step_follows(Stage::AwaitingDocument, Event::Document(Ok(info)), step),
        info.website is Some,
        url_host(info.website->0@) is None || !valid_domain(url_host(info.website->0@)->0),
    ensures
        step.stage is Done,
        step.action is Fail,
        step.action->Fail_0 is InvalidDomain,
{
}

} // verus!
