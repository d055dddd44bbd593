use vstd::prelude::*;

verus! {

/// The rule for a host name: labels of letters, digits, dots and hyphens,
/// then a dot and at least two letters. It is a permissive rule, kept as it
/// is for the sake of the records that already pass it; it is no full
/// validator of host names.
pub const DOMAIN_PATTERN: &'static str = "^[a-zA-Z0-9.-]+\\.[a-zA-Z]{2,}$";

/// What `regex` says of a text under a pattern: whether it matches, or `None`
/// where the pattern does not compile.
pub uninterp spec fn regex_match(pattern: Seq<char>, text: Seq<char>) -> Option<bool>;

/// The host that `url` reads from a text, or `None` where the text is no URL
/// or the URL has no host.
pub uninterp spec fn url_host(text: Seq<char>) -> Option<Seq<char>>;

/// Calls `regex::Regex::new` on the pattern and `Regex::is_match` on the
/// text. Trusted: the result is the answer of the match, and `None` stands
/// for a pattern that does not compile.
#[verifier::external_body]
fn regex_is_match(pattern: &str, text: &str) -> (r: Option<bool>)
    ensures
        r == regex_match(pattern@, text@),
{
    match regex::Regex::new(pattern) {
        Ok(re) => Some(re.is_match(text)),
        Err(_) => None,
    }
}

/// Calls `url::Url::parse` on the text and `Url::host_str` on the URL.
/// Trusted: the text returned is the host of the URL, and `None` stands for a
/// text that does not parse and for a URL without a host.
#[verifier::external_body]
fn parse_host(text: &str) -> (r: Option<String>)
    ensures
        (match r {
            Some(host) => url_host(text@) == Some(host@),
            None => url_host(text@) is None,
        }),
{
    match url::Url::parse(text) {
        Ok(parsed) => parsed.host_str().map(|host| host.to_string()),
        Err(_) => None,
    }
}

/// Whether a host name passes the rule for host names.
pub open spec fn valid_domain(domain: Seq<char>) -> bool {
    regex_match(DOMAIN_PATTERN@, domain) == Some(true)
}

/// Tells whether a host name passes the rule for host names.
pub fn is_valid_domain(domain: &str) -> (r: bool)
    ensures
        r == valid_domain(domain@),
{
    match regex_is_match(DOMAIN_PATTERN, domain) {
        Some(matched) => matched,
        None => false,
    }
}

/// Extracts the host of a website's URL, where it has one.
pub fn get_cleaned_domain(website: &str) -> (r: Option<String>)
    ensures
        (match r {
            Some(host) => url_host(website@) == Some(host@),
            None => url_host(website@) is None,
        }),
{
    parse_host(website)
}

} // verus!
