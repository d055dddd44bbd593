use crate::text::string_of;
use vstd::prelude::*;
use vstd::string::StringExecFns;

verus! {

/// An address record, with the address in its usual text form: dotted for
/// IPv4, with colons for IPv6.
#[derive(Debug)]
pub enum IpRecord {
    V4(String),
    V6(String),
}

/// A mail-exchange record.
#[derive(Debug)]
pub struct MxRecord {
    pub preference: u16,
    pub exchange: String,
}

/// What a resolver found for a domain. `None` stands for a lookup that
/// failed, which counts as a lookup that found nothing.
#[derive(Debug)]
pub struct DnsAnswer {
    pub addresses: Option<Vec<IpRecord>>,
    pub exchanges: Option<Vec<MxRecord>>,
}

/// The character of a decimal digit.
pub open spec fn digit_char(d: nat) -> char {
    ((48 + d) as u8) as char
}

/// The decimal numeral of a number, without leading zeros.
pub open spec fn decimal(n: nat) -> Seq<char>
    decreases n,
{
    if n < 10 {
        seq![digit_char(n)]
    } else {
        decimal(n / 10).push(digit_char(n % 10))
    }
}

/// The entry that describes an address record.
pub open spec fn ip_entry(record: IpRecord) -> Seq<char> {
    match record {
        IpRecord::V4(address) => "A Record: IPv4: "@ + address@,
        IpRecord::V6(address) => "AAAA Record: IPv6: "@ + address@,
    }
}

/// The entry that describes a mail-exchange record.
pub open spec fn mx_entry(record: MxRecord) -> Seq<char> {
    "MX Record: Preference: "@ + decimal(record.preference as nat) + ", Exchange: "@
        + record.exchange@
}

/// The entries for the address records of an answer, in their order.
pub open spec fn ip_entries(addresses: Option<Vec<IpRecord>>) -> Seq<Seq<char>> {
    match addresses {
        Some(records) => Seq::new(records@.len(), |i: int| ip_entry(records@[i])),
        None => Seq::empty(),
    }
}

/// The entries for the mail-exchange records of an answer, in their order.
pub open spec fn mx_entries(exchanges: Option<Vec<MxRecord>>) -> Seq<Seq<char>> {
    match exchanges {
        Some(records) => Seq::new(records@.len(), |i: int| mx_entry(records@[i])),
        None => Seq::empty(),
    }
}

/// The entries of an answer: those of the address records, then those of the
/// mail-exchange records.
pub open spec fn dns_entries(answer: DnsAnswer) -> Seq<Seq<char>> {
    ip_entries(answer.addresses) + mx_entries(answer.exchanges)
}

/// The texts of a list of strings.
pub open spec fn texts(lines: Seq<String>) -> Seq<Seq<char>> {
    Seq::new(lines.len(), |i: int| lines[i]@)
}

fn digit(d: u8) -> (c: char)
    requires
        d < 10,
    ensures
        c == digit_char(d as nat),
{
    (48u8 + d) as char
}

fn decimal_chars(n: u16) -> (r: Vec<char>)
    ensures
        r@ == decimal(n as nat),
    decreases n,
{
    if n < 10 {
        let mut digits: Vec<char> = Vec::new();
        digits.push(digit(n as u8));
        assert(digits@ =~= decimal(n as nat));
        digits
    } else {
        let mut digits = decimal_chars(n / 10);
        digits.push(digit((n % 10) as u8));
        digits
    }
}

/// Writes a number as a decimal numeral.
pub fn decimal_text(n: u16) -> (r: String)
    ensures
        r@ == decimal(n as nat),
{
    let digits = decimal_chars(n);
    string_of(digits.as_slice())
}

/// Describes an address record: its kind, then the address.
pub fn format_ip_record(record: &IpRecord) -> (r: String)
    ensures
        r@ == ip_entry(*record),
{
    match record {
        IpRecord::V4(address) => String::from_str("A Record: IPv4: ").concat(address.as_str()),
        IpRecord::V6(address) => String::from_str("AAAA Record: IPv6: ").concat(
            address.as_str(),
        ),
    }
}

/// Describes a mail-exchange record: its kind, the preference, the exchange.
pub fn format_mx_record(record: &MxRecord) -> (r: String)
    ensures
        r@ == mx_entry(*record),
{
    let preference = decimal_text(record.preference);
    String::from_str("MX Record: Preference: ").concat(preference.as_str()).concat(
        ", Exchange: ",
    ).concat(record.exchange.as_str())
}

/// Describes what a resolver found: one entry for each address record, then
/// one for each mail-exchange record, in the order in which they were found.
/// A lookup that failed adds no entry.
pub fn get_dns_entries(answer: &DnsAnswer) -> (r: Vec<String>)
    ensures
        texts(r@) == dns_entries(*answer),
{
    let mut entries: Vec<String> = Vec::new();
    match &answer.addresses {
        Some(records) => {
            let mut i: usize = 0;
            while i < records.len()
                invariant
                    i <= records.len(),
                    entries.len() == i,
                    forall|j: int| 0 <= j < i ==> entries@[j]@ == ip_entry(records@[j]),
                decreases records.len() - i,
            {
                entries.push(format_ip_record(&records[i]));
                i += 1;
            }
        },
        None => {},
    }
    assert(texts(entries@) =~= ip_entries(answer.addresses));
    let ghost first = entries@;
    match &answer.exchanges {
        Some(records) => {
            let mut i: usize = 0;
            while i < records.len()
                invariant
                    i <= records.len(),
                    entries.len() == first.len() + i,
                    forall|j: int| 0 <= j < first.len() ==> entries@[j] == first[j],
                    forall|j: int| 0 <= j < i ==> entries@[first.len() + j]@ == mx_entry(records@[j]),
                decreases records.len() - i,
            {
                entries.push(format_mx_record(&records[i]));
                i += 1;
            }
        },
        None => {},
    }
    assert(texts(entries@) =~= texts(first) + mx_entries(answer.exchanges)) by {
        let whole = texts(entries@);
        let parts = texts(first) + mx_entries(answer.exchanges);
        assert(whole.len() == parts.len());
        assert forall|j: int| 0 <= j < whole.len() implies whole[j] == parts[j] by {
            if j >= first.len() {
                let k = j - first.len();
                assert(entries@[first.len() + k]@ == mx_entry(answer.exchanges->0@[k]));
            }
        }
    }
    entries
}

} // verus!
