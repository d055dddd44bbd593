use crate::errors::AppError;
use crate::supply_info::SupplyInfo;
use crate::text::{clean_description, clean_description_spec};
use crate::token_info::TokenInfo;
use vstd::prelude::*;

verus! {

/// The description of a record after cleaning, if it has one.
pub open spec fn cleaned_description(description: Option<String>) -> Option<Seq<char>> {
    match description {
        Some(text) => Some(clean_description_spec(text@)),
        None => None,
    }
}

/// Whether `record` is `info` with the supply set to `amount` and the
/// description cleaned of control codes.
pub open spec fn is_final_record(info: TokenInfo, amount: String, record: TokenInfo) -> bool {
    &&& record.supply == Some(amount)
    &&& record.description is Some <==> info.description is Some
    &&& record.description is Some ==> Some(record.description->0@) == cleaned_description(
        info.description,
    )
    &&& record == (TokenInfo { supply: record.supply, description: record.description, ..info })
}

/// The messages to show for two failures: both, or one where they read the
/// same.
pub open spec fn merged_messages(first: Seq<char>, second: Seq<char>) -> Seq<Seq<char>> {
    if first == second {
        seq![first]
    } else {
        seq![first, second]
    }
}

/// The messages to show where the two branches ended as given, with at least
/// one failure among them.
pub open spec fn failure_messages(
    token: Result<TokenInfo, AppError>,
    supply: Result<SupplyInfo, AppError>,
) -> Seq<Seq<char>> {
    match (token, supply) {
        (Err(e), Ok(_)) => seq![e.message_spec()],
        (Ok(_), Err(e)) => seq![e.message_spec()],
        (Err(first), Err(second)) => merged_messages(first.message_spec(), second.message_spec()),
        (Ok(_), Ok(_)) => Seq::empty(),
    }
}

/// Whether `lines` holds exactly the texts `expected`.
pub open spec fn reads_as(lines: Seq<String>, expected: Seq<Seq<char>>) -> bool {
    &&& lines.len() == expected.len()
    &&& forall|i: int| 0 <= i < lines.len() ==> (#[trigger] lines[i])@ == expected[i]
}

/// Joins the outcomes of the two branches of a resolution. Where both
/// succeeded, the record is returned with the supply set and the description
/// cleaned of control codes. Where either failed, no record is returned: the
/// messages of the failures are, that of the token branch first, and only one
/// where both read the same.
pub fn combine_results(
    token: Result<TokenInfo, AppError>,
    supply: Result<SupplyInfo, AppError>,
) -> (r: Result<TokenInfo, Vec<String>>)
    ensures
        (match r {
            Ok(record) => token is Ok && supply is Ok && is_final_record(
                token->Ok_0,
                supply->Ok_0.amount,
                record,
            ),
            Err(lines) => (token is Err || supply is Err) && reads_as(
                lines@,
                failure_messages(token, supply),
            ),
        }),
{
    match (token, supply) {
        (Ok(info), Ok(supply_info)) => {
            let description = match &info.description {
                Some(text) => Some(clean_description(text.as_str())),
                None => None,
            };
            let mut record = info;
            record.supply = Some(supply_info.amount);
            record.description = description;
            Ok(record)
        },
        (Err(e), Ok(_)) => {
            let mut lines: Vec<String> = Vec::new();
            lines.push(e.message());
            Err(lines)
        },
        (Ok(_), Err(e)) => {
            let mut lines: Vec<String> = Vec::new();
            lines.push(e.message());
            Err(lines)
        },
        (Err(first), Err(second)) => {
            let first_message = first.message();
            let second_message = second.message();
            let same = first_message == second_message;
            let mut lines: Vec<String> = Vec::new();
            lines.push(first_message);
            if !same {
                lines.push(second_message);
            }
            Err(lines)
        },
    }
}

} // verus!
