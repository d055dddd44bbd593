use crate::errors::AppError;
use crate::text::{chars_of, string_of};
use vstd::prelude::*;
use vstd::slice::slice_subrange;
use vstd::string::StringExecFns;
use vstd::utf8::{
    decode_utf8, encode_utf8, encode_utf8_decode_utf8, encode_utf8_valid_utf8, is_ascii_chars,
    is_ascii_chars_encode_utf8, valid_utf8,
};

verus! {

/// Where the symbol field starts in a metadata account.
pub const SYMBOL_OFFSET: usize = 96;

/// The width of the symbol field.
pub const SYMBOL_LEN: usize = 10;

/// The width of the URI field.
pub const URI_LEN: usize = 200;

/// The least length of a metadata account.
pub const MIN_ACCOUNT_LEN: usize = 306;

/// The detail of the error for an account that is too short.
pub const TOO_SHORT: &'static str = "metadata account is too short";

/// The text that `String::from_utf8_lossy` reads from bytes that are not
/// valid UTF-8, with each invalid sequence replaced.
pub uninterp spec fn utf8_lossy(bytes: Seq<u8>) -> Seq<char>;

/// Calls `String::from_utf8_lossy`. Trusted: valid UTF-8 is read as the text
/// that it encodes; of other bytes the text returned is only known by name.
#[verifier::external_body]
fn from_utf8_lossy(bytes: &[u8]) -> (r: String)
    ensures
        valid_utf8(bytes@) ==> r@ == decode_utf8(bytes@),
        !valid_utf8(bytes@) ==> r@ == utf8_lossy(bytes@),
{
    String::from_utf8_lossy(bytes).into_owned()
}

/// The text that bytes stand for: the text that they encode where they are
/// valid UTF-8, else what lossy decoding makes of them.
pub open spec fn lossy_text(bytes: Seq<u8>) -> Seq<char> {
    if valid_utf8(bytes) {
        decode_utf8(bytes)
    } else {
        utf8_lossy(bytes)
    }
}

/// The number of null bytes in a sequence.
pub open spec fn count_nulls(bytes: Seq<u8>) -> nat
    decreases bytes.len(),
{
    if bytes.len() == 0 {
        0
    } else {
        count_nulls(bytes.drop_last()) + if bytes.last() == 0u8 {
            1nat
        } else {
            0nat
        }
    }
}

/// A text without the null characters at its end.
pub open spec fn trim_nulls(text: Seq<char>) -> Seq<char>
    decreases text.len(),
{
    if text.len() > 0 && text.last() == '\0' {
        trim_nulls(text.drop_last())
    } else {
        text
    }
}

/// The bytes of the symbol field. The account holds at least 106 bytes.
pub open spec fn symbol_field(data: Seq<u8>) -> Seq<u8> {
    data.subrange(SYMBOL_OFFSET as int, SYMBOL_OFFSET + SYMBOL_LEN)
}

/// Where the URI field starts: behind the symbol field, moved on by one byte
/// for each null byte in the symbol field. This follows the way accounts
/// were packed; it is a heuristic, kept for the accounts that exist.
pub open spec fn uri_offset(data: Seq<u8>) -> int {
    SYMBOL_OFFSET + SYMBOL_LEN + count_nulls(symbol_field(data))
}

/// The bytes of the URI field.
pub open spec fn uri_field(data: Seq<u8>) -> Seq<u8> {
    data.subrange(uri_offset(data), uri_offset(data) + URI_LEN)
}

/// Whether the account is long enough to hold both fields.
pub open spec fn account_complete(data: Seq<u8>) -> bool {
    data.len() >= MIN_ACCOUNT_LEN && data.len() >= uri_offset(data) + URI_LEN
}

/// The symbol that a complete account holds.
pub open spec fn symbol_text(data: Seq<u8>) -> Seq<char> {
    trim_nulls(lossy_text(symbol_field(data)))
}

/// The URI that a complete account holds, as found, not yet sanitized.
pub open spec fn uri_text(data: Seq<u8>) -> Seq<char> {
    trim_nulls(lossy_text(uri_field(data)))
}

/// Counting nulls in a prefix that is one longer.
proof fn lemma_count_nulls_step(bytes: Seq<u8>, i: int)
    requires
        0 <= i < bytes.len(),
    ensures
        count_nulls(bytes.take(i + 1)) == count_nulls(bytes.take(i)) + if bytes[i] == 0u8 {
            1nat
        } else {
            0nat
        },
        count_nulls(bytes.take(i + 1)) <= i + 1,
    decreases i,
{
    assert(bytes.take(i + 1).drop_last() =~= bytes.take(i));
    if i > 0 {
        lemma_count_nulls_step(bytes, i - 1);
    }
}

/// A sequence holds no more nulls than bytes, and none where no byte is null.
pub proof fn lemma_count_nulls_bounds(bytes: Seq<u8>)
    ensures
        count_nulls(bytes) <= bytes.len(),
        (forall|i: int| 0 <= i < bytes.len() ==> bytes[i] != 0u8) ==> count_nulls(bytes) == 0,
        (exists|i: int| 0 <= i < bytes.len() && bytes[i] == 0u8) ==> count_nulls(bytes) >= 1,
    decreases bytes.len(),
{
    if bytes.len() > 0 {
        lemma_count_nulls_bounds(bytes.drop_last());
        if exists|i: int| 0 <= i < bytes.len() && bytes[i] == 0u8 {
            let i = choose|i: int| 0 <= i < bytes.len() && bytes[i] == 0u8;
            if i < bytes.len() - 1 {
                assert(bytes.drop_last()[i] == 0u8);
            }
        }
        if forall|i: int| 0 <= i < bytes.len() ==> bytes[i] != 0u8 {
            assert forall|i: int| 0 <= i < bytes.drop_last().len() implies bytes.drop_last()[i]
                != 0u8 by {
                assert(bytes.drop_last()[i] == bytes[i]);
            }
        }
    }
}

/// An account shorter than 306 bytes is never complete.
pub proof fn lemma_short_account_incomplete(data: Seq<u8>)
    requires
        data.len() < MIN_ACCOUNT_LEN,
    ensures
        !account_complete(data),
{
}

/// The URI field starts at 106 where the symbol field holds no null byte, and
/// no later than 116 in any case; an account of 316 bytes is always complete.
pub proof fn lemma_uri_offset_bounds(data: Seq<u8>)
    requires
        data.len() >= SYMBOL_OFFSET + SYMBOL_LEN,
    ensures
        106 <= uri_offset(data) <= 116,
        (forall|i: int| 96 <= i < 106 ==> data[i] != 0u8) ==> uri_offset(data) == 106,
        data.len() >= 316 ==> account_complete(data),
{
    lemma_count_nulls_bounds(symbol_field(data));
    if forall|i: int| 96 <= i < 106 ==> data[i] != 0u8 {
        assert forall|i: int| 0 <= i < symbol_field(data).len() implies symbol_field(data)[i]
            != 0u8 by {
            assert(symbol_field(data)[i] == data[i + 96]);
        }
    }
}

/// Trimming leaves a text that does not end in a null character, and leaves
/// such a text as it is.
pub proof fn lemma_trim_nulls(text: Seq<char>)
    ensures
        trim_nulls(text).len() <= text.len(),
        trim_nulls(text) == text.take(trim_nulls(text).len() as int),
        trim_nulls(text).len() > 0 ==> trim_nulls(text).last() != '\0',
        forall|i: int| trim_nulls(text).len() <= i < text.len() ==> text[i] == '\0',
    decreases text.len(),
{
    if text.len() > 0 && text.last() == '\0' {
        let rest = text.drop_last();
        lemma_trim_nulls(rest);
        let n = trim_nulls(rest).len() as int;
        assert(rest.take(n) =~= text.take(n));
        assert forall|i: int| trim_nulls(text).len() <= i < text.len() implies text[i]
            == '\0' by {
            if i < rest.len() {
                assert(rest[i] == text[i]);
            }
        }
    } else {
        assert(text.take(text.len() as int) =~= text);
    }
}

/// A sequence with a single null byte holds one null.
pub proof fn lemma_count_single_null(bytes: Seq<u8>, k: int)
    requires
        0 <= k < bytes.len(),
        bytes[k] == 0u8,
        forall|i: int| 0 <= i < bytes.len() && i != k ==> bytes[i] != 0u8,
    ensures
        count_nulls(bytes) == 1,
    decreases bytes.len(),
{
    let rest = bytes.drop_last();
    if k == bytes.len() - 1 {
        assert forall|i: int| 0 <= i < rest.len() implies rest[i] != 0u8 by {
            assert(rest[i] == bytes[i]);
        }
        lemma_count_nulls_bounds(rest);
    } else {
        assert(rest[k] == bytes[k]);
        assert forall|i: int| 0 <= i < rest.len() && i != k implies rest[i] != 0u8 by {
            assert(rest[i] == bytes[i]);
        }
        lemma_count_single_null(rest, k);
    }
}

/// A single null byte in the symbol field moves the URI field on by one byte:
/// it is then read from offset 107.
pub proof fn lemma_single_null_shifts_uri(data: Seq<u8>, k: int)
    requires
        data.len() >= SYMBOL_OFFSET + SYMBOL_LEN,
        96 <= k < 106,
        data[k] == 0u8,
        forall|i: int| 96 <= i < 106 && i != k ==> data[i] != 0u8,
    ensures
        uri_offset(data) == 107,
        uri_field(data) == data.subrange(107, 307),
        account_complete(data) <==> data.len() >= 307,
{
    let symbol = symbol_field(data);
    assert(symbol[k - 96] == data[k]);
    assert forall|i: int| 0 <= i < symbol.len() && i != k - 96 implies symbol[i] != 0u8 by {
        assert(symbol[i] == data[i + 96]);
    }
    lemma_count_single_null(symbol, k - 96);
}

/// Trimming a text that was padded with null characters gives the text back,
/// provided the text itself does not end in one.
pub proof fn lemma_trim_padded(text: Seq<char>, padding: nat)
    requires
        text.len() > 0 ==> text.last() != '\0',
    ensures
        trim_nulls(text + Seq::new(padding, |i: int| '\0')) == text,
    decreases padding,
{
    let padded = text + Seq::new(padding, |i: int| '\0');
    if padding > 0 {
        assert(padded.last() == '\0');
        assert(padded.drop_last() =~= text + Seq::new((padding - 1) as nat, |i: int| '\0'));
        lemma_trim_padded(text, (padding - 1) as nat);
    } else {
        assert(padded =~= text);
    }
}

/// A field that holds the bytes of an ASCII text, followed by null bytes
/// only, reads as that text.
pub proof fn lemma_ascii_field(bytes: Seq<u8>, text: Seq<char>)
    requires
        is_ascii_chars(text),
        text.len() <= bytes.len(),
        text.len() > 0 ==> text.last() != '\0',
        forall|i: int| 0 <= i < text.len() ==> bytes[i] == text[i] as u8,
        forall|i: int| text.len() <= i < bytes.len() ==> bytes[i] == 0u8,
    ensures
        trim_nulls(lossy_text(bytes)) == text,
{
    let padding = (bytes.len() - text.len()) as nat;
    let padded = text + Seq::new(padding, |i: int| '\0');
    assert(is_ascii_chars(padded));
    is_ascii_chars_encode_utf8(padded);
    assert(encode_utf8(padded) =~= bytes) by {
        assert forall|i: int| 0 <= i < bytes.len() implies encode_utf8(padded)[i] == bytes[i] by {
            assert(padded[i] as u8 == encode_utf8(padded)[i]);
        }
    }
    encode_utf8_valid_utf8(padded);
    encode_utf8_decode_utf8(padded);
    lemma_trim_padded(text, padding);
}

/// An account whose symbol field holds no null byte, and whose bytes from
/// offset 106 are those of an ASCII text followed by null bytes up to offset
/// 306, holds exactly that text as its URI.
pub proof fn lemma_uri_behind_full_symbol(data: Seq<u8>, text: Seq<char>)
    requires
        data.len() >= MIN_ACCOUNT_LEN,
        forall|i: int| 96 <= i < 106 ==> data[i] != 0u8,
        is_ascii_chars(text),
        text.len() <= URI_LEN,
        text.len() > 0 ==> text.last() != '\0',
        forall|i: int| 106 <= i < 106 + text.len() ==> #[trigger] data[i] == text[i - 106] as u8,
        forall|i: int| 106 + text.len() <= i < 306 ==> #[trigger] data[i] == 0u8,
    ensures
        account_complete(data),
        uri_text(data) == text,
{
    lemma_uri_offset_bounds(data);
    let field = uri_field(data);
    assert forall|i: int| 0 <= i < text.len() implies field[i] == text[i] as u8 by {
        assert(field[i] == data[106 + i]);
    }
    assert forall|i: int| text.len() <= i < field.len() implies field[i] == 0u8 by {
        assert(field[i] == data[106 + i]);
    }
    lemma_ascii_field(field, text);
}

fn count_null_bytes(bytes: &[u8]) -> (r: usize)
    ensures
        r == count_nulls(bytes@),
        r <= bytes@.len(),
{
    let mut count: usize = 0;
    let mut i: usize = 0;
    while i < bytes.len()
        invariant
            i <= bytes.len(),
            count == count_nulls(bytes@.take(i as int)),
            count <= i,
        decreases bytes.len() - i,
    {
        proof {
            lemma_count_nulls_step(bytes@, i as int);
        }
        if bytes[i] == 0u8 {
            count += 1;
        }
        i += 1;
    }
    assert(bytes@.take(i as int) =~= bytes@);
    count
}

/// Reads a null-padded field as text: invalid UTF-8 is replaced, and the
/// null characters at the end are dropped.
fn field_text(bytes: &[u8]) -> (r: String)
    ensures
        r@ == trim_nulls(lossy_text(bytes@)),
{
    let decoded = from_utf8_lossy(bytes);
    assert(decoded@ == lossy_text(bytes@));
    let mut chars = chars_of(decoded.as_str());
    let mut end: usize = chars.len();
    assert(chars@.take(end as int) =~= chars@);
    while end > 0 && chars[end - 1] == '\0'
        invariant
            end <= chars.len(),
            trim_nulls(chars@) == trim_nulls(chars@.take(end as int)),
        decreases end,
    {
        assert(chars@.take(end as int).drop_last() =~= chars@.take(end - 1));
        end -= 1;
    }
    let ghost whole = chars@;
    chars.truncate(end);
    assert(chars@ =~= whole.take(end as int));
    string_of(chars.as_slice())
}

/// Reads the symbol of a metadata account. Fails with `ParseError` exactly
/// where the account is too short to hold its fields.
pub fn parse_symbol(data: &[u8]) -> (r: Result<String, AppError>)
    ensures
        (match r {
            Ok(symbol) => account_complete(data@) && symbol@ == symbol_text(data@),
            Err(e) => !account_complete(data@) && e is ParseError && e.detail() == TOO_SHORT@,
        }),
        data@.len() < MIN_ACCOUNT_LEN ==> r is Err,
{
    if data.len() < MIN_ACCOUNT_LEN {
        return Err(AppError::ParseError(String::from_str(TOO_SHORT)));
    }
    let symbol = slice_subrange(data, SYMBOL_OFFSET, SYMBOL_OFFSET + SYMBOL_LEN);
    let offset: usize = SYMBOL_OFFSET + SYMBOL_LEN + count_null_bytes(symbol);
    if data.len() < offset + URI_LEN {
        return Err(AppError::ParseError(String::from_str(TOO_SHORT)));
    }
    Ok(field_text(symbol))
}

/// Reads the URI of a metadata account, as found, not yet sanitized. Fails
/// with `ParseError` exactly where the account is too short to hold its
/// fields; an account shorter than 306 bytes always is.
pub fn parse_uri(data: &[u8]) -> (r: Result<String, AppError>)
    ensures
        (match r {
            Ok(uri) => account_complete(data@) && uri@ == uri_text(data@),
            Err(e) => !account_complete(data@) && e is ParseError && e.detail() == TOO_SHORT@,
        }),
        data@.len() < MIN_ACCOUNT_LEN ==> r is Err,
{
    if data.len() < MIN_ACCOUNT_LEN {
        return Err(AppError::ParseError(String::from_str(TOO_SHORT)));
    }
    let symbol = slice_subrange(data, SYMBOL_OFFSET, SYMBOL_OFFSET + SYMBOL_LEN);
    let offset: usize = SYMBOL_OFFSET + SYMBOL_LEN + count_null_bytes(symbol);
    if data.len() < offset + URI_LEN {
        return Err(AppError::ParseError(String::from_str(TOO_SHORT)));
    }
    Ok(field_text(slice_subrange(data, offset, offset + URI_LEN)))
}

} // verus!
