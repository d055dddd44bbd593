use vstd::prelude::*;
use vstd::std_specs::iter::IteratorSpec;

verus! {

/// Whether `c` has the Unicode property White_Space, as `char::is_whitespace`
/// reports it.
pub uninterp spec fn char_is_whitespace(c: char) -> bool;

/// Whether `c` is a control code (general category Cc), as `char::is_control`
/// reports it.
pub uninterp spec fn char_is_control(c: char) -> bool;

/// Calls `char::is_whitespace`. Trusted: the result is the White_Space
/// property of `c`, which the library only knows by name.
#[verifier::external_body]
fn is_whitespace(c: char) -> (r: bool)
    ensures
        r == char_is_whitespace(c),
{
    c.is_whitespace()
}

/// Calls `char::is_control`. Trusted: the result says whether `c` is a
/// control code, which the library only knows by name.
#[verifier::external_body]
fn is_control(c: char) -> (r: bool)
    ensures
        r == char_is_control(c),
{
    c.is_control()
}

/// The characters of a text, in order.
pub(crate) fn chars_of(s: &str) -> (r: Vec<char>)
    ensures
        r@ == s@,
{
    broadcast use vstd::string::group_string_axioms;

    let mut rest = s.chars();
    let mut found: Vec<char> = Vec::new();
    assert(found@ + rest.remaining() =~= s@);
    loop
        invariant
            found@ + rest.remaining() == s@,
            rest.decrease() is Some,
        ensures
            found@ == s@,
        decreases rest.decrease()->0,
    {
        let ghost before = rest.remaining();
        match rest.next() {
            Some(c) => {
                found.push(c);
                assert(found@ + rest.remaining() =~= s@);
            },
            None => {
                assert(found@ + before =~= found@);
                break ;
            },
        }
    }
    found
}

/// Builds a `String` from characters with `String::from_iter`. Trusted: the
/// text holds the characters of the slice, in order.
#[verifier::external_body]
pub(crate) fn string_of(chars: &[char]) -> (r: String)
    ensures
        r@ == chars@,
{
    String::from_iter(chars)
}

/// A printable ASCII character other than the space: U+0021 to U+007E.
pub open spec fn is_ascii_graphic(c: char) -> bool {
    0x21 <= c as u32 <= 0x7e
}

/// One of the characters that give a URI its structure.
pub open spec fn is_uri_punctuation(c: char) -> bool {
    c == '/' || c == ':' || c == '.' || c == '-' || c == '_' || c == '?' || c == '&' || c == '='
        || c == '%' || c == '~'
}

/// The characters that a sanitized URI may hold.
pub open spec fn uri_char_allowed(c: char) -> bool {
    is_ascii_graphic(c) || char_is_whitespace(c) || is_uri_punctuation(c)
}

/// The characters that a cleaned description keeps.
pub open spec fn description_char_kept(c: char) -> bool {
    !char_is_control(c)
}

/// What `clean_uri` makes of a text.
pub open spec fn clean_uri_spec(input: Seq<char>) -> Seq<char> {
    input.filter(|c: char| uri_char_allowed(c))
}

/// What `clean_description` makes of a text.
pub open spec fn clean_description_spec(input: Seq<char>) -> Seq<char> {
    input.filter(|c: char| description_char_kept(c))
}

/// Filtering a prefix that is one longer adds the new last item if it passes.
pub proof fn lemma_filter_step<A>(s: Seq<A>, pred: spec_fn(A) -> bool, i: int)
    requires
        0 <= i < s.len(),
    ensures
        s.take(i + 1).filter(pred) == if pred(s[i]) {
            s.take(i).filter(pred).push(s[i])
        } else {
            s.take(i).filter(pred)
        },
{
    reveal(Seq::filter);
    assert(s.take(i + 1).drop_last() =~= s.take(i));
}

/// A filter leaves a sequence as it is when every item passes.
pub proof fn lemma_filter_all_pass<A>(s: Seq<A>, pred: spec_fn(A) -> bool)
    requires
        forall|i: int| 0 <= i < s.len() ==> pred(#[trigger] s[i]),
    ensures
        s.filter(pred) == s,
    decreases s.len(),
{
    reveal(Seq::filter);
    if s.len() > 0 {
        lemma_filter_all_pass(s.drop_last(), pred);
        assert(s.drop_last().push(s.last()) =~= s);
    }
}

/// Every item that a filter keeps passes the test.
pub proof fn lemma_filter_kept_pass<A>(s: Seq<A>, pred: spec_fn(A) -> bool)
    ensures
        forall|i: int| 0 <= i < s.filter(pred).len() ==> pred(#[trigger] s.filter(pred)[i]),
    decreases s.len(),
{
    reveal(Seq::filter);
    if s.len() > 0 {
        lemma_filter_kept_pass(s.drop_last(), pred);
    }
}

fn char_is_ascii_graphic(c: char) -> (r: bool)
    ensures
        r == is_ascii_graphic(c),
{
    let n: u32 = c as u32;
    0x21 <= n && n <= 0x7e
}

fn char_is_uri_punctuation(c: char) -> (r: bool)
    ensures
        r == is_uri_punctuation(c),
{
    c == '/' || c == ':' || c == '.' || c == '-' || c == '_' || c == '?' || c == '&' || c == '='
        || c == '%' || c == '~'
}

/// Removes from a URI every character that is neither printable ASCII, nor
/// white space, nor URI punctuation. What is kept stays in order.
pub fn clean_uri(input: &str) -> (r: String)
    ensures
        r@ == clean_uri_spec(input@),
{
    let chars = chars_of(input);
    let mut kept: Vec<char> = Vec::new();
    let ghost pred = |c: char| uri_char_allowed(c);
    let mut i: usize = 0;
    proof {
        reveal(Seq::filter);
        assert(chars@.take(0).filter(pred) =~= Seq::<char>::empty());
    }
    while i < chars.len()
        invariant
            i <= chars.len(),
            pred == (|c: char| uri_char_allowed(c)),
            kept@ == chars@.take(i as int).filter(pred),
        decreases chars.len() - i,
    {
        let c = chars[i];
        proof {
            lemma_filter_step(chars@, pred, i as int);
        }
        if char_is_ascii_graphic(c) || is_whitespace(c) || char_is_uri_punctuation(c) {
            kept.push(c);
        }
        i += 1;
    }
    assert(chars@.take(i as int) =~= chars@);
    string_of(kept.as_slice())
}

/// Removes every control code from a description. What is kept stays in
/// order.
pub fn clean_description(input: &str) -> (r: String)
    ensures
        r@ == clean_description_spec(input@),
{
    let chars = chars_of(input);
    let mut kept: Vec<char> = Vec::new();
    let ghost pred = |c: char| description_char_kept(c);
    let mut i: usize = 0;
    proof {
        reveal(Seq::filter);
        assert(chars@.take(0).filter(pred) =~= Seq::<char>::empty());
    }
    while i < chars.len()
        invariant
            i <= chars.len(),
            pred == (|c: char| description_char_kept(c)),
            kept@ == chars@.take(i as int).filter(pred),
        decreases chars.len() - i,
    {
        let c = chars[i];
        proof {
            lemma_filter_step(chars@, pred, i as int);
        }
        if !is_control(c) {
            kept.push(c);
        }
        i += 1;
    }
    assert(chars@.take(i as int) =~= chars@);
    string_of(kept.as_slice())
}

/// A URI that holds only allowed characters is returned unchanged.
pub proof fn lemma_clean_uri_keeps_clean(input: Seq<char>)
    requires
        forall|i: int| 0 <= i < input.len() ==> uri_char_allowed(#[trigger] input[i]),
    ensures
        clean_uri_spec(input) == input,
{
    lemma_filter_all_pass(input, |c: char| uri_char_allowed(c));
}

/// Sanitizing a URI a second time changes nothing.
pub proof fn lemma_clean_uri_idempotent(input: Seq<char>)
    ensures
        clean_uri_spec(clean_uri_spec(input)) == clean_uri_spec(input),
{
    let pred = |c: char| uri_char_allowed(c);
    lemma_filter_kept_pass(input, pred);
    lemma_filter_all_pass(input.filter(pred), pred);
}

/// A cleaned description holds no control code, and a description without
/// control codes is returned unchanged.
pub proof fn lemma_clean_description_strips(input: Seq<char>)
    ensures
        forall|i: int|
            0 <= i < clean_description_spec(input).len() ==> !char_is_control(
                #[trigger] clean_description_spec(input)[i],
            ),
        (forall|i: int| 0 <= i < input.len() ==> !char_is_control(#[trigger] input[i]))
            ==> clean_description_spec(input) == input,
{
    let pred = |c: char| description_char_kept(c);
    lemma_filter_kept_pass(input, pred);
    if forall|i: int| 0 <= i < input.len() ==> !char_is_control(#[trigger] input[i]) {
        lemma_filter_all_pass(input, pred);
    }
}

} // verus!
