//! The identifier normalizer: an identifier as read from the input is reduced
//! to its ASCII digits, which serve as cache key and as the last part of the
//! request URL.

use regex::Regex;
use vstd::prelude::*;

verus! {

/// An ASCII digit, `0` to `9`.
pub open spec fn is_digit(c: char) -> bool {
    '0' <= c && c <= '9'
}

/// The test that keeps the digits, as a value.
pub open spec fn keeps_digit() -> spec_fn(char) -> bool {
    |c: char| is_digit(c)
}

/// The digits of `raw`, in the order in which they stand in it.
pub open spec fn digits_of(raw: Seq<char>) -> Seq<char> {
    raw.filter(keeps_digit())
}

/// Every character is a digit.
pub open spec fn all_digits(text: Seq<char>) -> bool {
    forall|i: int| 0 <= i < text.len() ==> is_digit(#[trigger] text[i])
}

/// The pattern of a single character that is no digit: `[^0-9]`.
pub open spec fn non_digit_class() -> Seq<char> {
    seq!['[', '^', '0', '-', '9', ']']
}

/// Compiles `pattern` with `regex::Regex::new` and replaces every match in
/// `text` with `Regex::replace_all`.
///
/// The contract is stated for the one use this library makes of it: the
/// pattern is the negated class of the digits and the replacement is empty.
/// That pattern compiles; each of its matches is one character that is no
/// digit, and every such character is a match. What is left when all matches
/// are replaced by nothing is the digits of `text` in their order. This is
/// taken from the documentation of the pattern syntax and of `replace_all`,
/// and is not proved here.
#[verifier::external_body]
fn replace_all(pattern: &str, text: &str, replacement: &str) -> (replaced: String)
    requires
        pattern@ == non_digit_class(),
        replacement@.len() == 0,
    ensures
        replaced@ == digits_of(text@),
{
    Regex::new(pattern).unwrap().replace_all(text, replacement).into_owned()
}

/// Removes every character that is not a digit, so that the identifier can be
/// used whatever format the input gives it in.
pub fn normalize_nr(nr: &str) -> (normalized: String)
    ensures
        normalized@ == digits_of(nr@),
{
    proof {
        reveal_strlit("[^0-9]");
        reveal_strlit("");
        assert("[^0-9]"@ =~= non_digit_class());
    }
    replace_all("[^0-9]", nr, "")
}

/// What normalizing leaves holds digits only.
pub proof fn lemma_normalized_all_digits(raw: Seq<char>)
    ensures
        all_digits(digits_of(raw)),
        digits_of(raw).len() <= raw.len(),
{
    raw.lemma_filter_len(keeps_digit());
    assert forall|i: int| 0 <= i < digits_of(raw).len() implies is_digit(
        #[trigger] digits_of(raw)[i],
    ) by {
        raw.lemma_filter_pred(keeps_digit(), i);
    }
}

/// Normalizing changes nothing in a text that holds digits only.
pub proof fn lemma_digits_unchanged(text: Seq<char>)
    requires
        all_digits(text),
    ensures
        digits_of(text) == text,
    decreases text.len(),
{
    reveal(Seq::filter);
    if text.len() > 0 {
        let front = text.drop_last();
        assert forall|i: int| 0 <= i < front.len() implies is_digit(#[trigger] front[i]) by {
            assert(front[i] == text[i]);
        }
        lemma_digits_unchanged(front);
        assert(is_digit(text.last()));
        assert(front.push(text.last()) =~= text);
    }
}

/// Normalizing is idempotent: a second pass returns what the first returned.
pub proof fn lemma_normalize_idempotent(raw: Seq<char>)
    ensures
        digits_of(digits_of(raw)) == digits_of(raw),
{
    lemma_normalized_all_digits(raw);
    lemma_digits_unchanged(digits_of(raw));
}

/// Normalizing a text in two parts gives the digits of the first part followed
/// by those of the second: digits keep their order and nothing else stays.
pub proof fn lemma_digits_of_concat(head: Seq<char>, tail: Seq<char>)
    ensures
        digits_of(head + tail) == digits_of(head) + digits_of(tail),
{
    Seq::filter_distributes_over_add(head, tail, keeps_digit());
}

} // verus!
