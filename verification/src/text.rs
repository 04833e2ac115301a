//! Small operations on text that the rest of the library shares.

use vstd::prelude::*;
use vstd::string::StringExecFns;
use vstd::string::StringSliceAdditionalSpecFns;
use vstd::utf8::encode_utf8;

verus! {

/// Whether `text` begins with `prefix`.
pub open spec fn has_prefix(text: Seq<char>, prefix: Seq<char>) -> bool {
    prefix.len() <= text.len() && text.subrange(0, prefix.len() as int) == prefix
}

/// The number of bytes that `text` takes when it is encoded as UTF-8.
pub open spec fn byte_len(text: Seq<char>) -> nat {
    encode_utf8(text).len()
}

/// The number of bytes that `text` takes.
pub fn len_in_bytes(text: &str) -> (len: usize)
    ensures
        len == byte_len(text@),
{
    text.as_bytes().len()
}

/// Says whether two pieces of text are the same.
pub fn same_text(left: &str, right: &str) -> (same: bool)
    ensures
        same == (left@ == right@),
{
    String::from_str(left) == String::from_str(right)
}

/// Says whether `text` begins with `prefix`.
pub fn starts_with(text: &str, prefix: &str) -> (found: bool)
    ensures
        found == has_prefix(text@, prefix@),
{
    let prefix_len = prefix.unicode_len();
    let text_len = text.unicode_len();
    if prefix_len > text_len {
        return false;
    }
    let mut at: usize = 0;
    while at < prefix_len
        invariant
            at <= prefix_len <= text_len,
            prefix_len == prefix@.len(),
            text_len == text@.len(),
            text@.subrange(0, at as int) == prefix@.subrange(0, at as int),
        decreases prefix_len - at,
    {
        if text.get_char(at) != prefix.get_char(at) {
            assert(text@.subrange(0, prefix_len as int)[at as int] != prefix@[at as int]);
            return false;
        }
        assert(text@.subrange(0, at + 1) =~= text@.subrange(0, at as int).push(text@[at as int]));
        assert(prefix@.subrange(0, at + 1) =~= prefix@.subrange(0, at as int).push(
            prefix@[at as int],
        ));
        at += 1;
    }
    assert(prefix@.subrange(0, prefix_len as int) =~= prefix@);
    true
}

/// What follows the first `count` characters of `text`.
pub fn skip_chars(text: &str, count: usize) -> (rest: String)
    requires
        count <= text@.len(),
    ensures
        rest@ == text@.skip(count as int),
{
    let text_len = text.unicode_len();
    let rest = String::from_str(text.substring_char(count, text_len));
    assert(rest@ =~= text@.skip(count as int));
    rest
}

/// The text of `value`, or `alter` where there is no value.
pub fn value_or(value: Option<String>, alter: &str) -> (text: String)
    ensures
        text@ == (match value {
            Some(given) => given@,
            None => alter@,
        }),
{
    match value {
        Some(given) => given,
        None => String::from_str(alter),
    }
}

} // verus!
