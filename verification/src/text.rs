//! Small string operations that the rest of the library builds on.

use vstd::prelude::*;
use vstd::std_specs::iter::IteratorSpec;
use vstd::string::StringSliceAdditionalSpecFns;

verus! {

/// What `char::is_uppercase` answers for a character.
pub uninterp spec fn char_is_uppercase(c: char) -> bool;

/// What `char::is_alphabetic` answers for a character.
pub uninterp spec fn char_is_alphabetic(c: char) -> bool;

/// What `char::is_whitespace` answers for a character.
pub uninterp spec fn char_is_whitespace(c: char) -> bool;

/// Calls `char::is_uppercase`: whether the character has the Unicode
/// property Uppercase. The answer is a fixed function of the character.
#[verifier::external_body]
pub(crate) fn is_uppercase(c: char) -> (r: bool)
    ensures
        r == char_is_uppercase(c),
{
    c.is_uppercase()
}

/// Calls `char::is_alphabetic`: whether the character has the Unicode
/// property Alphabetic. The answer is a fixed function of the character.
#[verifier::external_body]
pub(crate) fn is_alphabetic(c: char) -> (r: bool)
    ensures
        r == char_is_alphabetic(c),
{
    c.is_alphabetic()
}

/// Calls `char::is_whitespace`: whether the character has the Unicode
/// property White_Space. The answer is a fixed function of the character.
#[verifier::external_body]
pub(crate) fn is_whitespace(c: char) -> (r: bool)
    ensures
        r == char_is_whitespace(c),
{
    c.is_whitespace()
}

/// Calls `String::push`, which appends one character to the string.
#[verifier::external_body]
pub(crate) fn push_char(s: &mut String, c: char)
    ensures
        final(s)@ == old(s)@.push(c),
{
    s.push(c)
}

/// The length of a text in bytes.
pub open spec fn byte_len(text: Seq<char>) -> nat {
    vstd::utf8::encode_utf8(text).len()
}

/// The length of a string in bytes.
pub fn byte_length(s: &str) -> (n: usize)
    ensures
        n == byte_len(s@),
{
    s.as_bytes().len()
}

/// The characters of a string, in order.
pub fn chars_of(s: &str) -> (v: Vec<char>)
    ensures
        v@ == s@,
{
    broadcast use vstd::string::next_postcondition, vstd::string::axiom_spec_iter;
    let mut it = s.chars();
    let mut v: Vec<char> = Vec::new();
    loop
        invariant
            it.obeys_prophetic_iter_laws(),
            it.decrease() is Some,
            v@ + it.remaining() == s@,
        decreases it.decrease()->0,
    {
        let ghost before = it;
        match it.next() {
            Some(c) => {
                assert(before.remaining() =~= seq![c] + it.remaining());
                assert(v@.push(c) + it.remaining() =~= v@ + before.remaining());
                v.push(c);
            },
            None => {
                assert(v@ + it.remaining() =~= v@);
                return v;
            },
        }
    }
}

/// The text of an identifier as `uuid::Uuid` displays it.
pub uninterp spec fn uuid_text(id: u128) -> Seq<char>;

/// Calls `uuid::Uuid::from_u128` and the `to_string` of the result: the
/// identifier in hyphenated lowercase hexadecimal form. The text is a fixed
/// function of the number.
#[verifier::external_body]
pub(crate) fn format_uuid(id: u128) -> (s: String)
    ensures
        s@ == uuid_text(id),
{
    uuid::Uuid::from_u128(id).to_string()
}

/// Whether `a` and `b` bound what is left of `line` once the whitespace at
/// both ends is taken off.
pub open spec fn trim_bounds(line: Seq<char>, a: int, b: int) -> bool {
    &&& 0 <= a <= b <= line.len()
    &&& forall|i: int| 0 <= i < a ==> char_is_whitespace(#[trigger] line[i])
    &&& forall|i: int| b <= i < line.len() ==> char_is_whitespace(#[trigger] line[i])
    &&& a < b ==> !char_is_whitespace(line[a]) && !char_is_whitespace(line[b - 1])
}

/// A line without the whitespace at its ends.
pub open spec fn trimmed(line: Seq<char>) -> Seq<char> {
    let (a, b) = choose|a: int, b: int| trim_bounds(line, a, b);
    line.subrange(a, b)
}

/// Whatever bounds qualify, they cut out the same text.
pub proof fn lemma_trimmed(line: Seq<char>, a: int, b: int)
    requires
        trim_bounds(line, a, b),
    ensures
        trimmed(line) == line.subrange(a, b),
{
    let (c, d) = choose|c: int, d: int| trim_bounds(line, c, d);
    assert(trim_bounds(line, c, d));
    if a < b {
        assert(!char_is_whitespace(line[a]));
        assert(!char_is_whitespace(line[b - 1]));
        if c < d {
            assert(!char_is_whitespace(line[c]));
            assert(!char_is_whitespace(line[d - 1]));
            assert(a == c);
            assert(b == d);
        } else {
            assert(a < c || a >= d);
            assert(false);
        }
    } else {
        if c < d {
            assert(!char_is_whitespace(line[c]));
            assert(c < a || c >= b);
            assert(false);
        }
        assert(line.subrange(a, b) =~= line.subrange(c, d));
    }
}

/// The string that holds the characters from `from` up to `to`.
pub fn string_of_range(chars: &Vec<char>, from: usize, to: usize) -> (s: String)
    requires
        from <= to <= chars@.len(),
    ensures
        s@ == chars@.subrange(from as int, to as int),
{
    let mut s = String::new();
    let mut i: usize = from;
    while i < to
        invariant
            from <= i <= to <= chars@.len(),
            s@ == chars@.subrange(from as int, i as int),
        decreases to - i,
    {
        push_char(&mut s, chars[i]);
        assert(chars@.subrange(from as int, i as int).push(chars@[i as int]) =~= chars@.subrange(
            from as int,
            i + 1,
        ));
        i = i + 1;
    }
    s
}

} // verus!
