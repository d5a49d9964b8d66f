//! Repair of sentences that run into each other without a line break.

use vstd::prelude::*;
use crate::executor::GeminiExecutor;
use crate::text::{char_is_alphabetic, char_is_uppercase, chars_of, is_alphabetic, is_uppercase, push_char};

verus! {

/// An uppercase letter.
pub open spec fn is_capital(c: char) -> bool {
    char_is_uppercase(c) && char_is_alphabetic(c)
}

/// For each character of a text, whether it is an uppercase letter.
pub open spec fn capitals(content: Seq<char>) -> Seq<bool> {
    Seq::new(content.len(), |i: int| is_capital(content[i]))
}

/// Whether a text ends in a period.
pub open spec fn ends_in_period(accumulated: Seq<char>) -> bool {
    accumulated.len() > 0 && accumulated.last() == '.'
}

/// Whether a line break belongs after position `i` of `content`: a period
/// there, directly followed by a character that `capital` marks.
pub open spec fn breaks_after(content: Seq<char>, capital: Seq<bool>, i: int) -> bool {
    &&& 0 <= i
    &&& i + 1 < content.len()
    &&& content[i] == '.'
    &&& capital[i + 1]
}

/// The first `n` characters of `content`, each followed by a line break
/// where one belongs.
pub open spec fn repaired(content: Seq<char>, capital: Seq<bool>, n: int) -> Seq<char>
    decreases n,
{
    if n <= 0 {
        Seq::empty()
    } else if breaks_after(content, capital, n - 1) {
        repaired(content, capital, n - 1).push(content[n - 1]).push('\n')
    } else {
        repaired(content, capital, n - 1).push(content[n - 1])
    }
}

/// The chunk as it is appended to a text, where `capital` marks the
/// uppercase letters of the chunk and `after_period` says whether the text
/// ends in a period: a line break first where the chunk starts with an
/// uppercase letter after a period, then the chunk with a line break after
/// each period that an uppercase letter follows directly.
pub open spec fn formatted_with(content: Seq<char>, capital: Seq<bool>, after_period: bool) -> Seq<
    char,
> {
    if after_period && content.len() > 0 && capital[0] {
        seq!['\n'] + repaired(content, capital, content.len() as int)
    } else {
        repaired(content, capital, content.len() as int)
    }
}

/// The chunk as it is appended to the text so far.
pub open spec fn formatted(content: Seq<char>, accumulated: Seq<char>) -> Seq<char> {
    formatted_with(content, capitals(content), ends_in_period(accumulated))
}

/// A chunk in which no period is directly followed by an uppercase letter
/// comes back unchanged.
pub proof fn lemma_repaired_unchanged(content: Seq<char>, capital: Seq<bool>, n: int)
    requires
        0 <= n <= content.len(),
        forall|i: int| 0 <= i < n ==> !#[trigger] breaks_after(content, capital, i),
    ensures
        repaired(content, capital, n) == content.take(n),
    decreases n,
{
    if n > 0 {
        lemma_repaired_unchanged(content, capital, n - 1);
        assert(content.take(n - 1).push(content[n - 1]) =~= content.take(n));
    } else {
        assert(content.take(n) =~= Seq::<char>::empty());
    }
}

/// The chunk as it is appended to a text, from the chunk's characters, the
/// marks of its uppercase letters and whether the text ends in a period.
pub fn format_with(content: &Vec<char>, capital: &Vec<bool>, after_period: bool) -> (result: String)
    requires
        capital@.len() == content@.len(),
    ensures
        result@ == formatted_with(content@, capital@, after_period),
{
    let mut result = String::new();
    if after_period && content.len() > 0 && capital[0] {
        push_char(&mut result, '\n');
    }
    let ghost head = result@;
    let mut i: usize = 0;
    while i < content.len()
        invariant
            i <= content@.len(),
            capital@.len() == content@.len(),
            result@ == head + repaired(content@, capital@, i as int),
        decreases content@.len() - i,
    {
        let c = content[i];
        push_char(&mut result, c);
        let ghost grown = repaired(content@, capital@, i as int).push(c);
        assert(result@ =~= head + grown);
        if c == '.' && i + 1 < content.len() {
            if capital[i + 1] {
                push_char(&mut result, '\n');
                assert(result@ =~= head + grown.push('\n'));
            }
        }
        i = i + 1;
    }
    assert(Seq::<char>::empty() + repaired(content@, capital@, i as int) =~= repaired(
        content@,
        capital@,
        i as int,
    ));
    result
}

impl GeminiExecutor {
    /// Inserts a line break wherever a period is directly followed by an
    /// uppercase letter, inside `content` and between the end of
    /// `accumulated_message` and the start of `content`.
    pub fn format_gemini_output(content: &str, accumulated_message: &str) -> (result: String)
        ensures
            result@ == formatted(content@, accumulated_message@),
    {
        let chars = chars_of(content);
        let mut capital: Vec<bool> = Vec::new();
        let mut i: usize = 0;
        while i < chars.len()
            invariant
                i <= chars@.len(),
                capital@.len() == i,
                forall|j: int| 0 <= j < i ==> capital@[j] == is_capital(#[trigger] chars@[j]),
            decreases chars@.len() - i,
        {
            let c = chars[i];
            capital.push(is_uppercase(c) && is_alphabetic(c));
            i = i + 1;
        }
        assert(capital@ =~= capitals(content@));
        let before = chars_of(accumulated_message);
        let after_period = before.len() > 0 && before[before.len() - 1] == '.';
        format_with(&chars, &capital, after_period)
    }
}

} // verus!
