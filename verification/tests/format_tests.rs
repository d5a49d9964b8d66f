use gemini_stream::executor::GeminiExecutor;
use gemini_stream::format::format_with;
use gemini_stream::text::{byte_length, chars_of, string_of_range};

#[test]
fn period_then_capital_across_chunks_gets_one_newline() {
    assert_eq!(GeminiExecutor::format_gemini_output("Next", "word."), "\nNext");
}

#[test]
fn no_period_no_newline_across_chunks() {
    assert_eq!(GeminiExecutor::format_gemini_output("Next", "word"), "Next");
}

#[test]
fn lowercase_start_gets_no_newline() {
    assert_eq!(GeminiExecutor::format_gemini_output("next", "word."), "next");
}

#[test]
fn empty_accumulation_gets_no_newline() {
    assert_eq!(GeminiExecutor::format_gemini_output("Next", ""), "Next");
}

#[test]
fn empty_chunk_stays_empty() {
    assert_eq!(GeminiExecutor::format_gemini_output("", "word."), "");
}

#[test]
fn period_then_capital_inside_a_chunk() {
    assert_eq!(GeminiExecutor::format_gemini_output("One.Two.three. Four.Five", ""), "One.\nTwo.three. Four.\nFive");
}

#[test]
fn period_at_the_end_of_a_chunk_is_left() {
    assert_eq!(GeminiExecutor::format_gemini_output("Done.", "x"), "Done.");
}

#[test]
fn digits_and_marks_are_no_capitals() {
    assert_eq!(GeminiExecutor::format_gemini_output("v1.2 and a.!b", ""), "v1.2 and a.!b");
}

#[test]
fn capitals_beyond_ascii_count() {
    assert_eq!(GeminiExecutor::format_gemini_output("fin.École", ""), "fin.\nÉcole");
    assert_eq!(GeminiExecutor::format_gemini_output("fin.école", ""), "fin.école");
}

#[test]
fn chars_and_back() {
    let v = chars_of("héllo");
    assert_eq!(v, vec!['h', 'é', 'l', 'l', 'o']);
    assert_eq!(string_of_range(&v, 0, 5), "héllo");
    assert_eq!(string_of_range(&v, 1, 3), "él");
    assert_eq!(string_of_range(&v, 2, 2), "");
}

#[test]
fn byte_length_counts_bytes() {
    assert_eq!(byte_length("héllo"), 6);
    assert_eq!(byte_length(""), 0);
}

#[test]
fn format_with_goes_by_the_marks_it_is_given() {
    let next = vec!['N', 'e', 'x', 't'];
    let marks = vec![true, false, false, false];
    assert_eq!(format_with(&next, &marks, true), "\nNext");
    assert_eq!(format_with(&next, &marks, false), "Next");
    assert_eq!(format_with(&next, &vec![false; 4], true), "Next");
    let inner = vec!['a', '.', 'B', '.', 'c'];
    assert_eq!(format_with(&inner, &vec![false, false, true, false, false], false), "a.\nB.c");
    assert_eq!(format_with(&inner, &vec![false, false, false, false, true], false), "a.B.\nc");
    assert_eq!(format_with(&vec![], &vec![], true), "");
}

#[test]
fn whitespace_between_period_and_capital_keeps_the_text() {
    assert_eq!(GeminiExecutor::format_gemini_output("End", "World. "), "End");
    assert_eq!(GeminiExecutor::format_gemini_output("World. ", "Hello there."), "\nWorld. ");
}
