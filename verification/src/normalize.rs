//! From the raw transcript of a finished run to the canonical conversation.

use vstd::prelude::*;
use vstd::string::StringExecFns;
use crate::engine::assistant_entry;
use crate::entry::{
    entry_views, EntryTypeView, EntryView, NormalizedConversation, NormalizedEntry,
    NormalizedEntryType,
};
use crate::executor::{GeminiExecutor, GeminiFollowupExecutor};
use crate::text::{
    char_is_whitespace, chars_of, is_whitespace, lemma_trimmed,
    string_of_range, trim_bounds, trimmed,
};

verus! {

/// One line of a transcript that is not blank, without the whitespace at
/// its ends.
#[derive(Debug, PartialEq, Eq)]
pub struct TranscriptLine {
    pub text: String,
    /// Whether the line looks like a structured record: it starts with an
    /// opening brace.
    pub structured: bool,
}

/// The mathematical value of a `TranscriptLine`.
pub struct LineView {
    pub text: Seq<char>,
    pub structured: bool,
}

impl View for TranscriptLine {
    type V = LineView;

    open spec fn view(&self) -> LineView {
        LineView { text: self.text@, structured: self.structured }
    }
}

/// The views of a sequence of lines, in order.
pub open spec fn line_views(v: Seq<TranscriptLine>) -> Seq<LineView> {
    Seq::new(v.len(), |i: int| v[i]@)
}

/// What one raw line contributes: itself, trimmed, unless that is empty.
pub open spec fn line_of(raw: Seq<char>) -> Seq<LineView> {
    let t = trimmed(raw);
    if t.len() > 0 {
        seq![LineView { text: t, structured: t[0] == '{' }]
    } else {
        Seq::empty()
    }
}

/// The lines that the text holds from `start` on, where the line that
/// begins at `start` has been read up to `i`. Lines end at a line feed, and
/// the last one at the end of the text.
pub open spec fn lines_from(text: Seq<char>, start: int, i: int) -> Seq<LineView>
    decreases text.len() - i,
{
    if i < 0 || start < 0 || start > i {
        Seq::empty()
    } else if i >= text.len() {
        if start < text.len() {
            line_of(text.subrange(start, text.len() as int))
        } else {
            Seq::empty()
        }
    } else if text[i] == '\n' {
        line_of(text.subrange(start, i)) + lines_from(text, i + 1, i + 1)
    } else {
        lines_from(text, start, i + 1)
    }
}

/// The lines of a transcript that are not blank, trimmed, in order.
pub open spec fn transcript(text: Seq<char>) -> Seq<LineView> {
    lines_from(text, 0, 0)
}

/// How many of the first `i` lines are structured.
pub open spec fn structured_before(lines: Seq<LineView>, i: int) -> nat
    decreases i,
{
    if i <= 0 || i > lines.len() {
        0
    } else if lines[i - 1].structured {
        structured_before(lines, i - 1) + 1
    } else {
        structured_before(lines, i - 1)
    }
}

/// The system message that stands in for a structured line that could not
/// be decoded: the line itself, marked as raw output.
pub open spec fn fallback_entry(line: Seq<char>, timestamp: Seq<char>) -> EntryView {
    EntryView {
        timestamp: Some(timestamp),
        entry_type: EntryTypeView::SystemMessage,
        content: "Raw output: "@ + line,
        metadata: None,
    }
}

/// The views of a sequence of decoding results, in order.
pub open spec fn decoded_views(v: Seq<Option<NormalizedEntry>>) -> Seq<Option<EntryView>> {
    Seq::new(
        v.len(),
        |i: int|
            match v[i] {
                Some(e) => Some(e@),
                None => None,
            },
    )
}

/// The entry for line `i`. A plain line is an assistant message. A
/// structured line is what it was decoded to, where `decoded` holds, at the
/// line's place among the structured lines, an entry; else its fallback.
pub open spec fn entry_at(
    lines: Seq<LineView>,
    decoded: Seq<Option<EntryView>>,
    timestamp: Seq<char>,
    i: int,
) -> EntryView {
    let k = structured_before(lines, i) as int;
    if !lines[i].structured {
        assistant_entry(lines[i].text, timestamp)
    } else if k < decoded.len() && decoded[k] is Some {
        decoded[k]->0
    } else {
        fallback_entry(lines[i].text, timestamp)
    }
}

/// The entries of a conversation: one for each line, in the lines' order.
pub open spec fn normalized(
    lines: Seq<LineView>,
    decoded: Seq<Option<EntryView>>,
    timestamp: Seq<char>,
) -> Seq<EntryView> {
    Seq::new(lines.len(), |i: int| entry_at(lines, decoded, timestamp, i))
}

/// A conversation has exactly one entry for each line that is not blank,
/// whatever the lines hold and however their decoding went.
pub proof fn lemma_one_entry_per_line(
    text: Seq<char>,
    decoded: Seq<Option<EntryView>>,
    timestamp: Seq<char>,
)
    ensures
        normalized(transcript(text), decoded, timestamp).len() == transcript(text).len(),
{
}

/// Appends what the raw line from `from` up to `to` contributes.
fn take_line(chars: &Vec<char>, from: usize, to: usize, out: &mut Vec<TranscriptLine>)
    requires
        from <= to <= chars@.len(),
    ensures
        line_views(final(out)@) == line_views(old(out)@) + line_of(
            chars@.subrange(from as int, to as int),
        ),
{
    let ghost raw = chars@.subrange(from as int, to as int);
    let mut a: usize = from;
    while a < to && is_whitespace(chars[a])
        invariant
            from <= a <= to <= chars@.len(),
            forall|j: int| from <= j < a ==> char_is_whitespace(#[trigger] chars@[j]),
        decreases to - a,
    {
        a = a + 1;
    }
    let mut b: usize = to;
    while b > a && is_whitespace(chars[b - 1])
        invariant
            from <= a <= b <= to <= chars@.len(),
            forall|j: int| b <= j < to ==> char_is_whitespace(#[trigger] chars@[j]),
        decreases b - a,
    {
        b = b - 1;
    }
    proof {
        assert forall|i: int| 0 <= i < a - from implies char_is_whitespace(#[trigger] raw[i]) by {
            assert(raw[i] == chars@[from + i]);
        }
        assert forall|i: int| b - from <= i < raw.len() implies char_is_whitespace(
            #[trigger] raw[i],
        ) by {
            assert(raw[i] == chars@[from + i]);
        }
        assert(trim_bounds(raw, a - from, b - from));
        lemma_trimmed(raw, a - from, b - from);
        assert(raw.subrange(a - from, b - from) =~= chars@.subrange(a as int, b as int));
    }
    if a < b {
        let text = string_of_range(chars, a, b);
        let structured = chars[a] == '{';
        out.push(TranscriptLine { text, structured });
        assert(line_views(out@) =~= line_views(old(out)@) + line_of(raw));
    } else {
        assert(line_views(out@) =~= line_views(old(out)@) + line_of(raw));
    }
}

/// The lines of a transcript that are not blank, each without the
/// whitespace at its ends and with the mark of a structured record.
pub fn transcript_lines(logs: &str) -> (lines: Vec<TranscriptLine>)
    ensures
        line_views(lines@) == transcript(logs@),
{
    let chars = chars_of(logs);
    let n: usize = chars.len();
    let mut out: Vec<TranscriptLine> = Vec::new();
    let mut start: usize = 0;
    let mut i: usize = 0;
    assert(line_views(out@) + lines_from(logs@, 0, 0) =~= transcript(logs@));
    while i < n
        invariant
            start <= i <= n,
            n == chars@.len(),
            chars@ == logs@,
            line_views(out@) + lines_from(logs@, start as int, i as int) == transcript(logs@),
        decreases n - i,
    {
        if chars[i] == '\n' {
            let ghost before = line_views(out@);
            let ghost rest = lines_from(logs@, i + 1, i + 1);
            take_line(&chars, start, i, &mut out);
            assert(line_views(out@) + rest =~= before + (line_of(
                logs@.subrange(start as int, i as int),
            ) + rest));
            start = i + 1;
        }
        i = i + 1;
    }
    if start < n {
        take_line(&chars, start, n, &mut out);
    } else {
        assert(line_views(out@) + Seq::<LineView>::empty() =~= line_views(out@));
    }
    out
}

/// The conversation for the given lines. `decoded` holds, for the
/// structured lines in their order, what each was decoded to, or none where
/// decoding failed; a structured line beyond its end counts as failed.
/// Entries made here are stamped `timestamp`.
pub fn normalize_lines(
    lines: &Vec<TranscriptLine>,
    decoded: &Vec<Option<NormalizedEntry>>,
    timestamp: &str,
) -> (c: NormalizedConversation)
    ensures
        entry_views(c.entries@) == normalized(
            line_views(lines@),
            decoded_views(decoded@),
            timestamp@,
        ),
        c.entries@.len() == lines@.len(),
        c.executor_type@ == "gemini"@,
        c.session_id is None,
        c.prompt is None,
        c.summary is None,
{
    let ghost want = normalized(line_views(lines@), decoded_views(decoded@), timestamp@);
    let mut entries: Vec<NormalizedEntry> = Vec::new();
    let mut k: usize = 0;
    let mut i: usize = 0;
    while i < lines.len()
        invariant
            i <= lines@.len(),
            k <= i,
            k == structured_before(line_views(lines@), i as int),
            entries@.len() == i,
            forall|j: int| 0 <= j < i ==> (#[trigger] entries@[j])@ == want[j],
            want == normalized(line_views(lines@), decoded_views(decoded@), timestamp@),
        decreases lines@.len() - i,
    {
        let line = &lines[i];
        assert(line_views(lines@)[i as int] == line@);
        let entry = if !line.structured {
            NormalizedEntry {
                timestamp: Some(timestamp.to_owned()),
                entry_type: NormalizedEntryType::AssistantMessage,
                content: line.text.clone(),
                metadata: None,
            }
        } else {
            let slot: Option<NormalizedEntry> = if k < decoded.len() {
                match &decoded[k] {
                    Some(e) => Some(e.clone()),
                    None => None,
                }
            } else {
                None
            };
            match slot {
                Some(e) => e,
                None => {
                    let mut content = "Raw output: ".to_owned();
                    content.append(line.text.as_str());
                    NormalizedEntry {
                        timestamp: Some(timestamp.to_owned()),
                        entry_type: NormalizedEntryType::SystemMessage,
                        content,
                        metadata: None,
                    }
                },
            }
        };
        assert(entry@ == want[i as int]);
        if line.structured {
            k = k + 1;
        }
        entries.push(entry);
        i = i + 1;
    }
    assert(entry_views(entries@) =~= want);
    NormalizedConversation {
        entries,
        session_id: None,
        executor_type: "gemini".to_owned(),
        prompt: None,
        summary: None,
    }
}

impl GeminiExecutor {
    /// The conversation of a finished run's transcript. Blank lines are
    /// dropped. A line that does not start with an opening brace becomes an
    /// assistant message. One that does becomes what `decoded` holds for it,
    /// or a system message with the raw line where that is none. Entries
    /// made here are stamped `timestamp`. The result is never an error,
    /// whatever the transcript holds.
    pub fn normalize_logs(
        &self,
        logs: &str,
        _worktree_path: &str,
        decoded: &Vec<Option<NormalizedEntry>>,
        timestamp: &str,
    ) -> (r: Result<NormalizedConversation, String>)
        ensures
            r is Ok,
            r matches Ok(c) ==> {
                &&& c.entries@.len() == transcript(logs@).len()
                &&& entry_views(c.entries@) == normalized(
                    transcript(logs@),
                    decoded_views(decoded@),
                    timestamp@,
                )
                &&& c.executor_type@ == "gemini"@
                &&& c.session_id is None
                &&& c.prompt is None
                &&& c.summary is None
            },
    {
        let lines = transcript_lines(logs);
        Ok(normalize_lines(&lines, decoded, timestamp))
    }
}

impl GeminiFollowupExecutor {
    /// The conversation of a finished run's transcript, as for a fresh run.
    pub fn normalize_logs(
        &self,
        logs: &str,
        worktree_path: &str,
        decoded: &Vec<Option<NormalizedEntry>>,
        timestamp: &str,
    ) -> (r: Result<NormalizedConversation, String>)
        ensures
            r is Ok,
            r matches Ok(c) ==> {
                &&& c.entries@.len() == transcript(logs@).len()
                &&& entry_views(c.entries@) == normalized(
                    transcript(logs@),
                    decoded_views(decoded@),
                    timestamp@,
                )
                &&& c.executor_type@ == "gemini"@
                &&& c.session_id is None
                &&& c.prompt is None
                &&& c.summary is None
            },
    {
        let main_executor = GeminiExecutor;
        main_executor.normalize_logs(logs, worktree_path, decoded, timestamp)
    }
}

} // verus!
