//! The decisions of the dual-buffer stream: when accumulated output becomes
//! a patch for the display, when it is cut into a new message, and when it
//! goes to durable storage.

use vstd::prelude::*;
use vstd::string::{StringExecFns, StringSliceAdditionalSpecFns};
use vstd::utf8::{decode_utf8, encode_utf8, is_char_boundary};
use crate::boundary::boundary_of;
use crate::entry::{
    patch_views, EntryTypeView, EntryView, NormalizedEntry, NormalizedEntryType, PatchKind,
    PatchOperation, PatchView,
};
use crate::executor::GeminiExecutor;
use crate::format::formatted;
use crate::text::{byte_len, byte_length};

verus! {

broadcast use vstd::utf8::encode_utf8_decode_utf8;

/// The sizes and the latency that steer the stream.
#[derive(Debug, Clone, Copy, PartialEq, Eq)]
pub struct GeminiStreamConfig {
    /// How many bytes one read asks for.
    pub max_chunk_size: usize,
    /// From how many bytes on the growing message is shown again.
    pub max_display_size: usize,
    /// From how many bytes on the growing message is cut into a new one.
    pub max_message_size: usize,
    /// After how many milliseconds without a patch the message is shown again.
    pub max_latency_ms: u64,
    /// From how many bytes on the durable buffer is written out.
    pub max_db_chunk_size: usize,
    /// After how many milliseconds without a write the durable buffer is written out.
    pub max_db_latency_ms: u64,
}

impl Default for GeminiStreamConfig {
    fn default() -> (c: Self)
        ensures
            c.max_chunk_size == 5120,
            c.max_display_size == 2048,
            c.max_message_size == 8192,
            c.max_latency_ms == 50,
            c.max_db_chunk_size == 8192,
            c.max_db_latency_ms == 1000,
    {
        GeminiStreamConfig {
            max_chunk_size: 5120,
            max_display_size: 2048,
            max_message_size: 8192,
            max_latency_ms: 50,
            max_db_chunk_size: 8192,
            max_db_latency_ms: 1000,
        }
    }
}

/// What one stream reader holds between reads.
#[derive(Debug, PartialEq, Eq)]
pub struct StreamState {
    /// The text of the message that is growing.
    pub current_message: String,
    /// The text that durable storage has not received yet.
    pub db_buffer: String,
    /// How many entries the stream has started.
    pub entry_count: usize,
    /// The clock reading, in milliseconds, at the last patch.
    pub last_chunk_emit_ms: u64,
    /// The clock reading, in milliseconds, at the last durable write.
    pub last_db_flush_ms: u64,
}

/// The mathematical value of a `StreamState`.
pub struct StateView {
    pub current_message: Seq<char>,
    pub db_buffer: Seq<char>,
    pub entry_count: nat,
    pub last_chunk_emit_ms: u64,
    pub last_db_flush_ms: u64,
}

impl View for StreamState {
    type V = StateView;

    open spec fn view(&self) -> StateView {
        StateView {
            current_message: self.current_message@,
            db_buffer: self.db_buffer@,
            entry_count: self.entry_count as nat,
            last_chunk_emit_ms: self.last_chunk_emit_ms,
            last_db_flush_ms: self.last_db_flush_ms,
        }
    }
}

/// The milliseconds from `last` to `now`, 0 where the clock went back.
pub open spec fn elapsed(last: u64, now: u64) -> u64 {
    if now >= last {
        (now - last) as u64
    } else {
        0
    }
}

/// Whether the growing message is due to be shown: it has reached the
/// display size, or it is not empty and the latency has run out.
pub open spec fn should_emit(text: Seq<char>, cfg: GeminiStreamConfig, last: u64, now: u64) -> bool {
    byte_len(text) >= cfg.max_display_size || (elapsed(last, now) >= cfg.max_latency_ms
        && text.len() > 0)
}

/// The assistant message with the given content and time.
pub open spec fn assistant_entry(content: Seq<char>, timestamp: Seq<char>) -> EntryView {
    EntryView {
        timestamp: Some(timestamp),
        entry_type: EntryTypeView::AssistantMessage,
        content,
        metadata: None,
    }
}

/// How many entries there are once a message has been shown: one more
/// where a new message is forced after an earlier one, at least one otherwise.
pub open spec fn count_after(entry_count: nat, force_new_message: bool) -> nat {
    if force_new_message && entry_count > 0 {
        entry_count + 1
    } else if entry_count == 0 {
        1
    } else {
        entry_count
    }
}

/// The patch that shows a message: an add of a new last entry where a new
/// message is forced after an earlier one, a replace of the last entry otherwise.
pub open spec fn patch_for(
    content: Seq<char>,
    entry_count: nat,
    force_new_message: bool,
    timestamp: Seq<char>,
) -> PatchView {
    PatchView {
        kind: if force_new_message && entry_count > 0 {
            PatchKind::Add
        } else {
            PatchKind::Replace
        },
        index: (count_after(entry_count, force_new_message) - 1) as nat,
        value: assistant_entry(content, timestamp),
    }
}

/// The patches that showing `content` as the growing message gives: none
/// for an empty text.
pub open spec fn shown_patches(content: Seq<char>, entry_count: nat, timestamp: Seq<char>) -> Seq<
    PatchView,
> {
    if content.len() > 0 {
        seq![patch_for(content, entry_count, false, timestamp)]
    } else {
        Seq::empty()
    }
}

/// The number of entries after showing `content` as the growing message.
pub open spec fn shown_count(content: Seq<char>, entry_count: nat) -> nat {
    if content.len() > 0 {
        count_after(entry_count, false)
    } else {
        entry_count
    }
}

/// Where the growing message would be cut.
pub open spec fn split_point(text: Seq<char>, cfg: GeminiStreamConfig) -> int {
    boundary_of(encode_utf8(text), cfg.max_message_size as int)
}

/// Whether the growing message is cut: it has reached the message size and
/// its split point lies strictly inside it, between two characters.
pub open spec fn should_split(text: Seq<char>, cfg: GeminiStreamConfig) -> bool {
    &&& byte_len(text) >= cfg.max_message_size
    &&& 0 < split_point(text, cfg) < byte_len(text)
    &&& is_char_boundary(encode_utf8(text), split_point(text, cfg))
}

/// The text before byte `b`.
pub open spec fn head_text(text: Seq<char>, b: int) -> Seq<char> {
    decode_utf8(encode_utf8(text).subrange(0, b))
}

/// The text from byte `b` on.
pub open spec fn tail_text(text: Seq<char>, b: int) -> Seq<char> {
    decode_utf8(encode_utf8(text).subrange(b, encode_utf8(text).len() as int))
}

/// Cutting a text between two characters loses nothing: the two parts make
/// up the text.
pub proof fn lemma_split_keeps_text(text: Seq<char>, b: int)
    requires
        is_char_boundary(encode_utf8(text), b),
    ensures
        head_text(text, b) + tail_text(text, b) == text,
{
    broadcast use vstd::utf8::group_utf8_lib;
    vstd::utf8::decode_utf8_split(encode_utf8(text), b);
}

/// Whether the durable buffer is written out, `waited` milliseconds after
/// the last write: it is not empty, and it has reached its size or the
/// latency has run out.
pub open spec fn should_flush(db: Seq<char>, cfg: GeminiStreamConfig, waited: u64) -> bool {
    db.len() > 0 && (byte_len(db) >= cfg.max_db_chunk_size || waited >= cfg.max_db_latency_ms)
}

/// What a flush writes out: the whole buffer, or nothing.
pub open spec fn flushed(db: Seq<char>, cfg: GeminiStreamConfig, waited: u64) -> Seq<Seq<char>> {
    if should_flush(db, cfg, waited) {
        seq![db]
    } else {
        Seq::empty()
    }
}

/// What a flush leaves in the buffer.
pub open spec fn kept(db: Seq<char>, cfg: GeminiStreamConfig, waited: u64) -> Seq<char> {
    if should_flush(db, cfg, waited) {
        Seq::empty()
    } else {
        db
    }
}

/// What one chunk of output leads to.
pub struct StepView {
    pub state: StateView,
    pub patches: Seq<PatchView>,
    pub durable: Seq<Seq<char>>,
}

/// The step of the stream on text that is ready to join the buffers, at
/// the clock reading `now`, with patches stamped `timestamp`. The text
/// joins both buffers. The message is shown if it is due. If it is to be cut, the
/// part before the split point completes the entry, the durable buffer is
/// flushed if due, and the rest starts the next entry. At the end the
/// durable buffer is flushed if due. A flush sets the time of the last
/// durable write to `now`.
pub open spec fn step_on(
    s: StateView,
    cfg: GeminiStreamConfig,
    addition: Seq<char>,
    now: u64,
    timestamp: Seq<char>,
) -> StepView {
    let text = s.current_message + addition;
    let db1 = s.db_buffer + addition;
    let emit = should_emit(text, cfg, s.last_chunk_emit_ms, now);
    let count1 = if emit {
        shown_count(text, s.entry_count)
    } else {
        s.entry_count
    };
    let patches1 = if emit {
        shown_patches(text, s.entry_count, timestamp)
    } else {
        Seq::empty()
    };
    let last1 = if emit {
        now
    } else {
        s.last_chunk_emit_ms
    };
    let waited = elapsed(s.last_db_flush_ms, now);
    let flush1 = if should_flush(db1, cfg, waited) {
        now
    } else {
        s.last_db_flush_ms
    };
    if should_split(text, cfg) {
        let b = split_point(text, cfg);
        StepView {
            state: StateView {
                current_message: tail_text(text, b),
                db_buffer: kept(db1, cfg, waited),
                entry_count: shown_count(head_text(text, b), count1) + 1,
                last_chunk_emit_ms: last1,
                last_db_flush_ms: flush1,
            },
            patches: patches1 + shown_patches(head_text(text, b), count1, timestamp),
            durable: flushed(db1, cfg, waited),
        }
    } else {
        StepView {
            state: StateView {
                current_message: text,
                db_buffer: kept(db1, cfg, waited),
                entry_count: count1,
                last_chunk_emit_ms: last1,
                last_db_flush_ms: flush1,
            },
            patches: patches1,
            durable: flushed(db1, cfg, waited),
        }
    }
}

/// The step of the stream on one chunk of output: the chunk is repaired
/// against the message so far, and the result is taken in.
pub open spec fn step(
    s: StateView,
    cfg: GeminiStreamConfig,
    chunk: Seq<char>,
    now: u64,
    timestamp: Seq<char>,
) -> StepView {
    step_on(s, cfg, formatted(chunk, s.current_message), now, timestamp)
}

/// The views of a sequence of strings, in order.
pub open spec fn texts(v: Seq<String>) -> Seq<Seq<char>> {
    Seq::new(v.len(), |i: int| v[i]@)
}

/// The patches of one step and the text it hands to durable storage.
#[derive(Debug, PartialEq, Eq)]
pub struct StepOutput {
    pub patches: Vec<PatchOperation>,
    pub durable: Vec<String>,
}

/// The patch that shows `current_message`, with the number of entries after
/// it, or none for an empty message.
pub fn message_patch(
    current_message: &str,
    entry_count: usize,
    force_new_message: bool,
    timestamp: &str,
) -> (r: Option<(PatchOperation, usize)>)
    requires
        entry_count < usize::MAX,
    ensures
        r is None <==> current_message@.len() == 0,
        r matches Some((p, c)) ==> p@ == patch_for(
            current_message@,
            entry_count as nat,
            force_new_message,
            timestamp@,
        ) && c == count_after(entry_count as nat, force_new_message),
{
    if current_message.is_empty() {
        return None;
    }
    let value = NormalizedEntry {
        timestamp: Some(timestamp.to_owned()),
        entry_type: NormalizedEntryType::AssistantMessage,
        content: current_message.to_owned(),
        metadata: None,
    };
    if force_new_message && entry_count > 0 {
        let count: usize = entry_count + 1;
        Some((PatchOperation { kind: PatchKind::Add, index: count - 1, value }, count))
    } else {
        let count: usize = if entry_count == 0 {
            1
        } else {
            entry_count
        };
        Some((PatchOperation { kind: PatchKind::Replace, index: count - 1, value }, count))
    }
}

/// Every patch that shows the growing message is a replace of the entry
/// that is growing: it never adds an entry, and it never reaches back to
/// an entry before the last one.
pub proof fn lemma_shown_patches_replace(content: Seq<char>, entry_count: nat, timestamp: Seq<char>)
    ensures
        forall|i: int|
            0 <= i < shown_patches(content, entry_count, timestamp).len() ==> {
                let p = #[trigger] shown_patches(content, entry_count, timestamp)[i];
                p.kind == PatchKind::Replace && p.index + 1 >= entry_count
            },
        shown_count(content, entry_count) >= entry_count,
{
}

/// No step of the stream adds an entry or touches a completed one: each of
/// its patches is a replace at or after the entry that was growing when the
/// step began, and the count of entries never falls. After a cut the count
/// has passed the index of the entry that the cut completed.
pub proof fn lemma_step_never_adds(
    s: StateView,
    cfg: GeminiStreamConfig,
    chunk: Seq<char>,
    now: u64,
    timestamp: Seq<char>,
)
    ensures
        forall|i: int|
            0 <= i < step(s, cfg, chunk, now, timestamp).patches.len() ==> {
                let p = #[trigger] step(s, cfg, chunk, now, timestamp).patches[i];
                p.kind == PatchKind::Replace && p.index + 1 >= s.entry_count
            },
        step(s, cfg, chunk, now, timestamp).state.entry_count >= s.entry_count,
        should_split(s.current_message + formatted(chunk, s.current_message), cfg) ==> forall|
            i: int,
        |
            0 <= i < step(s, cfg, chunk, now, timestamp).patches.len() ==> (#[trigger] step(
                s,
                cfg,
                chunk,
                now,
                timestamp,
            ).patches[i]).index + 1 < step(s, cfg, chunk, now, timestamp).state.entry_count,
{
}

/// One read as the step sees it: the chunk, the clock reading and the
/// time that patches are stamped with.
pub struct ReadView {
    pub chunk: Seq<char>,
    pub now: u64,
    pub timestamp: Seq<char>,
}

/// The state after a run of reads.
pub open spec fn run(s: StateView, cfg: GeminiStreamConfig, reads: Seq<ReadView>) -> StateView
    decreases reads.len(),
{
    if reads.len() == 0 {
        s
    } else {
        let r = reads.last();
        step(run(s, cfg, reads.drop_last()), cfg, r.chunk, r.now, r.timestamp).state
    }
}

/// The patches of a run of reads, oldest first.
pub open spec fn run_patches(s: StateView, cfg: GeminiStreamConfig, reads: Seq<ReadView>) -> Seq<
    PatchView,
>
    decreases reads.len(),
{
    if reads.len() == 0 {
        Seq::empty()
    } else {
        let r = reads.last();
        run_patches(s, cfg, reads.drop_last()) + step(
            run(s, cfg, reads.drop_last()),
            cfg,
            r.chunk,
            r.now,
            r.timestamp,
        ).patches
    }
}

/// However long a stream runs, it never adds an entry and never reaches
/// back: every patch of a run that starts with `n` entries is a replace at
/// index `n - 1` or later, and the count of entries never falls. So once a
/// cut has completed an entry and the count has passed it, no later patch
/// touches that entry.
pub proof fn lemma_run_never_adds(s: StateView, cfg: GeminiStreamConfig, reads: Seq<ReadView>)
    ensures
        forall|i: int|
            0 <= i < run_patches(s, cfg, reads).len() ==> {
                let p = #[trigger] run_patches(s, cfg, reads)[i];
                p.kind == PatchKind::Replace && p.index + 1 >= s.entry_count
            },
        run(s, cfg, reads).entry_count >= s.entry_count,
    decreases reads.len(),
{
    if reads.len() > 0 {
        let before = reads.drop_last();
        let r = reads.last();
        lemma_run_never_adds(s, cfg, before);
        lemma_step_never_adds(run(s, cfg, before), cfg, r.chunk, r.now, r.timestamp);
        let early = run_patches(s, cfg, before);
        let late = step(run(s, cfg, before), cfg, r.chunk, r.now, r.timestamp).patches;
        assert forall|i: int| 0 <= i < run_patches(s, cfg, reads).len() implies {
            let p = #[trigger] run_patches(s, cfg, reads)[i];
            p.kind == PatchKind::Replace && p.index + 1 >= s.entry_count
        } by {
            if i < early.len() {
                assert(run_patches(s, cfg, reads)[i] == early[i]);
            } else {
                assert(run_patches(s, cfg, reads)[i] == late[i - early.len()]);
            }
        }
    }
}

/// Once a cut has completed an entry, that entry is left alone: whatever
/// is read afterwards, every later patch is a replace at a higher index
/// than any patch of the turn that made the cut.
pub proof fn lemma_completed_entry_is_left_alone(
    s: StateView,
    cfg: GeminiStreamConfig,
    chunk: Seq<char>,
    now: u64,
    timestamp: Seq<char>,
    later: Seq<ReadView>,
)
    requires
        should_split(s.current_message + formatted(chunk, s.current_message), cfg),
    ensures
        forall|i: int, j: int|
            0 <= i < step(s, cfg, chunk, now, timestamp).patches.len() && 0 <= j < run_patches(
                step(s, cfg, chunk, now, timestamp).state,
                cfg,
                later,
            ).len() ==> {
                let done = #[trigger] step(s, cfg, chunk, now, timestamp).patches[i];
                let p = #[trigger] run_patches(
                    step(s, cfg, chunk, now, timestamp).state,
                    cfg,
                    later,
                )[j];
                p.kind == PatchKind::Replace && done.index < p.index
            },
{
    lemma_step_never_adds(s, cfg, chunk, now, timestamp);
    lemma_run_never_adds(step(s, cfg, chunk, now, timestamp).state, cfg, later);
}

impl StreamState {
    /// The state of a stream before its first read, at the clock reading `now_ms`.
    pub fn new(now_ms: u64) -> (s: Self)
        ensures
            s@ == (StateView {
                current_message: Seq::empty(),
                db_buffer: Seq::empty(),
                entry_count: 0,
                last_chunk_emit_ms: now_ms,
                last_db_flush_ms: now_ms,
            }),
    {
        StreamState {
            current_message: String::new(),
            db_buffer: String::new(),
            entry_count: 0,
            last_chunk_emit_ms: now_ms,
            last_db_flush_ms: now_ms,
        }
    }

    /// Takes one chunk of output into the state and says which patches and
    /// which durable writes it leads to.
    pub fn absorb(
        &mut self,
        chunk: &str,
        config: &GeminiStreamConfig,
        now_ms: u64,
        timestamp: &str,
    ) -> (out: StepOutput)
        requires
            old(self).entry_count < usize::MAX,
        ensures
            final(self)@ == step(old(self)@, *config, chunk@, now_ms, timestamp@).state,
            patch_views(out.patches@) == step(
                old(self)@,
                *config,
                chunk@,
                now_ms,
                timestamp@,
            ).patches,
            texts(out.durable@) == step(old(self)@, *config, chunk@, now_ms, timestamp@).durable,
    {
        let addition = GeminiExecutor::format_gemini_output(chunk, self.current_message.as_str());
        self.absorb_formatted(addition.as_str(), config, now_ms, timestamp)
    }

    /// Takes text that is ready to join the buffers into the state and says
    /// which patches and which durable writes it leads to.
    pub fn absorb_formatted(
        &mut self,
        addition: &str,
        config: &GeminiStreamConfig,
        now_ms: u64,
        timestamp: &str,
    ) -> (out: StepOutput)
        requires
            old(self).entry_count < usize::MAX,
        ensures
            final(self)@ == step_on(old(self)@, *config, addition@, now_ms, timestamp@).state,
            patch_views(out.patches@) == step_on(
                old(self)@,
                *config,
                addition@,
                now_ms,
                timestamp@,
            ).patches,
            texts(out.durable@) == step_on(
                old(self)@,
                *config,
                addition@,
                now_ms,
                timestamp@,
            ).durable,
    {
        let ghost want = step_on(old(self)@, *config, addition@, now_ms, timestamp@);
        self.current_message.append(addition);
        self.db_buffer.append(addition);
        let ghost text = self.current_message@;
        let ghost db1 = self.db_buffer@;
        let mut patches: Vec<PatchOperation> = Vec::new();
        let mut durable: Vec<String> = Vec::new();
        let len: usize = byte_length(self.current_message.as_str());
        let waited: u64 = if now_ms >= self.last_chunk_emit_ms {
            now_ms - self.last_chunk_emit_ms
        } else {
            0
        };
        let emit = len >= config.max_display_size || (waited >= config.max_latency_ms
            && !self.current_message.as_str().is_empty());
        assert(emit == should_emit(text, *config, old(self).last_chunk_emit_ms, now_ms));
        if emit {
            match message_patch(self.current_message.as_str(), self.entry_count, false, timestamp) {
                Some((p, c)) => {
                    patches.push(p);
                    self.entry_count = c;
                },
                None => {},
            }
            self.last_chunk_emit_ms = now_ms;
        }
        let ghost count1 = self.entry_count as nat;
        let ghost patches1 = patch_views(patches@);
        assert(patches1 =~= if emit {
            shown_patches(text, old(self).entry_count as nat, timestamp@)
        } else {
            Seq::empty()
        });
        let db_waited: u64 = if now_ms >= self.last_db_flush_ms {
            now_ms - self.last_db_flush_ms
        } else {
            0
        };
        let mut cut = false;
        if len >= config.max_message_size {
            let b: usize = GeminiExecutor::find_chunk_boundary(
                self.current_message.as_str(),
                config.max_message_size,
            );
            if b > 0 && b < len && self.current_message.as_str().is_char_boundary(b) {
                let (head, tail) = self.current_message.as_str().split_at(b);
                let completed = head.to_owned();
                let rest = tail.to_owned();
                assert(completed@ == head_text(text, b as int));
                assert(rest@ == tail_text(text, b as int));
                match message_patch(completed.as_str(), self.entry_count, false, timestamp) {
                    Some((p, c)) => {
                        patches.push(p);
                        self.entry_count = c;
                    },
                    None => {},
                }
                assert(patch_views(patches@) =~= patches1 + shown_patches(
                    completed@,
                    count1,
                    timestamp@,
                ));
                match GeminiExecutor::maybe_flush_chunk(&mut self.db_buffer, config, db_waited) {
                    Some(t) => {
                        durable.push(t);
                        self.last_db_flush_ms = now_ms;
                    },
                    None => {},
                }
                self.current_message = rest;
                self.entry_count = self.entry_count + 1;
                cut = true;
            }
        }
        assert(cut == should_split(text, *config));
        let ghost durable1 = texts(durable@);
        assert(durable1 =~= if cut {
            flushed(db1, *config, db_waited)
        } else {
            Seq::empty()
        });
        match GeminiExecutor::maybe_flush_chunk(&mut self.db_buffer, config, db_waited) {
            Some(t) => {
                durable.push(t);
                self.last_db_flush_ms = now_ms;
            },
            None => {},
        }
        assert(texts(durable@) =~= want.durable);
        assert(patch_views(patches@) =~= want.patches);
        StepOutput { patches, durable }
    }
}

impl GeminiExecutor {
    /// Takes the durable buffer for writing if it is due, `waited_ms`
    /// milliseconds after the last write: then the whole buffer is handed
    /// back and the buffer is left empty.
    pub fn maybe_flush_chunk(
        buffer: &mut String,
        config: &GeminiStreamConfig,
        waited_ms: u64,
    ) -> (r: Option<String>)
        ensures
            r is Some <==> should_flush(old(buffer)@, *config, waited_ms),
            r matches Some(t) ==> t@ == old(buffer)@,
            final(buffer)@ == kept(old(buffer)@, *config, waited_ms),
    {
        if !buffer.as_str().is_empty() && (byte_length(buffer.as_str()) >= config.max_db_chunk_size
            || waited_ms >= config.max_db_latency_ms) {
            let t = buffer.clone();
            *buffer = String::new();
            Some(t)
        } else {
            None
        }
    }
}

} // verus!
