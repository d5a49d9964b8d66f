//! The stream reader's turn on one event: what goes to the patch log, what
//! goes to durable storage, and how the state moves on.

use vstd::prelude::*;
use crate::engine::{
    count_after, message_patch, patch_for, shown_count, shown_patches, step, texts,
    GeminiStreamConfig, StateView, StepView, StreamState,
};
use crate::entry::{patch_views, BatchView, PatchKind, PatchOperation, PatchView};
use crate::executor::GeminiExecutor;
use crate::text::{byte_len, byte_length};
use crate::wal::{next_batch, GeminiStreaming};

verus! {

/// What `String::from_utf8_lossy` makes of a run of bytes.
pub uninterp spec fn utf8_lossy(bytes: Seq<u8>) -> Seq<char>;

/// Calls `String::from_utf8_lossy`, which reads the bytes as UTF-8 and puts
/// the replacement character in place of what is not. The text is a fixed
/// function of the bytes, and bytes that are valid UTF-8 give the text that
/// they encode.
#[verifier::external_body]
fn decode_lossy(bytes: &[u8]) -> (s: String)
    ensures
        s@ == utf8_lossy(bytes@),
        vstd::utf8::valid_utf8(bytes@) ==> s@ == vstd::utf8::decode_utf8(bytes@),
{
    String::from_utf8_lossy(bytes).into_owned()
}

/// A log after one patch was pushed as a batch of its own, with the byte
/// length of its content as the hint. A log that cannot grow stays as it is.
pub open spec fn log_with(log: Seq<BatchView>, p: PatchView) -> Seq<BatchView> {
    if log.len() < usize::MAX {
        log.push(next_batch(log, seq![p], byte_len(p.value.content) as usize))
    } else {
        log
    }
}

/// A log after each of the patches was pushed as a batch of its own, in order.
pub open spec fn log_after(log: Seq<BatchView>, patches: Seq<PatchView>) -> Seq<BatchView>
    decreases patches.len(),
{
    if patches.len() == 0 {
        log
    } else {
        log_with(log_after(log, patches.drop_last()), patches.last())
    }
}

/// What reaches a stream reader.
#[derive(Debug, PartialEq, Eq)]
pub enum StreamEvent {
    /// A read that brought bytes.
    Data(Vec<u8>),
    /// A read that brought nothing: the output has ended.
    Eof,
    /// A read that failed.
    ReadError,
}

/// What a stream reader's turn leads to.
#[derive(Debug, PartialEq, Eq)]
pub struct StreamOutcome {
    /// The patches that went to the patch log, oldest first.
    pub patches: Vec<PatchOperation>,
    /// The texts that durable storage is to append, oldest first.
    pub durable: Vec<String>,
    /// Whether the reader is done.
    pub finished: bool,
}

/// The end of the output: the growing message is shown once more unless it
/// is empty, and all that durable storage has not received goes to it.
pub open spec fn finish(s: StateView, timestamp: Seq<char>) -> StepView {
    StepView {
        state: StateView {
            current_message: s.current_message,
            db_buffer: s.db_buffer,
            entry_count: shown_count(s.current_message, s.entry_count),
            last_chunk_emit_ms: s.last_chunk_emit_ms,
            last_db_flush_ms: s.last_db_flush_ms,
        },
        patches: shown_patches(s.current_message, s.entry_count, timestamp),
        durable: if s.db_buffer.len() > 0 {
            seq![s.db_buffer]
        } else {
            Seq::empty()
        },
    }
}

/// The end of the output adds no entry either: its patch, if any, is a
/// replace of the entry that was growing.
pub proof fn lemma_finish_never_adds(s: StateView, timestamp: Seq<char>)
    ensures
        forall|i: int|
            0 <= i < finish(s, timestamp).patches.len() ==> {
                let p = #[trigger] finish(s, timestamp).patches[i];
                p.kind == PatchKind::Replace && p.index + 1 >= s.entry_count
            },
        finish(s, timestamp).state.entry_count >= s.entry_count,
{
}

/// Pushes each patch to the log of `id` as a batch of its own.
fn push_each(wal: &mut GeminiStreaming, id: u128, patches: &Vec<PatchOperation>)
    requires
        old(wal).wf(),
    ensures
        final(wal).wf(),
        forall|other: u128| other != id ==> final(wal).log(other) == old(wal).log(other),
        final(wal).batches(id) == log_after(old(wal).batches(id), patch_views(patches@)),
        patches@.len() == 0 ==> final(wal).log(id) == old(wal).log(id),
{
    let ghost all = patch_views(patches@);
    let mut i: usize = 0;
    while i < patches.len()
        invariant
            i <= patches@.len(),
            all == patch_views(patches@),
            wal.wf(),
            forall|other: u128| other != id ==> wal.log(other) == old(wal).log(other),
            wal.batches(id) == log_after(old(wal).batches(id), all.take(i as int)),
            i == 0 ==> wal.log(id) == old(wal).log(id),
        decreases patches@.len() - i,
    {
        let p = patches[i].clone();
        let hint: usize = byte_length(p.value.content.as_str());
        let mut one: Vec<PatchOperation> = Vec::new();
        one.push(p);
        proof {
            assert(patch_views(one@) =~= seq![all[i as int]]);
            assert(all.take(i + 1).drop_last() =~= all.take(i as int));
            assert(all.take(i + 1).last() == all[i as int]);
        }
        wal.push_patch(id, one, hint);
        i = i + 1;
    }
    assert(all.take(i as int) =~= all);
}

impl GeminiExecutor {
    /// Shows a message to the readers of the patch log: pushes one patch
    /// for it, stamped `timestamp`, and counts the entry. An empty message
    /// changes nothing.
    pub fn emit_message_patch(
        wal: &mut GeminiStreaming,
        execution_process_id: u128,
        current_message: &str,
        entry_count: &mut usize,
        force_new_message: bool,
        timestamp: &str,
    )
        requires
            old(wal).wf(),
            *old(entry_count) < usize::MAX,
        ensures
            final(wal).wf(),
            forall|other: u128|
                other != execution_process_id ==> final(wal).log(other) == old(wal).log(other),
            current_message@.len() == 0 ==> final(wal).log(execution_process_id) == old(wal).log(
                execution_process_id,
            ) && *final(entry_count) == *old(entry_count),
            current_message@.len() > 0 ==> final(wal).batches(execution_process_id) == log_with(
                old(wal).batches(execution_process_id),
                patch_for(
                    current_message@,
                    *old(entry_count) as nat,
                    force_new_message,
                    timestamp@,
                ),
            ) && *final(entry_count) == count_after(*old(entry_count) as nat, force_new_message),
    {
        match message_patch(current_message, *entry_count, force_new_message, timestamp) {
            Some((p, c)) => {
                let mut one: Vec<PatchOperation> = Vec::new();
                one.push(p);
                assert(patch_views(one@) =~= seq![p@]);
                wal.push_patch(execution_process_id, one, byte_length(current_message));
                *entry_count = c;
            },
            None => {},
        }
    }

    /// Shows what is left of the growing message when the output ends: one
    /// replace of the growing entry for any rest that is not empty, nothing
    /// for an empty one.
    pub fn emit_final_content(
        wal: &mut GeminiStreaming,
        execution_process_id: u128,
        remaining_content: &str,
        entry_count: &mut usize,
        timestamp: &str,
    )
        requires
            old(wal).wf(),
            *old(entry_count) < usize::MAX,
        ensures
            final(wal).wf(),
            forall|other: u128|
                other != execution_process_id ==> final(wal).log(other) == old(wal).log(other),
            remaining_content@.len() == 0 ==> final(wal).log(execution_process_id) == old(wal).log(
                execution_process_id,
            ) && *final(entry_count) == *old(entry_count),
            remaining_content@.len() > 0 ==> final(wal).batches(execution_process_id) == log_with(
                old(wal).batches(execution_process_id),
                patch_for(remaining_content@, *old(entry_count) as nat, false, timestamp@),
            ) && *final(entry_count) == count_after(*old(entry_count) as nat, false),
    {
        Self::emit_message_patch(
            wal,
            execution_process_id,
            remaining_content,
            entry_count,
            false,
            timestamp,
        )
    }

    /// One turn of the reader of an execution's output, with patches
    /// stamped `timestamp`. Bytes are read as text and taken into the
    /// state, the patches that follow go to the patch log, and the texts
    /// for durable storage are handed back. At the end of the output the
    /// rest is shown and handed to durable storage, and the log is closed.
    /// A failed read ends the reader and changes nothing.
    pub fn stream_gemini_chunked(
        state: &mut StreamState,
        wal: &mut GeminiStreaming,
        execution_process_id: u128,
        config: &GeminiStreamConfig,
        event: &StreamEvent,
        now_ms: u64,
        timestamp: &str,
    ) -> (out: StreamOutcome)
        requires
            old(wal).wf(),
            old(state).entry_count < usize::MAX,
        ensures
            final(wal).wf(),
            forall|other: u128|
                other != execution_process_id ==> final(wal).log(other) == old(wal).log(other),
            match event {
                StreamEvent::Data(bytes) => {
                    let s = step(old(state)@, *config, utf8_lossy(bytes@), now_ms, timestamp@);
                    &&& final(state)@ == s.state
                    &&& patch_views(out.patches@) == s.patches
                    &&& texts(out.durable@) == s.durable
                    &&& final(wal).batches(execution_process_id) == log_after(
                        old(wal).batches(execution_process_id),
                        s.patches,
                    )
                    &&& s.patches.len() == 0 ==> final(wal).log(execution_process_id) == old(
                        wal,
                    ).log(execution_process_id)
                    &&& !out.finished
                },
                StreamEvent::Eof => {
                    let s = finish(old(state)@, timestamp@);
                    &&& final(state)@ == s.state
                    &&& patch_views(out.patches@) == s.patches
                    &&& texts(out.durable@) == s.durable
                    &&& final(wal).log(execution_process_id) is None
                    &&& out.finished
                },
                StreamEvent::ReadError => {
                    &&& final(state)@ == old(state)@
                    &&& out.patches@.len() == 0
                    &&& out.durable@.len() == 0
                    &&& final(wal).log(execution_process_id) == old(wal).log(execution_process_id)
                    &&& out.finished
                },
            },
    {
        match event {
            StreamEvent::Data(bytes) => {
                let raw = decode_lossy(bytes.as_slice());
                let stepped = state.absorb(raw.as_str(), config, now_ms, timestamp);
                push_each(wal, execution_process_id, &stepped.patches);
                StreamOutcome { patches: stepped.patches, durable: stepped.durable, finished: false }
            },
            StreamEvent::Eof => {
                let mut patches: Vec<PatchOperation> = Vec::new();
                match message_patch(
                    state.current_message.as_str(),
                    state.entry_count,
                    false,
                    timestamp,
                ) {
                    Some((p, c)) => {
                        patches.push(p);
                        state.entry_count = c;
                    },
                    None => {},
                }
                assert(patch_views(patches@) =~= finish(old(state)@, timestamp@).patches);
                push_each(wal, execution_process_id, &patches);
                let mut durable: Vec<String> = Vec::new();
                match Self::finalize_execution(wal, execution_process_id, state.db_buffer.as_str()) {
                    Some(t) => {
                        durable.push(t);
                    },
                    None => {},
                }
                assert(texts(durable@) =~= finish(old(state)@, timestamp@).durable);
                StreamOutcome { patches, durable, finished: true }
            },
            StreamEvent::ReadError => StreamOutcome {
                patches: Vec::new(),
                durable: Vec::new(),
                finished: true,
            },
        }
    }
}

} // verus!
