//! The patch log: per execution, an append-only list of patch batches that a
//! reader follows with a cursor.

use std::collections::HashMap;
use vstd::prelude::*;
use crate::entry::{batch_views, patch_views, BatchView, GeminiPatchBatch, PatchOperation, PatchView};
use crate::executor::GeminiExecutor;

verus! {

broadcast use vstd::std_specs::hash::group_hash_axioms;

/// The batches with an identifier above `after`.
pub open spec fn newer_than(after: u64) -> spec_fn(BatchView) -> bool {
    |b: BatchView| b.batch_id > after
}

/// What a reader with the cursor `after` is handed from a log: every batch
/// with a greater identifier, in the log's order.
pub open spec fn batches_after(log: Seq<BatchView>, after: u64) -> Seq<BatchView> {
    log.filter(newer_than(after))
}

/// The cursor that a reader's request stands for: none asks for everything.
pub open spec fn cursor(after_batch_id: Option<u64>) -> u64 {
    match after_batch_id {
        Some(a) => a,
        None => 0,
    }
}

/// Whether the batches of a log carry the identifiers 1, 2, 3, ... in order.
pub open spec fn ids_in_order(log: Seq<BatchView>) -> bool {
    forall|i: int| 0 <= i < log.len() ==> (#[trigger] log[i]).batch_id == i + 1
}

/// The batch that a push appends to a log.
pub open spec fn next_batch(
    log: Seq<BatchView>,
    patches: Seq<PatchView>,
    content_length: usize,
) -> BatchView {
    BatchView {
        batch_id: (log.len() + 1) as u64,
        patches,
        content_length,
    }
}

/// A push keeps the identifiers in order, and gives the new batch an
/// identifier above every earlier one.
pub proof fn lemma_push_keeps_order(
    log: Seq<BatchView>,
    patches: Seq<PatchView>,
    content_length: usize,
)
    requires
        ids_in_order(log),
        log.len() < usize::MAX,
    ensures
        ids_in_order(log.push(next_batch(log, patches, content_length))),
        forall|i: int|
            0 <= i < log.len() ==> (#[trigger] log[i]).batch_id < next_batch(
                log,
                patches,
                content_length,
            ).batch_id,
{
}

/// What a push hands over: the patches and the length hint.
pub struct PushView {
    pub patches: Seq<PatchView>,
    pub content_length: usize,
}

/// The log that a run of pushes builds from nothing.
pub open spec fn pushed(pushes: Seq<PushView>) -> Seq<BatchView>
    decreases pushes.len(),
{
    if pushes.len() == 0 {
        Seq::empty()
    } else {
        let log = pushed(pushes.drop_last());
        log.push(next_batch(log, pushes.last().patches, pushes.last().content_length))
    }
}

/// Whatever is pushed, in whatever number that a log can hold: the log
/// holds one batch for each push, in the order of the pushes, under
/// identifiers that grow strictly, and a reader with the cursor 0 is
/// handed all of it.
pub proof fn lemma_pushes_read_back(pushes: Seq<PushView>)
    requires
        pushes.len() < usize::MAX,
    ensures
        pushed(pushes).len() == pushes.len(),
        ids_in_order(pushed(pushes)),
        forall|i: int|
            0 <= i < pushes.len() ==> (#[trigger] pushed(pushes)[i]).patches == pushes[i].patches
                && pushed(pushes)[i].content_length == pushes[i].content_length,
        forall|i: int, j: int|
            0 <= i < j < pushes.len() ==> (#[trigger] pushed(pushes)[i]).batch_id < (
            #[trigger] pushed(pushes)[j]).batch_id,
        batches_after(pushed(pushes), 0) == pushed(pushes),
    decreases pushes.len(),
{
    if pushes.len() > 0 {
        lemma_pushes_read_back(pushes.drop_last());
    }
    lemma_read_from_start(pushed(pushes));
}

/// The identifiers of a log grow strictly from each batch to the next.
pub proof fn lemma_ids_increase(log: Seq<BatchView>, i: int, j: int)
    requires
        ids_in_order(log),
        0 <= i < j < log.len(),
    ensures
        log[i].batch_id < log[j].batch_id,
{
}

/// A reader with the cursor 0 is handed the whole log, in the order of the pushes.
pub proof fn lemma_read_from_start(log: Seq<BatchView>)
    requires
        ids_in_order(log),
    ensures
        batches_after(log, 0) == log,
    decreases log.len(),
{
    reveal(Seq::filter);
    if log.len() > 0 {
        lemma_read_from_start(log.drop_last());
        assert(log.drop_last().push(log.last()) =~= log);
    }
}

/// A reader is never handed a batch at or below its cursor, and is handed
/// every batch above it.
pub proof fn lemma_read_respects_cursor(log: Seq<BatchView>, after: u64)
    ensures
        forall|i: int|
            0 <= i < batches_after(log, after).len() ==> (#[trigger] batches_after(
                log,
                after,
            )[i]).batch_id > after,
        forall|i: int|
            0 <= i < log.len() && log[i].batch_id > after ==> batches_after(log, after).contains(
                #[trigger] log[i],
            ),
{
    broadcast use vstd::seq_lib::group_filter_ensures;
    assert forall|i: int| 0 <= i < log.len() && log[i].batch_id > after implies batches_after(
        log,
        after,
    ).contains(#[trigger] log[i]) by {
        assert(newer_than(after)(log[i]));
        log.lemma_filter_contains(newer_than(after), i);
    }
    assert forall|i: int| 0 <= i < batches_after(log, after).len() implies (#[trigger] batches_after(
        log,
        after,
    )[i]).batch_id > after by {
        log.lemma_filter_pred(newer_than(after), i);
    }
}

/// The store of patch logs, one per execution that has pushed and has not
/// been finalized.
pub struct GeminiStreaming {
    logs: HashMap<u128, Vec<GeminiPatchBatch>>,
}

impl GeminiStreaming {
    /// The log of an execution, or none where it never pushed or was finalized.
    pub closed spec fn log(&self, id: u128) -> Option<Seq<BatchView>> {
        if self.logs@.contains_key(id) {
            Some(batch_views(self.logs@[id]@))
        } else {
            None
        }
    }

    /// The log of an execution, empty where it has none.
    pub open spec fn batches(&self, id: u128) -> Seq<BatchView> {
        match self.log(id) {
            Some(l) => l,
            None => Seq::empty(),
        }
    }

    /// Every log carries the identifiers 1, 2, 3, ... in order.
    pub open spec fn wf(&self) -> bool {
        forall|id: u128| #![trigger self.log(id)] self.log(id) is Some ==> ids_in_order(self.batches(id))
    }

    /// A store without logs.
    pub fn new() -> (s: Self)
        ensures
            s.wf(),
            forall|id: u128| s.log(id) is None,
    {
        GeminiStreaming { logs: HashMap::new() }
    }

    /// Appends a batch to the log of `id`, which it creates if there is
    /// none, under the identifier after the last one. Nothing is appended
    /// to a log that cannot grow.
    pub fn push_patch(
        &mut self,
        id: u128,
        patches: Vec<PatchOperation>,
        content_length: usize,
    ) -> (appended: bool)
        requires
            old(self).wf(),
        ensures
            final(self).wf(),
            forall|other: u128| other != id ==> final(self).log(other) == old(self).log(other),
            appended <==> old(self).batches(id).len() < usize::MAX,
            appended ==> final(self).log(id) == Some(
                old(self).batches(id).push(next_batch(old(self).batches(id), patch_views(patches@), content_length)),
            ),
            !appended ==> final(self).log(id) == old(self).log(id),
    {
        let ghost before = old(self).batches(id);
        let mut list: Vec<GeminiPatchBatch> = match self.logs.remove(&id) {
            Some(l) => l,
            None => Vec::new(),
        };
        assert(batch_views(list@) =~= before);
        let appended = list.len() < usize::MAX;
        if appended {
            let batch_id: u64 = (list.len() + 1) as u64;
            list.push(GeminiPatchBatch { batch_id, patches, content_length });
            assert(batch_views(list@) =~= before.push(next_batch(before, patch_views(patches@), content_length)));
        }
        self.logs.insert(id, list);
        assert forall|other: u128| other != id implies final(self).log(other) == old(self).log(
            other,
        ) by {}
        assert forall|other: u128| #![trigger final(self).log(other)] final(self).log(other) is Some implies ids_in_order(
            final(self).batches(other),
        ) by {
            if other != id {
                assert(old(self).log(other) is Some);
            } else {
                assert(old(self).log(id) is Some ==> ids_in_order(before));
            }
        }
        appended
    }

    /// The batches of `id` above the cursor, in order, or none where `id`
    /// has no log.
    pub fn get_wal_batches(&self, id: u128, after_batch_id: Option<u64>) -> (r: Option<
        Vec<GeminiPatchBatch>,
    >)
        ensures
            r is None <==> self.log(id) is None,
            r matches Some(v) ==> batch_views(v@) == batches_after(
                self.batches(id),
                cursor(after_batch_id),
            ),
            r matches Some(v) ==> v@.len() == batches_after(
                self.batches(id),
                cursor(after_batch_id),
            ).len(),
    {
        let list = match self.logs.get(&id) {
            Some(l) => l,
            None => {
                return None;
            },
        };
        let after: u64 = match after_batch_id {
            Some(a) => a,
            None => 0,
        };
        let mut out: Vec<GeminiPatchBatch> = Vec::new();
        let mut i: usize = 0;
        proof {
            reveal(Seq::filter);
            assert(batch_views(list@.take(0)) =~= Seq::<BatchView>::empty());
            assert(batch_views(out@) =~= batches_after(batch_views(list@.take(0)), after));
        }
        while i < list.len()
            invariant
                i <= list@.len(),
                batch_views(out@) == batches_after(batch_views(list@.take(i as int)), after),
            decreases list@.len() - i,
        {
            let ghost seen = batch_views(list@.take(i as int));
            let ghost grown = batch_views(list@.take(i + 1));
            proof {
                reveal(Seq::filter);
                assert(grown.drop_last() =~= seen);
                assert(grown.last() == list@[i as int]@);
            }
            if list[i].batch_id > after {
                out.push(list[i].clone());
                assert(batch_views(out@) =~= batches_after(seen, after).push(list@[i as int]@));
            }
            i = i + 1;
        }
        assert(list@.take(i as int) =~= list@);
        assert(batch_views(out@).len() == out@.len());
        Some(out)
    }

    /// Closes the log of `id`: the log is removed, and the text that is
    /// still to be stored durably is handed back, none where it is empty.
    pub fn finalize_execution(&mut self, id: u128, final_buffer: &str) -> (remaining: Option<
        String,
    >)
        requires
            old(self).wf(),
        ensures
            final(self).wf(),
            final(self).log(id) is None,
            forall|other: u128| other != id ==> final(self).log(other) == old(self).log(other),
            remaining is None <==> final_buffer@.len() == 0,
            remaining matches Some(t) ==> t@ == final_buffer@,
    {
        self.logs.remove(&id);
        assert forall|other: u128| #![trigger final(self).log(other)] final(self).log(other) is Some implies ids_in_order(
            final(self).batches(other),
        ) by {
            assert(old(self).log(other) is Some);
        }
        if final_buffer.is_empty() {
            None
        } else {
            Some(final_buffer.to_owned())
        }
    }
}

impl GeminiExecutor {
    /// Appends a batch of patches to the log of an execution.
    pub fn push_patch(
        wal: &mut GeminiStreaming,
        execution_process_id: u128,
        patches: Vec<PatchOperation>,
        content_length: usize,
    ) -> (appended: bool)
        requires
            old(wal).wf(),
        ensures
            final(wal).wf(),
            forall|other: u128|
                other != execution_process_id ==> final(wal).log(other) == old(wal).log(other),
            appended <==> old(wal).batches(execution_process_id).len() < usize::MAX,
            appended ==> final(wal).log(execution_process_id) == Some(
                old(wal).batches(execution_process_id).push(
                    next_batch(
                        old(wal).batches(execution_process_id),
                        patch_views(patches@),
                        content_length,
                    ),
                ),
            ),
            !appended ==> final(wal).log(execution_process_id) == old(wal).log(
                execution_process_id,
            ),
    {
        wal.push_patch(execution_process_id, patches, content_length)
    }

    /// The batches of an execution above the cursor, or none where it has no log.
    pub fn get_wal_batches(
        wal: &GeminiStreaming,
        execution_process_id: u128,
        after_batch_id: Option<u64>,
    ) -> (r: Option<Vec<GeminiPatchBatch>>)
        ensures
            r is None <==> wal.log(execution_process_id) is None,
            r matches Some(v) ==> batch_views(v@) == batches_after(
                wal.batches(execution_process_id),
                cursor(after_batch_id),
            ),
            r matches Some(v) ==> v@.len() == batches_after(
                wal.batches(execution_process_id),
                cursor(after_batch_id),
            ).len(),
    {
        wal.get_wal_batches(execution_process_id, after_batch_id)
    }

    /// Closes the log of an execution and hands back the text that is
    /// still to be stored durably.
    pub fn finalize_execution(
        wal: &mut GeminiStreaming,
        execution_process_id: u128,
        final_buffer: &str,
    ) -> (remaining: Option<String>)
        requires
            old(wal).wf(),
        ensures
            final(wal).wf(),
            final(wal).log(execution_process_id) is None,
            forall|other: u128|
                other != execution_process_id ==> final(wal).log(other) == old(wal).log(other),
            remaining is None <==> final_buffer@.len() == 0,
            remaining matches Some(t) ==> t@ == final_buffer@,
    {
        wal.finalize_execution(execution_process_id, final_buffer)
    }
}

} // verus!
