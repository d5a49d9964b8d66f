//! The canonical entries of a conversation and the patches that change them.

use vstd::prelude::*;

verus! {

/// What sort of output an entry holds.
#[derive(Debug, PartialEq, Eq)]
pub enum NormalizedEntryType {
    AssistantMessage,
    SystemMessage,
    /// A sort that a collaborator defines, by its tag.
    Other(String),
}

/// The mathematical value of a `NormalizedEntryType`.
pub enum EntryTypeView {
    AssistantMessage,
    SystemMessage,
    Other(Seq<char>),
}

impl View for NormalizedEntryType {
    type V = EntryTypeView;

    open spec fn view(&self) -> EntryTypeView {
        match self {
            NormalizedEntryType::AssistantMessage => EntryTypeView::AssistantMessage,
            NormalizedEntryType::SystemMessage => EntryTypeView::SystemMessage,
            NormalizedEntryType::Other(tag) => EntryTypeView::Other(tag@),
        }
    }
}

impl Clone for NormalizedEntryType {
    fn clone(&self) -> (r: Self)
        ensures
            r@ == self@,
    {
        match self {
            NormalizedEntryType::AssistantMessage => NormalizedEntryType::AssistantMessage,
            NormalizedEntryType::SystemMessage => NormalizedEntryType::SystemMessage,
            NormalizedEntryType::Other(tag) => NormalizedEntryType::Other(tag.clone()),
        }
    }
}

/// The view of an optional string.
pub open spec fn opt_text(s: Option<String>) -> Option<Seq<char>> {
    match s {
        Some(t) => Some(t@),
        None => None,
    }
}

/// A copy of an optional string.
pub fn clone_opt_text(s: &Option<String>) -> (r: Option<String>)
    ensures
        opt_text(r) == opt_text(*s),
{
    match s {
        Some(t) => Some(t.clone()),
        None => None,
    }
}

/// One unit of conversation or log output.
#[derive(Debug, PartialEq, Eq)]
pub struct NormalizedEntry {
    pub timestamp: Option<String>,
    pub entry_type: NormalizedEntryType,
    pub content: String,
    /// Structured metadata, as its JSON text.
    pub metadata: Option<String>,
}

/// The mathematical value of a `NormalizedEntry`.
pub struct EntryView {
    pub timestamp: Option<Seq<char>>,
    pub entry_type: EntryTypeView,
    pub content: Seq<char>,
    pub metadata: Option<Seq<char>>,
}

impl View for NormalizedEntry {
    type V = EntryView;

    open spec fn view(&self) -> EntryView {
        EntryView {
            timestamp: opt_text(self.timestamp),
            entry_type: self.entry_type@,
            content: self.content@,
            metadata: opt_text(self.metadata),
        }
    }
}

impl Clone for NormalizedEntry {
    fn clone(&self) -> (r: Self)
        ensures
            r@ == self@,
    {
        NormalizedEntry {
            timestamp: clone_opt_text(&self.timestamp),
            entry_type: self.entry_type.clone(),
            content: self.content.clone(),
            metadata: clone_opt_text(&self.metadata),
        }
    }
}

/// The views of a sequence of entries, in order.
pub open spec fn entry_views(v: Seq<NormalizedEntry>) -> Seq<EntryView> {
    Seq::new(v.len(), |i: int| v[i]@)
}

/// An ordered conversation and where it came from.
#[derive(Debug, PartialEq, Eq)]
pub struct NormalizedConversation {
    pub entries: Vec<NormalizedEntry>,
    pub session_id: Option<String>,
    pub executor_type: String,
    pub prompt: Option<String>,
    pub summary: Option<String>,
}

/// Whether a patch adds an entry at its position or overwrites the one there.
#[derive(Debug, Clone, Copy, PartialEq, Eq, Structural)]
pub enum PatchKind {
    Add,
    Replace,
}

/// One change to the entry sequence: `kind` at the zero-based position
/// `index`, with the entry `value`.
#[derive(Debug, PartialEq, Eq)]
pub struct PatchOperation {
    pub kind: PatchKind,
    pub index: usize,
    pub value: NormalizedEntry,
}

/// The mathematical value of a `PatchOperation`.
pub struct PatchView {
    pub kind: PatchKind,
    pub index: nat,
    pub value: EntryView,
}

impl View for PatchOperation {
    type V = PatchView;

    open spec fn view(&self) -> PatchView {
        PatchView { kind: self.kind, index: self.index as nat, value: self.value@ }
    }
}

impl Clone for PatchOperation {
    fn clone(&self) -> (r: Self)
        ensures
            r@ == self@,
    {
        PatchOperation { kind: self.kind, index: self.index, value: self.value.clone() }
    }
}

/// The views of a sequence of patches, in order.
pub open spec fn patch_views(v: Seq<PatchOperation>) -> Seq<PatchView> {
    Seq::new(v.len(), |i: int| v[i]@)
}

/// A copy of a list of patches.
pub fn clone_patches(v: &Vec<PatchOperation>) -> (r: Vec<PatchOperation>)
    ensures
        patch_views(r@) == patch_views(v@),
{
    let mut r: Vec<PatchOperation> = Vec::new();
    let mut i: usize = 0;
    while i < v.len()
        invariant
            i <= v@.len(),
            r@.len() == i,
            forall|j: int| 0 <= j < i ==> r@[j]@ == v@[j]@,
        decreases v@.len() - i,
    {
        r.push(v[i].clone());
        i = i + 1;
    }
    assert(patch_views(r@) =~= patch_views(v@));
    r
}

/// A group of patches that one decision of the engine produced, with the
/// identifier that the log gave it and the number of bytes of text it stands for.
#[derive(Debug, PartialEq, Eq)]
pub struct GeminiPatchBatch {
    pub batch_id: u64,
    pub patches: Vec<PatchOperation>,
    pub content_length: usize,
}

/// The mathematical value of a `GeminiPatchBatch`.
pub struct BatchView {
    pub batch_id: u64,
    pub patches: Seq<PatchView>,
    pub content_length: usize,
}

impl View for GeminiPatchBatch {
    type V = BatchView;

    open spec fn view(&self) -> BatchView {
        BatchView {
            batch_id: self.batch_id,
            patches: patch_views(self.patches@),
            content_length: self.content_length,
        }
    }
}

impl Clone for GeminiPatchBatch {
    fn clone(&self) -> (r: Self)
        ensures
            r@ == self@,
    {
        GeminiPatchBatch {
            batch_id: self.batch_id,
            patches: clone_patches(&self.patches),
            content_length: self.content_length,
        }
    }
}

/// The views of a sequence of batches, in order.
pub open spec fn batch_views(v: Seq<GeminiPatchBatch>) -> Seq<BatchView> {
    Seq::new(v.len(), |i: int| v[i]@)
}

} // verus!
