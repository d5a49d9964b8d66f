use gemini_stream::engine::{message_patch, GeminiStreamConfig, StreamState};
use gemini_stream::entry::{NormalizedEntryType, PatchKind};
use gemini_stream::executor::GeminiExecutor;
use gemini_stream::stream::StreamEvent;
use gemini_stream::wal::GeminiStreaming;

fn config(display: usize, message: usize, db: usize, latency: u64) -> GeminiStreamConfig {
    GeminiStreamConfig {
        max_chunk_size: 1024,
        max_display_size: display,
        max_message_size: message,
        max_latency_ms: latency,
        max_db_chunk_size: db,
        max_db_latency_ms: u64::MAX,
    }
}

#[test]
fn default_sizes() {
    let c = GeminiStreamConfig::default();
    assert_eq!(c.max_chunk_size, 5120);
    assert_eq!(c.max_display_size, 2048);
    assert_eq!(c.max_message_size, 8192);
    assert_eq!(c.max_latency_ms, 50);
    assert_eq!(c.max_db_chunk_size, 8192);
    assert_eq!(c.max_db_latency_ms, 1000);
}

#[test]
fn message_patch_replaces_the_growing_entry() {
    assert!(message_patch("", 3, false, "t").is_none());
    let (p, c) = message_patch("hi", 0, false, "t").unwrap();
    assert_eq!((p.kind, p.index, c), (PatchKind::Replace, 0, 1));
    assert_eq!(p.value.content, "hi");
    assert_eq!(p.value.timestamp, Some("t".to_string()));
    assert_eq!(p.value.entry_type, NormalizedEntryType::AssistantMessage);
    assert_eq!(p.value.metadata, None);
    let (p, c) = message_patch("hi", 4, false, "t").unwrap();
    assert_eq!((p.kind, p.index, c), (PatchKind::Replace, 3, 4));
}

#[test]
fn message_patch_adds_when_forced() {
    let (p, c) = message_patch("hi", 4, true, "t").unwrap();
    assert_eq!((p.kind, p.index, c), (PatchKind::Add, 4, 5));
    let (p, c) = message_patch("hi", 0, true, "t").unwrap();
    assert_eq!((p.kind, p.index, c), (PatchKind::Replace, 0, 1));
}

#[test]
fn three_reads_end_to_end() {
    let cfg = config(5, 100_000, 100_000, 1_000_000);
    let mut wal = GeminiStreaming::new();
    let mut state = StreamState::new(0);
    let mut seen = Vec::new();
    let mut stored = String::new();
    for read in ["Hello there.", "World. ", "End"] {
        let out = GeminiExecutor::stream_gemini_chunked(
            &mut state,
            &mut wal,
            42,
            &cfg,
            &StreamEvent::Data(read.as_bytes().to_vec()),
            1,
            "t1",
        );
        assert!(!out.finished);
        for d in out.durable {
            stored.push_str(&d);
        }
        seen.extend(out.patches);
    }
    assert_eq!(seen.len(), 3);
    assert!(seen.iter().all(|p| p.kind == PatchKind::Replace && p.index == 0));
    assert_eq!(seen[0].value.content, "Hello there.");
    assert_eq!(seen[1].value.content, "Hello there.\nWorld. ");
    assert_eq!(seen[2].value.content, "Hello there.\nWorld. End");
    let batches = wal.get_wal_batches(42, Some(0)).unwrap();
    assert_eq!(batches.len(), 3);
    assert_eq!(batches[2].batch_id, 3);
    assert_eq!(batches[2].content_length, "Hello there.\nWorld. End".len());
    assert_eq!(batches[2].patches, vec![seen[2].clone()]);
    let out = GeminiExecutor::stream_gemini_chunked(&mut state, &mut wal, 42, &cfg, &StreamEvent::Eof, 2, "t2");
    assert!(out.finished);
    assert_eq!(out.patches.len(), 1);
    assert_eq!(out.patches[0].kind, PatchKind::Replace);
    assert_eq!(out.patches[0].index, 0);
    assert_eq!(out.patches[0].value.content, "Hello there.\nWorld. End");
    assert_eq!(out.patches[0].value.timestamp, Some("t2".to_string()));
    for d in out.durable {
        stored.push_str(&d);
    }
    assert_eq!(stored, "Hello there.\nWorld. End");
    assert!(wal.get_wal_batches(42, None).is_none());
    assert_eq!(state.entry_count, 1);
}

#[test]
fn small_chunks_wait_for_the_display_size() {
    let cfg = config(10, 1000, 1000, 1_000_000);
    let mut state = StreamState::new(0);
    let out = state.absorb("abc", &cfg, 5, "t");
    assert!(out.patches.is_empty());
    assert!(out.durable.is_empty());
    assert_eq!(state.entry_count, 0);
    assert_eq!(state.last_chunk_emit_ms, 0);
    let out = state.absorb("defghijk", &cfg, 6, "t");
    assert_eq!(out.patches.len(), 1);
    assert_eq!(out.patches[0].value.content, "abcdefghijk");
    assert_eq!(state.entry_count, 1);
    assert_eq!(state.last_chunk_emit_ms, 6);
}

#[test]
fn latency_forces_a_patch() {
    let cfg = config(1000, 10_000, 10_000, 50);
    let mut state = StreamState::new(100);
    assert!(state.absorb("a", &cfg, 149, "t").patches.is_empty());
    let out = state.absorb("b", &cfg, 150, "t");
    assert_eq!(out.patches.len(), 1);
    assert_eq!(out.patches[0].value.content, "ab");
    assert_eq!(state.last_chunk_emit_ms, 150);
    // a clock that went back counts as no time passed
    assert!(state.absorb("c", &cfg, 10, "t").patches.is_empty());
}

#[test]
fn latency_alone_shows_nothing_of_an_empty_message() {
    let cfg = config(1000, 10_000, 10_000, 50);
    let mut state = StreamState::new(0);
    let out = state.absorb("", &cfg, 500, "t");
    assert!(out.patches.is_empty());
    assert_eq!(state.entry_count, 0);
    assert_eq!(state.last_chunk_emit_ms, 0);
}

#[test]
fn boundary_crossing_completes_the_entry_and_starts_the_next() {
    let cfg = config(1000, 10, 1000, 1_000_000);
    let mut state = StreamState::new(0);
    let out = state.absorb("first\nsecond line", &cfg, 1, "t");
    assert_eq!(out.patches.len(), 1);
    assert_eq!(out.patches[0].kind, PatchKind::Replace);
    assert_eq!(out.patches[0].index, 0);
    assert_eq!(out.patches[0].value.content, "first");
    assert_eq!(state.current_message, "\nsecond line");
    assert_eq!(state.entry_count, 2);
    assert_eq!(state.db_buffer, "first\nsecond line");
    let out = state.absorb("", &GeminiStreamConfig { max_display_size: 1, ..cfg }, 2, "t");
    assert!(out.patches.iter().all(|p| p.kind == PatchKind::Replace && p.index >= 1));
    assert_eq!(out.patches[0].index, 1);
}

#[test]
fn no_patch_ever_adds_or_reaches_back() {
    let cfg = config(4, 12, 16, 1_000_000);
    let mut wal = GeminiStreaming::new();
    let mut state = StreamState::new(0);
    let mut lowest = 0usize;
    for read in ["one two.", "Three\nfour five", " six.Seven eight", "\nnine", "ten eleven twelve"] {
        let before = state.entry_count;
        let out = GeminiExecutor::stream_gemini_chunked(
            &mut state,
            &mut wal,
            5,
            &cfg,
            &StreamEvent::Data(read.as_bytes().to_vec()),
            0,
            "t",
        );
        for p in &out.patches {
            assert_eq!(p.kind, PatchKind::Replace);
            assert!(p.index + 1 >= before);
            assert!(p.index >= lowest);
            lowest = p.index;
        }
        assert!(state.entry_count >= before);
    }
    assert!(state.entry_count > 1);
}

#[test]
fn unusable_boundary_lets_the_message_grow() {
    let cfg = config(1000, 4, 1000, 1_000_000);
    let mut state = StreamState::new(0);
    // four bytes, limit four: the split point is the whole length
    let out = state.absorb("abcd", &cfg, 1, "t");
    assert!(out.patches.is_empty());
    assert_eq!(state.current_message, "abcd");
    assert_eq!(state.entry_count, 0);
}

#[test]
fn hard_cut_inside_a_character_is_skipped() {
    let cfg = config(1000, 3, 1000, 1_000_000);
    let mut state = StreamState::new(0);
    // bytes: a b [é = 2 bytes] c; a cut at byte 3 would fall inside é
    let out = state.absorb("abéc", &cfg, 1, "t");
    assert!(out.patches.is_empty());
    assert_eq!(state.current_message, "abéc");
}

#[test]
fn durable_buffer_flushes_at_its_size() {
    let cfg = config(1000, 1000, 6, 1_000_000);
    let mut state = StreamState::new(0);
    assert!(state.absorb("abc", &cfg, 1, "t").durable.is_empty());
    let out = state.absorb("defg", &cfg, 1, "t");
    assert_eq!(out.durable, vec!["abcdefg".to_string()]);
    assert_eq!(state.db_buffer, "");
    assert_eq!(state.current_message, "abcdefg");
}

#[test]
fn maybe_flush_chunk_takes_all_or_nothing() {
    let cfg = config(1000, 1000, 3, 1_000_000);
    let mut buffer = "ab".to_string();
    assert_eq!(GeminiExecutor::maybe_flush_chunk(&mut buffer, &cfg, 0), None);
    assert_eq!(buffer, "ab");
    buffer.push('c');
    assert_eq!(GeminiExecutor::maybe_flush_chunk(&mut buffer, &cfg, 0), Some("abc".to_string()));
    assert_eq!(buffer, "");
    let zero = config(1000, 1000, 0, 1_000_000);
    assert_eq!(GeminiExecutor::maybe_flush_chunk(&mut buffer, &zero, 0), None);
}

#[test]
fn durable_buffer_flushes_when_the_latency_runs_out() {
    let cfg = GeminiStreamConfig { max_db_latency_ms: 100, ..config(1000, 1000, 1000, 1_000_000) };
    let mut buffer = "ab".to_string();
    assert_eq!(GeminiExecutor::maybe_flush_chunk(&mut buffer, &cfg, 99), None);
    assert_eq!(GeminiExecutor::maybe_flush_chunk(&mut buffer, &cfg, 100), Some("ab".to_string()));
    assert_eq!(GeminiExecutor::maybe_flush_chunk(&mut buffer, &cfg, 500), None);
    let mut state = StreamState::new(1000);
    assert!(state.absorb("abc", &cfg, 1099, "t").durable.is_empty());
    assert_eq!(state.last_db_flush_ms, 1000);
    assert_eq!(state.absorb("def", &cfg, 1100, "t").durable, vec!["abcdef".to_string()]);
    assert_eq!(state.last_db_flush_ms, 1100);
    assert_eq!(state.db_buffer, "");
}

#[test]
fn read_error_ends_without_a_trace() {
    let cfg = config(1000, 1000, 1000, 1_000_000);
    let mut wal = GeminiStreaming::new();
    let mut state = StreamState::new(0);
    GeminiExecutor::stream_gemini_chunked(&mut state, &mut wal, 1, &cfg, &StreamEvent::Data(b"partial".to_vec()), 0, "t");
    let out = GeminiExecutor::stream_gemini_chunked(&mut state, &mut wal, 1, &cfg, &StreamEvent::ReadError, 0, "t");
    assert!(out.finished);
    assert!(out.patches.is_empty());
    assert!(out.durable.is_empty());
    assert_eq!(state.current_message, "partial");
    assert!(wal.get_wal_batches(1, None).is_none());
}

#[test]
fn end_of_blank_output_still_shows_it() {
    let cfg = config(1000, 1000, 1000, 1_000_000);
    let mut wal = GeminiStreaming::new();
    let mut state = StreamState::new(0);
    GeminiExecutor::stream_gemini_chunked(&mut state, &mut wal, 1, &cfg, &StreamEvent::Data(b" \n ".to_vec()), 0, "t");
    let out = GeminiExecutor::stream_gemini_chunked(&mut state, &mut wal, 1, &cfg, &StreamEvent::Eof, 0, "t");
    assert!(out.finished);
    assert_eq!(out.patches.len(), 1);
    assert_eq!(out.patches[0].kind, PatchKind::Replace);
    assert_eq!(out.patches[0].index, 0);
    assert_eq!(out.patches[0].value.content, " \n ");
    assert_eq!(out.durable, vec![" \n ".to_string()]);
    assert_eq!(state.entry_count, 1);
}

#[test]
fn end_of_empty_output_shows_nothing() {
    let cfg = config(1000, 1000, 1000, 1_000_000);
    let mut wal = GeminiStreaming::new();
    let mut state = StreamState::new(0);
    let out = GeminiExecutor::stream_gemini_chunked(&mut state, &mut wal, 1, &cfg, &StreamEvent::Eof, 0, "t");
    assert!(out.finished);
    assert!(out.patches.is_empty());
    assert!(out.durable.is_empty());
    assert_eq!(state.entry_count, 0);
    assert!(wal.get_wal_batches(1, None).is_none());
}

#[test]
fn bytes_that_are_no_text_are_replaced() {
    let cfg = config(1, 1000, 1000, 1_000_000);
    let mut wal = GeminiStreaming::new();
    let mut state = StreamState::new(0);
    let out = GeminiExecutor::stream_gemini_chunked(
        &mut state,
        &mut wal,
        1,
        &cfg,
        &StreamEvent::Data(vec![b'a', 0xff, b'b']),
        0,
        "2024-01-01T00:00:00+00:00",
    );
    assert_eq!(out.patches[0].value.content, "a\u{fffd}b");
    assert_eq!(out.patches[0].value.timestamp, Some("2024-01-01T00:00:00+00:00".to_string()));
}

#[test]
fn emit_message_patch_pushes_one_batch() {
    let mut wal = GeminiStreaming::new();
    let mut count = 0usize;
    GeminiExecutor::emit_message_patch(&mut wal, 8, "hello", &mut count, false, "t");
    assert_eq!(count, 1);
    let got = wal.get_wal_batches(8, None).unwrap();
    assert_eq!(got.len(), 1);
    assert_eq!(got[0].content_length, 5);
    assert_eq!(got[0].patches[0].kind, PatchKind::Replace);
    assert_eq!(got[0].patches[0].index, 0);
    assert_eq!(got[0].patches[0].value.timestamp, Some("t".to_string()));
    GeminiExecutor::emit_message_patch(&mut wal, 8, "next", &mut count, true, "t");
    assert_eq!(count, 2);
    let got = wal.get_wal_batches(8, Some(1)).unwrap();
    assert_eq!(got[0].patches[0].kind, PatchKind::Add);
    assert_eq!(got[0].patches[0].index, 1);
    GeminiExecutor::emit_message_patch(&mut wal, 8, "", &mut count, true, "t");
    assert_eq!(count, 2);
    assert_eq!(wal.get_wal_batches(8, None).unwrap().len(), 2);
}

#[test]
fn emit_final_content_shows_any_rest_that_is_not_empty() {
    let mut wal = GeminiStreaming::new();
    let mut count = 2usize;
    GeminiExecutor::emit_final_content(&mut wal, 8, "", &mut count, "t");
    assert_eq!(count, 2);
    assert!(wal.get_wal_batches(8, None).is_none());
    GeminiExecutor::emit_final_content(&mut wal, 8, "  \n", &mut count, "t");
    assert_eq!(count, 2);
    let got = wal.get_wal_batches(8, None).unwrap();
    assert_eq!(got.len(), 1);
    assert_eq!(got[0].patches[0].kind, PatchKind::Replace);
    assert_eq!(got[0].patches[0].index, 1);
    assert_eq!(got[0].patches[0].value.content, "  \n");
    GeminiExecutor::emit_final_content(&mut wal, 8, " end ", &mut count, "t");
    let got = wal.get_wal_batches(8, Some(1)).unwrap();
    assert_eq!(got[0].patches[0].index, 1);
    assert_eq!(got[0].patches[0].value.content, " end ");
    let mut fresh = 0usize;
    GeminiExecutor::emit_final_content(&mut wal, 9, "x", &mut fresh, "t");
    assert_eq!(fresh, 1);
    assert_eq!(wal.get_wal_batches(9, None).unwrap()[0].patches[0].index, 0);
}

#[test]
fn absorb_formatted_takes_the_text_as_it_is() {
    let cfg = config(5, 100_000, 100_000, 1_000_000);
    let mut state = StreamState::new(0);
    let out = state.absorb_formatted("Hello there.", &cfg, 1, "t");
    assert_eq!(out.patches.len(), 1);
    assert_eq!(out.patches[0].value.content, "Hello there.");
    // nothing is repaired here: the period and the capital stay together
    let out = state.absorb_formatted("World. ", &cfg, 1, "t");
    assert_eq!(out.patches[0].value.content, "Hello there.World. ");
    assert_eq!(out.patches[0].index, 0);
    assert_eq!(state.current_message, "Hello there.World. ");
    assert_eq!(state.db_buffer, "Hello there.World. ");
}

#[test]
fn a_completed_entry_is_left_alone() {
    let cfg = config(1, 10, 1000, 1_000_000);
    let mut state = StreamState::new(0);
    let first = state.absorb("first\nsecond line", &cfg, 1, "t");
    let done = first.patches.iter().map(|p| p.index).max().unwrap();
    assert_eq!(done, 0);
    for read in ["a", "b\ncdefghijklmn", "o"] {
        for p in state.absorb(read, &cfg, 2, "t").patches {
            assert_eq!(p.kind, PatchKind::Replace);
            assert!(p.index > done);
        }
    }
}
