//! Where to split accumulated text into a completed message.

use vstd::prelude::*;
use vstd::string::StringSliceAdditionalSpecFns;
use crate::executor::GeminiExecutor;

verus! {

/// The byte of a line feed.
pub const NEWLINE: u8 = 10;

/// Whether a byte ends a sentence: a period, an exclamation mark or a question mark.
pub open spec fn is_sentence_end(b: u8) -> bool {
    b == 46u8 || b == 33u8 || b == 63u8
}

/// Whether position `p` of `bytes` holds a split mark of the wanted sort: a
/// sentence end if `sentence`, a line feed if not. Position 0 never counts,
/// since a split there leaves nothing before it.
pub open spec fn hit(bytes: Seq<u8>, p: int, sentence: bool) -> bool {
    0 < p < bytes.len() && if sentence {
        is_sentence_end(bytes[p])
    } else {
        bytes[p] == NEWLINE
    }
}

/// Whether some position up to `limit` holds a split mark.
pub open spec fn has_hit(bytes: Seq<u8>, limit: int, sentence: bool) -> bool {
    exists|p: int| 0 < p <= limit && #[trigger] hit(bytes, p, sentence)
}

/// Whether `r` is the last position up to `limit` that holds a split mark.
pub open spec fn is_last_hit(bytes: Seq<u8>, limit: int, sentence: bool, r: int) -> bool {
    &&& 0 < r <= limit
    &&& hit(bytes, r, sentence)
    &&& forall|q: int| r < q <= limit ==> !#[trigger] hit(bytes, q, sentence)
}

/// Whether `r` is the split point of `bytes` under the size limit `limit`:
/// the whole length where the text fits; else the last line feed up to the
/// limit; else the last sentence end up to the limit; else the limit itself.
pub open spec fn is_boundary(bytes: Seq<u8>, limit: int, r: int) -> bool {
    if bytes.len() <= limit {
        r == bytes.len()
    } else if has_hit(bytes, limit, false) {
        is_last_hit(bytes, limit, false, r)
    } else if has_hit(bytes, limit, true) {
        is_last_hit(bytes, limit, true, r)
    } else {
        r == limit
    }
}

/// The split point of `bytes` under the size limit `limit`.
pub open spec fn boundary_of(bytes: Seq<u8>, limit: int) -> int {
    choose|r: int| is_boundary(bytes, limit, r)
}

/// The split point is determined by the text and the limit: two positions
/// that both qualify are the same position.
pub proof fn lemma_boundary_unique(bytes: Seq<u8>, limit: int, r1: int, r2: int)
    requires
        is_boundary(bytes, limit, r1),
        is_boundary(bytes, limit, r2),
    ensures
        r1 == r2,
{
}

/// The order of preference for a text longer than the limit: the last line
/// feed up to the limit where there is one; failing that the last sentence
/// end up to the limit; failing that the limit.
pub proof fn lemma_boundary_preference(bytes: Seq<u8>, limit: int, r: int)
    requires
        0 <= limit < bytes.len(),
        is_boundary(bytes, limit, r),
    ensures
        has_hit(bytes, limit, false) ==> bytes[r] == NEWLINE && 0 < r <= limit && forall|q: int|
            r < q <= limit ==> bytes[q] != NEWLINE,
        !has_hit(bytes, limit, false) && has_hit(bytes, limit, true) ==> is_sentence_end(bytes[r])
            && 0 < r <= limit && forall|q: int| r < q <= limit ==> !is_sentence_end(bytes[q]),
        !has_hit(bytes, limit, false) && !has_hit(bytes, limit, true) ==> r == limit,
{
    if has_hit(bytes, limit, false) {
        assert forall|q: int| r < q <= limit implies bytes[q] != NEWLINE by {
            assert(!hit(bytes, q, false));
        }
    } else if has_hit(bytes, limit, true) {
        assert forall|q: int| r < q <= limit implies !is_sentence_end(bytes[q]) by {
            assert(!hit(bytes, q, true));
        }
    }
}

/// A split point never exceeds the text, and is 0 only for an empty text or
/// a limit of 0.
pub proof fn lemma_boundary_range(bytes: Seq<u8>, limit: int, r: int)
    requires
        0 <= limit,
        is_boundary(bytes, limit, r),
    ensures
        0 <= r <= bytes.len(),
        r == 0 ==> bytes.len() == 0 || limit == 0,
{
}

/// Scans down from `limit` for the last split mark of the wanted sort.
fn last_hit(bytes: &[u8], limit: usize, sentence: bool) -> (r: Option<usize>)
    requires
        limit < bytes@.len(),
    ensures
        match r {
            Some(p) => is_last_hit(bytes@, limit as int, sentence, p as int),
            None => !has_hit(bytes@, limit as int, sentence),
        },
{
    let mut i: usize = limit;
    while i > 0
        invariant
            i <= limit < bytes@.len(),
            forall|q: int| i < q <= limit ==> !#[trigger] hit(bytes@, q, sentence),
        decreases i,
    {
        let b: u8 = bytes[i];
        let found = if sentence {
            b == 46 || b == 33 || b == 63
        } else {
            b == NEWLINE
        };
        if found {
            return Some(i);
        }
        i = i - 1;
    }
    None
}

impl GeminiExecutor {
    /// Finds the best place to split `buffer` so that the first part has at
    /// most `max_size` bytes: a line feed if there is one, a sentence end
    /// failing that, a hard cut at `max_size` as the last resort.
    pub fn find_chunk_boundary(buffer: &str, max_size: usize) -> (r: usize)
        ensures
            is_boundary(buffer.spec_bytes(), max_size as int, r as int),
            r as int == boundary_of(buffer.spec_bytes(), max_size as int),
    {
        let bytes = buffer.as_bytes();
        let r = if bytes.len() <= max_size {
            bytes.len()
        } else {
            match last_hit(bytes, max_size, false) {
                Some(p) => p,
                None => match last_hit(bytes, max_size, true) {
                    Some(p) => p,
                    None => max_size,
                },
            }
        };
        proof {
            assert(is_boundary(bytes@, max_size as int, r as int));
            lemma_boundary_unique(
                bytes@,
                max_size as int,
                r as int,
                boundary_of(bytes@, max_size as int),
            );
        }
        r
    }
}

} // verus!
