//! Assembling a downloaded object from its part files.
//!
//! Parts are concatenated in index order. Each part contributes exactly
//! its logical length: one chunk for every part but the last, and the
//! remainder of the file for the last. A part file that is longer on
//! disk than its logical length — a server may answer a range request
//! with a fuller body — is truncated to the logical length; the merged
//! object then has exactly the required size. The surrounding
//! application reads the part files and writes the result; the lengths,
//! the truncation and the assembled bytes are decided and proved here.

use vstd::prelude::*;

use crate::range::{lemma_total_parts_bounds, spec_total_parts};

verus! {

/// The logical length of part `idx` of `total` parts of a
/// `total_bytes`-byte object: a chunk, or the remainder for the last.
pub open spec fn spec_logical_len(idx: int, total: int, total_bytes: int, chunk: int) -> int {
    if idx == total - 1 {
        total_bytes - (total - 1) * chunk
    } else {
        chunk
    }
}

/// The sum of the logical lengths of the first `k` parts.
pub open spec fn spec_sum_logical(k: int, total: int, total_bytes: int, chunk: int) -> int
    decreases k,
{
    if k <= 0 {
        0
    } else {
        spec_sum_logical(k - 1, total, total_bytes, chunk) + spec_logical_len(
            k - 1,
            total,
            total_bytes,
            chunk,
        )
    }
}

proof fn lemma_sum_logical_partial(k: int, total: int, total_bytes: int, chunk: int)
    requires
        chunk > 0,
        0 <= k <= total - 1,
    ensures
        spec_sum_logical(k, total, total_bytes, chunk) == k * chunk,
    decreases k,
{
    if k > 0 {
        lemma_sum_logical_partial(k - 1, total, total_bytes, chunk);
        assert((k - 1) * chunk + chunk == k * chunk) by (nonlinear_arith);
    } else {
        assert(0 * chunk == 0) by (nonlinear_arith);
    }
}

/// The logical lengths of a file's parts sum to exactly the file size.
pub proof fn lemma_sum_logical_total(total: int, total_bytes: int, chunk: int)
    requires
        chunk > 0,
        total_bytes >= 0,
        total == spec_total_parts(total_bytes, chunk),
    ensures
        spec_sum_logical(total, total, total_bytes, chunk) == total_bytes,
{
    lemma_total_parts_bounds(total_bytes, chunk);
    if total == 0 {
        assert(chunk * 0 == 0) by (nonlinear_arith);
        assert(total_bytes == 0);
    } else {
        lemma_sum_logical_partial(total - 1, total, total_bytes, chunk);
        assert(spec_sum_logical(total, total, total_bytes, chunk) == (total - 1) * chunk + (
        total_bytes - (total - 1) * chunk));
    }
}

/// The logical length of part `idx`, computed without overflow; it
/// never exceeds one chunk.
pub fn logical_part_len(idx: u64, total_parts: u64, total_bytes: u64, chunk_size: u64) -> (n: u64)
    requires
        chunk_size > 0,
        total_parts as int == spec_total_parts(total_bytes as int, chunk_size as int),
        idx < total_parts,
    ensures
        n as int == spec_logical_len(
            idx as int,
            total_parts as int,
            total_bytes as int,
            chunk_size as int,
        ),
        n <= chunk_size,
{
    proof {
        lemma_total_parts_bounds(total_bytes as int, chunk_size as int);
        assert((chunk_size as int) * (total_parts as int - 1) == (total_parts as int - 1) * (
        chunk_size as int)) by (nonlinear_arith);
        assert((chunk_size as int) * (total_parts as int) == (total_parts as int - 1) * (
        chunk_size as int) + chunk_size as int) by (nonlinear_arith);
    }
    if idx + 1 == total_parts {
        total_bytes - (total_parts - 1) * chunk_size
    } else {
        chunk_size
    }
}

/// How many bytes of a part file the merge reads: its on-disk length,
/// truncated to the part's logical length when the file is longer.
pub fn part_read_len(on_disk: u64, logical: u64) -> (n: u64)
    ensures
        n == if on_disk > logical {
            logical
        } else {
            on_disk
        },
{
    if on_disk > logical {
        logical
    } else {
        on_disk
    }
}

/// What one part contributes to the merged object: its bytes, truncated
/// to its logical length when the part is longer.
pub open spec fn spec_taken(part: Seq<u8>, logical: int) -> Seq<u8> {
    if part.len() > logical {
        part.take(logical)
    } else {
        part
    }
}

/// The views of a vector of byte vectors.
pub open spec fn part_views(parts: Seq<Vec<u8>>) -> Seq<Seq<u8>> {
    Seq::new(parts.len(), |i: int| parts[i]@)
}

/// The concatenation of the contributions of the first `k` parts.
pub open spec fn spec_merged_upto(
    parts: Seq<Seq<u8>>,
    k: int,
    total_bytes: int,
    chunk: int,
) -> Seq<u8>
    decreases k,
{
    if k <= 0 {
        Seq::empty()
    } else {
        spec_merged_upto(parts, k - 1, total_bytes, chunk) + spec_taken(
            parts[k - 1],
            spec_logical_len(k - 1, parts.len() as int, total_bytes, chunk),
        )
    }
}

/// The merged object assembled from all parts in index order.
pub open spec fn spec_merged(parts: Seq<Seq<u8>>, total_bytes: int, chunk: int) -> Seq<u8> {
    spec_merged_upto(parts, parts.len() as int, total_bytes, chunk)
}

proof fn lemma_merged_len_upto(parts: Seq<Seq<u8>>, k: int, total_bytes: int, chunk: int)
    requires
        chunk > 0,
        total_bytes >= 0,
        parts.len() == spec_total_parts(total_bytes, chunk),
        0 <= k <= parts.len(),
        forall|i: int|
            0 <= i < parts.len() ==> parts[i].len() >= spec_logical_len(
                i,
                parts.len() as int,
                total_bytes,
                chunk,
            ),
    ensures
        spec_merged_upto(parts, k, total_bytes, chunk).len() == spec_sum_logical(
            k,
            parts.len() as int,
            total_bytes,
            chunk,
        ),
    decreases k,
{
    lemma_total_parts_bounds(total_bytes, chunk);
    if k > 0 {
        lemma_merged_len_upto(parts, k - 1, total_bytes, chunk);
        let logical = spec_logical_len(k - 1, parts.len() as int, total_bytes, chunk);
        if k - 1 < parts.len() - 1 {
            lemma_sum_logical_partial(k - 1, parts.len() as int, total_bytes, chunk);
        }
        assert(spec_taken(parts[k - 1], logical).len() == logical) by {
            assert(logical >= 0) by {
                if k - 1 == parts.len() - 1 {
                    assert(chunk * (parts.len() - 1) == (parts.len() - 1) * chunk)
                        by (nonlinear_arith);
                }
            };
        };
    }
}

/// A merge over parts that each hold at least their logical length
/// yields exactly `total_bytes` bytes — the sum of the logical lengths.
pub proof fn lemma_merged_len(parts: Seq<Seq<u8>>, total_bytes: int, chunk: int)
    requires
        chunk > 0,
        total_bytes >= 0,
        parts.len() == spec_total_parts(total_bytes, chunk),
        forall|i: int|
            0 <= i < parts.len() ==> parts[i].len() >= spec_logical_len(
                i,
                parts.len() as int,
                total_bytes,
                chunk,
            ),
    ensures
        spec_merged(parts, total_bytes, chunk).len() == total_bytes,
{
    lemma_merged_len_upto(parts, parts.len() as int, total_bytes, chunk);
    lemma_sum_logical_total(parts.len() as int, total_bytes, chunk);
}

/// Assembles the parts of one object in index order, truncating each
/// part to its logical length. When every part holds at least its
/// logical length, the result is exactly `total_bytes` long.
pub fn merge_parts(parts: &Vec<Vec<u8>>, total_bytes: u64, chunk_size: u64) -> (out: Vec<u8>)
    requires
        chunk_size > 0,
        parts@.len() == spec_total_parts(total_bytes as int, chunk_size as int),
    ensures
        out@ == spec_merged(part_views(parts@), total_bytes as int, chunk_size as int),
        (forall|i: int|
            0 <= i < parts@.len() ==> parts@[i]@.len() >= spec_logical_len(
                i,
                parts@.len() as int,
                total_bytes as int,
                chunk_size as int,
            )) ==> out@.len() == total_bytes,
{
    let ghost views = part_views(parts@);
    let total_parts = parts.len();
    let mut out: Vec<u8> = Vec::new();
    let mut k: usize = 0;
    while k < total_parts
        invariant
            total_parts == parts@.len(),
            parts@.len() == spec_total_parts(total_bytes as int, chunk_size as int),
            chunk_size > 0,
            views == part_views(parts@),
            0 <= k <= total_parts,
            out@ == spec_merged_upto(views, k as int, total_bytes as int, chunk_size as int),
        decreases total_parts - k,
    {
        let part = &parts[k];
        let logical = logical_part_len(k as u64, total_parts as u64, total_bytes, chunk_size);
        let part_len_u64 = part.len() as u64;
        let take: usize = if part_len_u64 > logical {
            logical as usize
        } else {
            part.len()
        };
        proof {
            assert(views[k as int] == parts@[k as int]@);
            assert(take as int == spec_taken(views[k as int], logical as int).len());
        }
        let mut j: usize = 0;
        while j < take
            invariant
                0 <= j <= take,
                k < parts@.len(),
                take <= parts@[k as int]@.len(),
                views == part_views(parts@),
                views[k as int] == parts@[k as int]@,
                take as int == spec_taken(views[k as int], logical as int).len(),
                out@ == spec_merged_upto(views, k as int, total_bytes as int, chunk_size as int)
                    + views[k as int].take(j as int),
            decreases take - j,
        {
            let b = parts[k][j];
            out.push(b);
            proof {
                assert(views[k as int].take(j as int).push(b) =~= views[k as int].take(j + 1));
            }
            j = j + 1;
        }
        proof {
            assert(views[k as int].take(take as int) =~= spec_taken(
                views[k as int],
                logical as int,
            ));
            assert(out@ =~= spec_merged_upto(
                views,
                k as int + 1,
                total_bytes as int,
                chunk_size as int,
            ));
        }
        k = k + 1;
    }
    proof {
        if forall|i: int|
            0 <= i < parts@.len() ==> parts@[i]@.len() >= spec_logical_len(
                i,
                parts@.len() as int,
                total_bytes as int,
                chunk_size as int,
            ) {
            assert forall|i: int| 0 <= i < views.len() implies views[i].len() >= spec_logical_len(
                i,
                views.len() as int,
                total_bytes as int,
                chunk_size as int,
            ) by {
                assert(views[i] == parts@[i]@);
            };
            lemma_merged_len(views, total_bytes as int, chunk_size as int);
        }
    }
    out
}

} // verus!
