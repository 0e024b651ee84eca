//! Splitting one remote object into fixed-size byte ranges.
//!
//! A file of `require_size` bytes is fetched as `ceil(require_size /
//! chunk_size)` parts; part `idx` covers the half-open byte interval
//! `[idx * chunk_size, min((idx + 1) * chunk_size, require_size))`.

use vstd::arithmetic::div_mod::{
    lemma_div_multiples_vanish_fancy, lemma_div_nonincreasing, lemma_div_plus_one,
    lemma_div_pos_is_pos, lemma_fundamental_div_mod,
};
use vstd::arithmetic::mul::lemma_mul_inequality;
use vstd::prelude::*;
use vstd::string::*;

use std::sync::Arc;

use crate::jwtsign::{spec_part_name, HttpdMetaReader};
use crate::text::{dec_of, join_spec, push_dec};

verus! {

/// The number of parts a file of `require` bytes is split into with
/// chunks of `chunk` bytes: `ceil(require / chunk)`.
pub open spec fn spec_total_parts(require: int, chunk: int) -> int
    recommends
        chunk > 0,
{
    (require + chunk - 1) / chunk
}

/// The first byte of part `idx`.
pub open spec fn spec_start(idx: int, chunk: int) -> int {
    chunk * idx
}

/// One past the last byte of part `idx`.
pub open spec fn spec_end(idx: int, chunk: int, require: int) -> int {
    if chunk * idx + chunk > require {
        require
    } else {
        chunk * idx + chunk
    }
}

/// Basic bounds of the part count: none for an empty file, at least one
/// otherwise, and the whole file covered with less than one spare chunk.
pub proof fn lemma_total_parts_bounds(require: int, chunk: int)
    requires
        chunk > 0,
        require >= 0,
    ensures
        require == 0 ==> spec_total_parts(require, chunk) == 0,
        require > 0 ==> spec_total_parts(require, chunk) >= 1,
        require <= chunk * spec_total_parts(require, chunk),
        chunk * (spec_total_parts(require, chunk) - 1) < require,
{
    let t = spec_total_parts(require, chunk);
    lemma_fundamental_div_mod(require + chunk - 1, chunk);
    assert(require + chunk - 1 == chunk * t + ((require + chunk - 1) % chunk));
    assert(0 <= (require + chunk - 1) % chunk < chunk);
    assert(chunk * (t - 1) == chunk * t - chunk) by (nonlinear_arith);
    if require == 0 {
        assert(chunk * t >= 0);
        assert(chunk * t <= chunk - 1);
        assert(t == 0) by (nonlinear_arith)
            requires
                chunk > 0,
                0 <= chunk * t <= chunk - 1,
        ;
    }
    if require > 0 {
        lemma_div_pos_is_pos(require + chunk - 1, chunk);
        assert(t > 0) by (nonlinear_arith)
            requires
                chunk > 0,
                chunk * t >= require,
                require > 0,
        ;
    }
}

/// Every non-final part is exactly one chunk wide; whenever the chunk
/// size does not divide the file size, the final part is strictly
/// narrower; and the final part always ends at the file size.
pub proof fn lemma_range_widths(idx: int, chunk: int, require: int)
    requires
        chunk > 0,
        require >= 0,
        0 <= idx < spec_total_parts(require, chunk),
    ensures
        idx < spec_total_parts(require, chunk) - 1 ==> spec_end(idx, chunk, require) - spec_start(
            idx,
            chunk,
        ) == chunk,
        idx == spec_total_parts(require, chunk) - 1 ==> spec_end(idx, chunk, require) == require,
        require % chunk != 0 ==> ((spec_end(idx, chunk, require) - spec_start(idx, chunk) == chunk)
            <==> idx < spec_total_parts(require, chunk) - 1),
{
    let t = spec_total_parts(require, chunk);
    lemma_total_parts_bounds(require, chunk);
    assert(chunk * idx + chunk == chunk * (idx + 1)) by (nonlinear_arith);
    if idx < t - 1 {
        lemma_mul_inequality(idx + 1, t - 1, chunk);
        assert(chunk * (idx + 1) == (idx + 1) * chunk) by (nonlinear_arith);
        assert(chunk * (t - 1) == (t - 1) * chunk) by (nonlinear_arith);
        assert(chunk * (idx + 1) <= chunk * (t - 1) < require);
    } else {
        assert(idx == t - 1);
        assert(chunk * (idx + 1) == chunk * t) by (nonlinear_arith)
            requires
                idx == t - 1,
        ;
        assert(chunk * t >= require);
        if chunk * t == require {
            assert(spec_end(idx, chunk, require) == require);
        }
        if require % chunk != 0 {
            lemma_fundamental_div_mod(require, chunk);
            if chunk * t == require {
                assert(require == chunk * t);
                assert(require % chunk == 0) by (nonlinear_arith)
                    requires
                        chunk > 0,
                        require == chunk * t,
                ;
            }
            assert(chunk * t > require);
        }
    }
}

/// A non-empty file smaller than one chunk is a single part, so it is
/// fetched in one range and never merged.
pub proof fn lemma_single_part(require: int, chunk: int)
    requires
        chunk > 0,
        0 < require < chunk,
    ensures
        spec_total_parts(require, chunk) == 1,
{
    let t = spec_total_parts(require, chunk);
    lemma_total_parts_bounds(require, chunk);
    assert(chunk * (t - 1) < chunk);
    assert(t <= 1) by (nonlinear_arith)
        requires
            chunk > 0,
            chunk * (t - 1) < chunk,
    ;
}

/// A file whose size is an exact positive multiple of the chunk size has
/// exactly that many parts, and its final part is a full chunk.
pub proof fn lemma_exact_multiple(k: int, chunk: int)
    requires
        chunk > 0,
        k >= 1,
    ensures
        spec_total_parts(k * chunk, chunk) == k,
        spec_end(k - 1, chunk, k * chunk) - spec_start(k - 1, chunk) == chunk,
{
    let require = k * chunk;
    assert(require + chunk - 1 == chunk * k + (chunk - 1)) by (nonlinear_arith)
        requires
            require == k * chunk,
    ;
    lemma_div_multiples_vanish_fancy(k, chunk - 1, chunk);
    assert(spec_total_parts(require, chunk) == k);
    assert(chunk * (k - 1) + chunk == chunk * k == require) by (nonlinear_arith)
        requires
            require == k * chunk,
    ;
}

/// The number of parts for a file of `require` bytes at chunk size
/// `chunk`: zero for an empty file, one for anything up to a chunk.
pub fn total_parts_for(require: u64, chunk: u64) -> (t: u64)
    requires
        chunk > 0,
    ensures
        t as int == spec_total_parts(require as int, chunk as int),
{
    if require == 0 {
        proof {
            lemma_total_parts_bounds(0, chunk as int);
        }
        0
    } else {
        let q = (require - 1) / chunk;
        proof {
            lemma_div_plus_one(require - 1, chunk as int);
            lemma_div_nonincreasing(require as int - 1, chunk as int);
        }
        q + 1
    }
}

/// The byte interval `[start, end)` of part `idx`.
pub fn range_bounds(idx: u64, chunk: u64, require: u64) -> (b: (u64, u64))
    requires
        chunk > 0,
        (idx as int) < spec_total_parts(require as int, chunk as int),
    ensures
        b.0 as int == spec_start(idx as int, chunk as int),
        b.1 as int == spec_end(idx as int, chunk as int, require as int),
        b.0 < b.1 <= require,
{
    proof {
        lemma_total_parts_bounds(require as int, chunk as int);
        lemma_mul_inequality(
            idx as int,
            spec_total_parts(require as int, chunk as int) - 1,
            chunk as int,
        );
        assert((chunk as int) * (idx as int) == (idx as int) * (chunk as int)) by (nonlinear_arith);
        assert((chunk as int) * (spec_total_parts(require as int, chunk as int) - 1) == (
        spec_total_parts(require as int, chunk as int) - 1) * (chunk as int)) by (nonlinear_arith);
    }
    let start = idx * chunk;
    let rest = require - start;
    let end = if rest < chunk {
        require
    } else {
        start + chunk
    };
    (start, end)
}

/// One remote object to fetch: its signed token, its expected size and
/// the chunk size its ranges are cut with.
#[derive(Debug)]
pub struct FSReader {
    pub request_sign: String,
    pub require_size: u64,
    pub chunk_size: u64,
}

impl FSReader {
    /// A reader for one object of `size` bytes, with the engine's fixed
    /// chunk size.
    pub fn new(sign: String, size: u64) -> (r: Arc<Self>)
        ensures
            r.request_sign == sign,
            r.require_size == size,
            r.chunk_size == crate::CHUNK_SIZE,
    {
        Arc::new(
            FSReader {
                request_sign: sign,
                require_size: size,
                chunk_size: crate::CHUNK_SIZE,
            },
        )
    }

    /// How many ranges this object is split into.
    pub fn total_parts(&self) -> (t: u64)
        requires
            self.chunk_size > 0,
        ensures
            t as int == spec_total_parts(self.require_size as int, self.chunk_size as int),
    {
        total_parts_for(self.require_size, self.chunk_size)
    }
}

/// The directories a range task writes under.
pub struct Args {
    pub data_path: String,
    pub temp_path: String,
}

impl Args {
    /// Bundles the final-file and scratch directories.
    pub fn new(data_path: String, temp_path: String) -> (r: Arc<Self>)
        ensures
            r.data_path == data_path,
            r.temp_path == temp_path,
    {
        Arc::new(Args { data_path, temp_path })
    }
}

/// One byte range of one object: part `idx_part` of `total_parts`,
/// covering `[start_pos, end_pos)`.
pub struct Range {
    pub idx_part: u64,
    pub start_pos: u64,
    pub end_pos: u64,
    pub total_parts: u64,
    pub sign: String,
    pub args: Arc<Args>,
}

/// The HTTP `Range` header value for the half-open interval
/// `[start, end)`: `bytes={start}-{end - 1}`.
pub open spec fn spec_header(start: int, end: int) -> Seq<char> {
    "bytes="@ + dec_of(start as nat) + "-"@ + dec_of((end - 1) as nat)
}

impl Range {
    /// A range with the given bounds and identity.
    pub fn new(
        idx_part: u64,
        start_pos: u64,
        end_pos: u64,
        total_parts: u64,
        sign: String,
        args: Arc<Args>,
    ) -> (r: Self)
        ensures
            r.idx_part == idx_part,
            r.start_pos == start_pos,
            r.end_pos == end_pos,
            r.total_parts == total_parts,
            r.sign == sign,
            r.args == args,
    {
        Range { idx_part, start_pos, end_pos, total_parts, sign, args }
    }

    /// The `Range:` header for this part's byte interval.
    pub fn header(&self) -> (h: String)
        requires
            self.start_pos < self.end_pos,
        ensures
            h@ == spec_header(self.start_pos as int, self.end_pos as int),
    {
        let mut h = String::new();
        h.append("bytes=");
        push_dec(self.start_pos, &mut h);
        h.append("-");
        push_dec(self.end_pos - 1, &mut h);
        proof {
            assert(h@ =~= spec_header(self.start_pos as int, self.end_pos as int));
        }
        h
    }

    /// The file this range is written to: the final path itself for a
    /// single-part object, the scratch part path otherwise; paired with
    /// the part count that made the choice.
    pub fn path(&self, reader: Arc<HttpdMetaReader>) -> (r: (String, u64))
        ensures
            r.1 == self.total_parts,
            self.total_parts == 1 ==> r.0@ == join_spec(
                (*self.args).data_path@,
                (*reader).spec_relative(),
            ),
            self.total_parts != 1 ==> r.0@ == join_spec(
                (*self.args).temp_path@,
                spec_part_name(
                    self.idx_part as nat,
                    join_spec((*self.args).data_path@, (*reader).spec_relative()),
                ),
            ),
    {
        if self.total_parts == 1 {
            (reader.local_absolute_path_str(self.args.data_path.as_str()), self.total_parts)
        } else {
            (
                reader.local_part_path(
                    self.args.data_path.as_str(),
                    self.idx_part,
                    self.args.temp_path.as_str(),
                ),
                self.total_parts,
            )
        }
    }

    /// The width of this range in bytes.
    pub fn size(&self) -> (s: u64)
        requires
            self.start_pos <= self.end_pos,
        ensures
            s == self.end_pos - self.start_pos,
    {
        self.end_pos - self.start_pos
    }
}

} // verus!
