//! Read sizes, strides and the arithmetic of where the next read goes.
//!
//! A file is either read from end to end in chunks, or, above a configured
//! size, sampled: a short read at every multiple of a stride. Reads that
//! bypass the page cache start at a multiple of the storage block size and
//! have a length that is one.

use vstd::prelude::*;
use crate::buffer::{align_up, align_up_spec, is_aligned, BLOCK_SIZE};

verus! {

/// Bytes per read when a whole file is read past the page cache.
pub const DIRECT_CHUNK: usize = 1048576;

/// Distance between two samples of a file read past the page cache.
pub const DIRECT_SAMPLE_STRIDE: u64 = 65536;

/// Bytes per sample read past the page cache: one storage block.
pub const DIRECT_SAMPLE_LEN: usize = 4096;

/// Bytes per read when a whole file is read through the page cache.
pub const BUFFERED_CHUNK: usize = 8192;

/// Distance between two samples of a file read through the page cache.
pub const BUFFERED_SAMPLE_STRIDE: u64 = 4096;

/// Bytes per sample read through the page cache.
pub const BUFFERED_SAMPLE_LEN: usize = 1;

/// One read: where it starts and how many bytes it asks for.
#[derive(Debug, Clone, Copy, PartialEq, Eq, Structural)]
pub struct ReadRequest {
    pub offset: u64,
    pub len: usize,
}

/// `n / d`, rounded up.
pub open spec fn ceil_div(n: int, d: int) -> int {
    if n % d == 0 {
        n / d
    } else {
        n / d + 1
    }
}

/// Whether a file of `file_size` bytes is sampled rather than read whole:
/// sampling is on (a threshold above zero) and the file is over the threshold.
pub open spec fn wants_sparse(file_size: u64, sparse_threshold: u64) -> bool {
    sparse_threshold > 0 && file_size > sparse_threshold
}

pub fn use_sparse(file_size: u64, sparse_threshold: u64) -> (b: bool)
    ensures
        b == wants_sparse(file_size, sparse_threshold),
{
    sparse_threshold > 0 && file_size > sparse_threshold
}

/// `ceil_div(n, d)` is the least `q` with `q * d >= n`.
pub proof fn lemma_ceil_div_least(n: int, d: int)
    requires
        n >= 0,
        d > 0,
    ensures
        ceil_div(n, d) >= 0,
        ceil_div(n, d) * d >= n,
        (ceil_div(n, d) - 1) * d < n || n == 0,
        ceil_div(n, d) <= n,
{
    let q: int = n / d;
    let r: int = n % d;
    assert(n == q * d + r && 0 <= r < d && 0 <= q) by (nonlinear_arith)
        requires
            n >= 0,
            d > 0,
            q == n / d,
            r == n % d,
    ;
    assert((q + 1) * d == q * d + d && (q - 1) * d == q * d - d) by (nonlinear_arith);
    assert(q <= q * d) by (nonlinear_arith)
        requires
            q >= 0,
            d >= 1,
    ;
}

/// Every index whose multiple of the stride lies inside the file is below
/// `ceil_div(file_size, stride)`, and every index below it has its multiple
/// inside the file.
pub proof fn lemma_index_in_file(file_size: int, stride: int, i: int)
    requires
        file_size >= 0,
        stride > 0,
        i >= 0,
    ensures
        i * stride < file_size <==> i < ceil_div(file_size, stride),
{
    lemma_ceil_div_least(file_size, stride);
    let c: int = ceil_div(file_size, stride);
    if i < c {
        assert(i * stride <= (c - 1) * stride) by (nonlinear_arith)
            requires
                i <= c - 1,
                stride > 0,
        ;
    } else {
        assert(i * stride >= c * stride) by (nonlinear_arith)
            requires
                i >= c,
                stride > 0,
        ;
    }
}

/// The number of samples of a file: one at every multiple of the stride that
/// lies inside the file.
pub fn sample_count(file_size: u64, stride: u64) -> (n: u64)
    requires
        stride > 0,
    ensures
        n == ceil_div(file_size as int, stride as int),
        n <= file_size,
{
    proof {
        lemma_ceil_div_least(file_size as int, stride as int);
    }
    let q: u64 = file_size / stride;
    if file_size % stride == 0 {
        q
    } else {
        q + 1
    }
}

/// `cursor` moved forward by `step`, but never past the end of the file.
pub open spec fn advance_capped(file_size: u64, cursor: u64, step: u64) -> u64 {
    if cursor >= file_size {
        cursor
    } else if step >= file_size - cursor {
        file_size
    } else {
        (cursor + step) as u64
    }
}

pub fn step_cursor(file_size: u64, cursor: u64, step: u64) -> (next: u64)
    ensures
        next == advance_capped(file_size, cursor, step),
        cursor < file_size ==> next <= file_size,
        cursor < file_size && step > 0 ==> next > cursor,
{
    if cursor >= file_size {
        cursor
    } else if step >= file_size - cursor {
        file_size
    } else {
        cursor + step
    }
}

/// The length of the chunk read at `offset` when a whole file is read past
/// the page cache: what is left of the file from `offset` on, at most a chunk,
/// rounded up to whole blocks. Nothing is left at or after the end.
pub open spec fn direct_chunk_len(file_size: u64, offset: u64) -> int {
    let left: int = if offset < file_size {
        file_size - offset
    } else {
        0
    };
    let wanted: int = if left < DIRECT_CHUNK as int {
        left
    } else {
        DIRECT_CHUNK as int
    };
    align_up_spec(wanted, BLOCK_SIZE as int)
}

/// A chunk is never empty, never longer than the chunk buffer, and made of
/// whole blocks.
pub proof fn lemma_direct_chunk_len(file_size: u64, offset: u64)
    requires
        offset < file_size,
    ensures
        0 < direct_chunk_len(file_size, offset) <= DIRECT_CHUNK,
        is_aligned(direct_chunk_len(file_size, offset), BLOCK_SIZE as int),
        direct_chunk_len(file_size, offset) >= file_size - offset || direct_chunk_len(
            file_size,
            offset,
        ) == DIRECT_CHUNK,
{
}

pub fn chunk_len(file_size: u64, offset: u64) -> (len: usize)
    ensures
        len == direct_chunk_len(file_size, offset),
        len <= DIRECT_CHUNK,
        offset < file_size ==> len > 0,
        is_aligned(len as int, BLOCK_SIZE as int),
{
    let left: u64 = if offset < file_size {
        file_size - offset
    } else {
        0
    };
    let wanted: u64 = if left < DIRECT_CHUNK as u64 {
        left
    } else {
        DIRECT_CHUNK as u64
    };
    let rounded: Option<u64> = align_up(wanted, BLOCK_SIZE);
    assert(rounded is Some);
    rounded.unwrap() as usize
}

} // verus!
