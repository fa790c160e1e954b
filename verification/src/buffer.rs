//! Alignment arithmetic and the layout of buffers for cache-bypassing reads.

use vstd::prelude::*;

verus! {

/// Storage block size: offsets and lengths of cache-bypassing reads are
/// multiples of it, and so is the address of the buffer they fill.
pub const BLOCK_SIZE: u64 = 4096;

/// Whether `x` is a multiple of `align`.
pub open spec fn is_aligned(x: int, align: int) -> bool {
    x % align == 0
}

/// The largest multiple of `align` that does not exceed `x`.
pub open spec fn align_down_spec(x: int, align: int) -> int {
    x - x % align
}

/// The smallest multiple of `align` that is not below `x`.
pub open spec fn align_up_spec(x: int, align: int) -> int {
    if x % align == 0 {
        x
    } else {
        x - x % align + align
    }
}

/// `align_down_spec` is the one multiple of `align` in `(x - align, x]`.
pub proof fn lemma_align_down_unique(x: int, align: int, r: int)
    requires
        align > 0,
        is_aligned(r, align),
        r <= x < r + align,
    ensures
        r == align_down_spec(x, align),
{
    let d: int = align_down_spec(x, align);
    assert(is_aligned(d, align) && d <= x < d + align) by (nonlinear_arith)
        requires
            align > 0,
            d == x - x % align,
    ;
    assert(r == d) by (nonlinear_arith)
        requires
            align > 0,
            r % align == 0,
            d % align == 0,
            r <= x < r + align,
            d <= x < d + align,
    ;
}

/// `align_up_spec` is the one multiple of `align` in `[x, x + align)`.
pub proof fn lemma_align_up_unique(x: int, align: int, r: int)
    requires
        align > 0,
        is_aligned(r, align),
        x <= r < x + align,
    ensures
        r == align_up_spec(x, align),
{
    let u: int = align_up_spec(x, align);
    assert(is_aligned(u, align) && x <= u < x + align) by (nonlinear_arith)
        requires
            align > 0,
            u == if x % align == 0 { x } else { x - x % align + align },
    ;
    assert(r == u) by (nonlinear_arith)
        requires
            align > 0,
            r % align == 0,
            u % align == 0,
            x <= r < x + align,
            x <= u < x + align,
    ;
}

/// Rounds `x` down to a multiple of `align`.
pub fn align_down(x: u64, align: u64) -> (r: u64)
    requires
        align > 0,
    ensures
        r == align_down_spec(x as int, align as int),
        is_aligned(r as int, align as int),
        r <= x < r + align,
{
    assert(x % align <= x) by (nonlinear_arith)
        requires
            align > 0,
    ;
    let r: u64 = x - x % align;
    assert(is_aligned(r as int, align as int)) by (nonlinear_arith)
        requires
            align > 0,
            r == x - x % align,
    ;
    r
}

/// Rounds `x` up to a multiple of `align`; `None` where that multiple does not
/// fit in 64 bits.
pub fn align_up(x: u64, align: u64) -> (r: Option<u64>)
    requires
        align > 0,
    ensures
        r is Some <==> align_up_spec(x as int, align as int) <= u64::MAX,
        r matches Some(v) ==> v == align_up_spec(x as int, align as int) && is_aligned(
            v as int,
            align as int,
        ) && x <= v < x + align,
{
    let rem: u64 = x % align;
    if rem == 0 {
        Some(x)
    } else {
        let pad: u64 = align - rem;
        if x > u64::MAX - pad {
            None
        } else {
            let v: u64 = x + pad;
            assert(is_aligned(v as int, align as int)) by (nonlinear_arith)
                requires
                    align > 0,
                    v == x - x % align + align,
            ;
            Some(v)
        }
    }
}

/// Whether a buffer of `size` bytes aligned to `align` can be asked for, and
/// serves cache-bypassing reads: the alignment is a power of two, the size is
/// a positive multiple of it, and the size leaves room below `isize::MAX` for
/// the padding that an allocation of that alignment may need.
pub open spec fn valid_layout(size: usize, align: usize) -> bool {
    &&& align > 0
    &&& (align as u64) & ((align - 1) as u64) == 0
    &&& size > 0
    &&& size % align == 0
    &&& size + (align - 1) <= isize::MAX
}

/// The layout of an aligned buffer: its size and its alignment.
#[derive(Debug, Clone, Copy, PartialEq, Eq)]
pub struct AlignedLayout {
    size: usize,
    align: usize,
}

impl AlignedLayout {
    pub closed spec fn spec_size(&self) -> usize {
        self.size
    }

    pub closed spec fn spec_align(&self) -> usize {
        self.align
    }

    #[verifier::type_invariant]
    spec fn inv(self) -> bool {
        valid_layout(self.size, self.align)
    }

    /// The layout of `size` bytes aligned to `align`, `None` where there is
    /// no such layout.
    pub fn new(size: usize, align: usize) -> (layout: Option<AlignedLayout>)
        ensures
            layout is Some <==> valid_layout(size, align),
            layout matches Some(l) ==> l.spec_size() == size && l.spec_align() == align,
    {
        if align == 0 || size == 0 {
            return None;
        }
        if (align as u64) & ((align - 1) as u64) != 0 {
            return None;
        }
        if size % align != 0 {
            return None;
        }
        let max: usize = isize::MAX as usize;
        if align - 1 > max || size > max - (align - 1) {
            return None;
        }
        Some(AlignedLayout { size, align })
    }

    #[verifier::when_used_as_spec(spec_size)]
    pub fn size(&self) -> (n: usize)
        ensures
            n == self.spec_size(),
            valid_layout(n, self.spec_align()),
    {
        proof {
            use_type_invariant(self);
        }
        self.size
    }

    #[verifier::when_used_as_spec(spec_align)]
    pub fn align(&self) -> (n: usize)
        ensures
            n == self.spec_align(),
            valid_layout(self.spec_size(), n),
    {
        proof {
            use_type_invariant(self);
        }
        self.align
    }
}

/// One block, and any whole number of blocks up to a mebibyte, is a layout
/// that can be asked for.
pub proof fn lemma_block_layouts(blocks: usize)
    requires
        0 < blocks <= 256,
    ensures
        valid_layout((blocks * 4096) as usize, BLOCK_SIZE as usize),
{
    assert(4096u64 & 4095u64 == 0) by (bit_vector);
    assert((blocks * 4096) % 4096 == 0) by (nonlinear_arith);
}

} // verus!
