//! Hunks: ranges of the static memory pool that is allocated at configuration
//! time.
use vstd::prelude::*;

use super::cfg::Cfg;

verus! {

/// `x` rounded up to the next multiple of `align`.
pub open spec fn round_up(x: int, align: int) -> int {
    (x + align - 1) / align * align
}

/// A range of the static memory pool, identified by its offset.
#[derive(Debug, Clone, Copy, PartialEq, Eq, Structural)]
pub struct Hunk {
    start: usize,
}

/// The initial value of a hunk reference: the hunk at offset zero.
impl Default for Hunk {
    fn default() -> (r: Self)
        ensures
            r.offset_spec() == 0,
    {
        Hunk { start: 0 }
    }
}

impl Hunk {
    /// The offset of the hunk in the hunk pool.
    pub closed spec fn offset_spec(self) -> usize {
        self.start
    }

    /// Construct a `HunkDefiner` to define a hunk in a configuration
    /// function.
    pub fn build() -> (r: HunkDefiner)
        ensures
            r.len_spec() == 0,
            r.align_spec() == 1,
    {
        HunkDefiner::new()
    }

    /// The hunk that starts at the given offset.
    pub fn from_offset(start: usize) -> (r: Self)
        ensures
            r.offset_spec() == start,
    {
        Hunk { start }
    }

    /// The offset of the hunk in the memory pool.
    pub fn offset(self) -> (r: usize)
        ensures
            r == self.offset_spec(),
    {
        self.start
    }

    /// The address of the hunk, given the address of the memory pool.
    pub fn as_ptr(self, hunk_pool_ptr: usize) -> (r: usize)
        ensures
            r == if hunk_pool_ptr + self.offset_spec() > usize::MAX {
                hunk_pool_ptr + self.offset_spec() - (usize::MAX + 1)
            } else {
                hunk_pool_ptr + self.offset_spec()
            },
    {
        hunk_pool_ptr.wrapping_add(self.start)
    }
}

/// The definer (static builder) for [`Hunk`].
#[derive(Debug, Clone, Copy, PartialEq, Eq, Structural)]
pub struct HunkDefiner {
    len: usize,
    align: usize,
}

impl HunkDefiner {
    pub closed spec fn len_spec(self) -> usize {
        self.len
    }

    pub closed spec fn align_spec(self) -> usize {
        self.align
    }

    /// A definer of an empty hunk with alignment `1`.
    pub fn new() -> (r: Self)
        ensures
            r.len_spec() == 0,
            r.align_spec() == 1,
    {
        HunkDefiner { len: 0, align: 1 }
    }

    /// Specify the size of the hunk in bytes.
    pub fn len(self, len: usize) -> (r: Self)
        ensures
            r.len_spec() == len,
            r.align_spec() == self.align_spec(),
    {
        HunkDefiner { len, ..self }
    }

    /// Specify the alignment of the hunk.
    pub fn align(self, align: usize) -> (r: Self)
        ensures
            r.len_spec() == self.len_spec(),
            r.align_spec() == align,
    {
        HunkDefiner { align, ..self }
    }

    /// Allocate the hunk at the end of the memory pool, aligned as requested,
    /// and raise the alignment of the pool to at least that of the hunk.
    pub fn finish(self, cfg: &mut Cfg) -> (r: Hunk)
        requires
            self.align_spec() > 0,
            old(cfg).hunk_pool_len + self.align_spec() - 1 <= usize::MAX,
            round_up(old(cfg).hunk_pool_len as int, self.align_spec() as int) + self.len_spec()
                <= usize::MAX,
        ensures
            r.offset_spec() == round_up(old(cfg).hunk_pool_len as int, self.align_spec() as int),
            final(cfg).hunk_pool_len == r.offset_spec() + self.len_spec(),
            final(cfg).hunk_pool_align == if self.align_spec() > old(cfg).hunk_pool_align {
                self.align_spec()
            } else {
                old(cfg).hunk_pool_align
            },
            final(cfg).same_except_hunk_pool(*old(cfg)),
    {
        let align = self.align;
        let len = self.len;
        proof {
            lemma_round_up_bounds(cfg.hunk_pool_len as int, align as int);
        }
        // Round up `hunk_pool_len`
        cfg.hunk_pool_len = (cfg.hunk_pool_len + (align - 1)) / align * align;
        let start = cfg.hunk_pool_len;
        cfg.hunk_pool_len = cfg.hunk_pool_len + len;
        if align > cfg.hunk_pool_align {
            cfg.hunk_pool_align = align;
        }
        Hunk::from_offset(start)
    }
}

/// Rounding up gives the smallest multiple of `align` that is not below `x`.
pub proof fn lemma_round_up_bounds(x: int, align: int)
    requires
        x >= 0,
        align > 0,
    ensures
        x <= round_up(x, align) < x + align,
        round_up(x, align) % align == 0,
        round_up(x, align) <= x + align - 1,
{
    let q = (x + align - 1) / align;
    let r = (x + align - 1) % align;
    assert(x + align - 1 == q * align + r) by (nonlinear_arith)
        requires
            align > 0,
            q == (x + align - 1) / align,
            r == (x + align - 1) % align,
    ;
    assert((q * align) % align == 0) by (nonlinear_arith)
        requires
            align > 0,
    ;
}

/// A hunk allocated after another one lies entirely after it, and every hunk
/// starts at a multiple of its alignment.
pub proof fn lemma_hunks_disjoint(pool_len0: int, align1: int, len1: int, align2: int)
    requires
        pool_len0 >= 0,
        align1 > 0,
        len1 >= 0,
        align2 > 0,
    ensures
        round_up(pool_len0, align1) % align1 == 0,
        round_up(pool_len0, align1) + len1 <= round_up(round_up(pool_len0, align1) + len1, align2),
        round_up(round_up(pool_len0, align1) + len1, align2) % align2 == 0,
{
    lemma_round_up_bounds(pool_len0, align1);
    lemma_round_up_bounds(round_up(pool_len0, align1) + len1, align2);
}

} // verus!
