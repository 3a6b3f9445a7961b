//! Type-safe hunks: hunks that know the type of their contents.
use core::marker::PhantomData;
use vstd::prelude::*;

use crate::kernel::cfg::Cfg;
use crate::kernel::hook::CfgStartupHook;
use crate::kernel::hunk::{round_up, Hunk as UntypedHunk};
use crate::kernel::raw::EntryFn;
use crate::utils::{is_sorted_by_key, SortKey};

verus! {

/// The priority of the startup hooks used to initialize typed hunks. It has a
/// negative value so that startup hooks with non-negative priorities (which
/// can be created without `unchecked`) will never see an uninitialized value
/// in a typed hunk.
pub const INIT_HOOK_PRIORITY: i32 = -0x7000_0000;

/// The initializers of typed hunks run before every startup hook with a
/// non-negative priority: in startup hooks sorted by their execution order,
/// a hook of [`INIT_HOOK_PRIORITY`] never follows one of a non-negative
/// priority.
pub proof fn lemma_initializers_run_first(sorted: Seq<CfgStartupHook>)
    requires
        is_sorted_by_key(sorted),
    ensures
        forall|i: int, j: int|
            0 <= i < sorted.len() && 0 <= j < sorted.len() && (#[trigger] sorted[i]).priority >= 0
                && (#[trigger] sorted[j]).priority == INIT_HOOK_PRIORITY ==> j < i,
{
    assert forall|i: int, j: int|
        0 <= i < sorted.len() && 0 <= j < sorted.len() && (#[trigger] sorted[i]).priority >= 0
            && (#[trigger] sorted[j]).priority == INIT_HOOK_PRIORITY implies j < i by {
        if i <= j {
            if i < j {
                assert(sorted[i].sort_key() <= sorted[j].sort_key());
            }
        }
    }
}

/// The larger of two values.
pub open spec fn max_spec(x: usize, y: usize) -> usize {
    if x > y {
        x
    } else {
        y
    }
}

/// Whether `x` is a power of two.
pub open spec fn is_power_of_two(x: usize) -> bool {
    x != 0 && (x & ((x - 1) as usize)) == 0
}

/// The larger of two values.
pub fn max(x: usize, y: usize) -> (r: usize)
    ensures
        r == max_spec(x, y),
{
    if x > y {
        x
    } else {
        y
    }
}

/// As a generic parameter of [`HunkDefiner`], indicates that the hunk should
/// be initialized by a startup hook.
#[derive(Debug, Eq, PartialEq, Copy, Clone)]
pub struct DefaultInitTag;

/// As a generic parameter of [`HunkDefiner`], indicates that the hunk should
/// be zero-initialized (the hunk pool is zero-initialized, so nothing needs
/// to run).
#[derive(Debug, Eq, PartialEq, Copy, Clone)]
pub struct ZeroInitTag;

/// Implemented on [`DefaultInitTag`] and [`ZeroInitTag`]: whether the contents
/// of a hunk need an initializer to run.
pub trait HunkIniter<T: ?Sized> {
    spec fn needs_init_spec() -> bool;

    /// A flag indicating whether an initializer should be registered.
    fn needs_init() -> (r: bool)
        ensures
            r == Self::needs_init_spec(),
    ;
}

impl<T: ?Sized> HunkIniter<T> for DefaultInitTag {
    open spec fn needs_init_spec() -> bool {
        true
    }

    fn needs_init() -> (r: bool) {
        true
    }
}

impl<T: ?Sized> HunkIniter<T> for ZeroInitTag {
    open spec fn needs_init_spec() -> bool {
        false
    }

    fn needs_init() -> (r: bool) {
        false
    }
}

/// Represents a single typed hunk in a system: a range of the hunk pool that
/// holds a value of `T`.
pub struct Hunk<T: ?Sized> {
    offset: usize,
    size: usize,
    _phantom: PhantomData<T>,
}

impl<T: ?Sized> Clone for Hunk<T> {
    fn clone(&self) -> (r: Self)
        ensures
            r == *self,
    {
        Hunk { offset: self.offset, size: self.size, _phantom: PhantomData }
    }
}

impl<T: ?Sized> Copy for Hunk<T> {

}

impl<T: ?Sized> Hunk<T> {
    /// The offset of the hunk in the hunk pool.
    pub closed spec fn offset_spec(self) -> usize {
        self.offset
    }

    /// The size of the hunk's contents in bytes.
    pub closed spec fn size_spec(self) -> usize {
        self.size
    }

    /// Construct a `HunkDefiner` to define a hunk in a configuration
    /// function.
    pub fn define() -> (r: HunkDefiner<T, DefaultInitTag>)
        ensures
            r.len_spec() == 1,
            r.align_spec() == 1,
    {
        HunkDefiner { len: 1, align: 1, _phantom: PhantomData }
    }

    /// Get the untyped hunk.
    pub fn untyped_hunk(this: Self) -> (r: UntypedHunk)
        ensures
            r.offset_spec() == this.offset_spec(),
    {
        UntypedHunk::from_offset(this.offset)
    }

    /// Get the address of the hunk's contents, given the address of the hunk
    /// pool.
    pub fn as_ptr(this: Self, hunk_pool_ptr: usize) -> (r: usize)
        ensures
            r == (hunk_pool_ptr + this.offset_spec()) % (usize::MAX + 1),
    {
        let r = Self::untyped_hunk(this).as_ptr(hunk_pool_ptr);
        proof {
            let x = hunk_pool_ptr + this.offset_spec();
            let m = usize::MAX + 1;
            if x > usize::MAX {
                vstd::arithmetic::div_mod::lemma_fundamental_div_mod_converse(x, m, 1, x - m);
            } else {
                vstd::arithmetic::div_mod::lemma_fundamental_div_mod_converse(x, m, 0, x);
            }
        }
        r
    }

    /// Get the address and the length of the raw bytes of the hunk, given
    /// the address of the hunk pool.
    pub fn as_bytes_ptr(this: Self, hunk_pool_ptr: usize) -> (r: (usize, usize))
        ensures
            r.0 == (hunk_pool_ptr + this.offset_spec()) % (usize::MAX + 1),
            r.1 == this.size_spec(),
    {
        (Self::as_ptr(this, hunk_pool_ptr), this.size)
    }
}

/// The definer (static builder) for [`Hunk`].
///
/// `InitTag` is either [`DefaultInitTag`] or [`ZeroInitTag`].
pub struct HunkDefiner<T: ?Sized, InitTag> {
    len: usize,
    align: usize,
    _phantom: PhantomData<(InitTag, PhantomData<T>)>,
}

impl<T: ?Sized, InitTag> HunkDefiner<T, InitTag> {
    /// The element count.
    pub closed spec fn len_spec(self) -> usize {
        self.len
    }

    /// The minimum alignment.
    pub closed spec fn align_spec(self) -> usize {
        self.align
    }

    /// Specify the element count. Defaults to `1`. Must be `1` for a
    /// non-array hunk.
    pub fn len(self, len: usize) -> (r: Self)
        ensures
            r.len_spec() == len,
            r.align_spec() == self.align_spec(),
    {
        HunkDefiner { len, align: self.align, _phantom: PhantomData }
    }

    /// Specify the minimum alignment. Defaults to `1`.
    pub fn align(self, align: usize) -> (r: Self)
        ensures
            r.len_spec() == self.len_spec(),
            r.align_spec() == align,
    {
        HunkDefiner { len: self.len, align, _phantom: PhantomData }
    }

    /// Zero-initialize the hunk.
    pub fn zeroed(self) -> (r: HunkDefiner<T, ZeroInitTag>)
        ensures
            r.len_spec() == self.len_spec(),
            r.align_spec() == self.align_spec(),
    {
        HunkDefiner { len: self.len, align: self.align, _phantom: PhantomData }
    }
}

/// The configuration after a typed hunk of `size` bytes was allocated with
/// alignment `align`, and its initializer `init` registered where
/// `needs_init`.
pub open spec fn hunk_defined(
    old_cfg: Cfg,
    new_cfg: Cfg,
    offset: usize,
    size: int,
    align: usize,
    needs_init: bool,
    init: EntryFn,
) -> bool {
    &&& offset == round_up(old_cfg.hunk_pool_len as int, align as int)
    &&& new_cfg.hunk_pool_len == offset + size
    &&& new_cfg.hunk_pool_align == max_spec(old_cfg.hunk_pool_align, align)
    &&& new_cfg.startup_hooks@ == if needs_init {
        old_cfg.startup_hooks@.push(
            CfgStartupHook {
                start: init,
                param: offset,
                priority: INIT_HOOK_PRIORITY,
                order: old_cfg.startup_hooks@.len() as usize,
            },
        )
    } else {
        old_cfg.startup_hooks@
    }
    &&& new_cfg.same_except(old_cfg, false, true, true, false, false, false)
}

impl<T, InitTag: HunkIniter<T>> HunkDefiner<T, InitTag> {
    /// Complete the definition of a hunk, returning a reference to the hunk.
    /// Where the contents need initializing, register `init` as a startup
    /// hook of [`INIT_HOOK_PRIORITY`] that receives the hunk's offset.
    pub fn finish(self, cfg: &mut Cfg, init: EntryFn) -> (r: Hunk<T>)
        requires
            self.len_spec() == 1,
            old(cfg).hunk_pool_len + max_spec(vstd::layout::align_of::<T>() as usize, self.align_spec())
                - 1 <= usize::MAX,
            round_up(
                old(cfg).hunk_pool_len as int,
                max_spec(vstd::layout::align_of::<T>() as usize, self.align_spec()) as int,
            ) + vstd::layout::size_of::<T>() <= usize::MAX,
        ensures
            r.size_spec() == vstd::layout::size_of::<T>(),
            hunk_defined(
                *old(cfg),
                *final(cfg),
                r.offset_spec(),
                vstd::layout::size_of::<T>() as int,
                max_spec(vstd::layout::align_of::<T>() as usize, self.align_spec()),
                InitTag::needs_init_spec(),
                init,
            ),
    {
        let size = core::mem::size_of::<T>();
        let align = max(core::mem::align_of::<T>(), self.align);
        proof {
            broadcast use vstd::layout::align_nonzero;
        }
        let untyped_hunk = UntypedHunk::build().len(size).align(align).finish(cfg);
        let start = untyped_hunk.offset();
        if InitTag::needs_init() {
            crate::kernel::hook::StartupHook::define().priority(INIT_HOOK_PRIORITY).start(
                init,
            ).param(start).unchecked().finish(cfg);
        }
        Hunk { offset: start, size, _phantom: PhantomData }
    }
}

impl<T, InitTag: HunkIniter<[T]>> HunkDefiner<[T], InitTag> {
    /// Complete the definition of an array hunk of `len` elements, returning
    /// a reference to the hunk. The alignment must be a power of two, and an
    /// array hunk can only be zero-initialized.
    pub fn finish(self, cfg: &mut Cfg) -> (r: Hunk<[T]>)
        requires
            is_power_of_two(self.align_spec()),
            !InitTag::needs_init_spec(),
            vstd::layout::size_of::<T>() * self.len_spec() <= usize::MAX,
            old(cfg).hunk_pool_len + max_spec(vstd::layout::align_of::<T>() as usize, self.align_spec())
                - 1 <= usize::MAX,
            round_up(
                old(cfg).hunk_pool_len as int,
                max_spec(vstd::layout::align_of::<T>() as usize, self.align_spec()) as int,
            ) + vstd::layout::size_of::<T>() * self.len_spec() <= usize::MAX,
        ensures
            r.size_spec() == vstd::layout::size_of::<T>() * self.len_spec(),
            hunk_defined(
                *old(cfg),
                *final(cfg),
                r.offset_spec(),
                vstd::layout::size_of::<T>() * self.len_spec(),
                max_spec(vstd::layout::align_of::<T>() as usize, self.align_spec()),
                false,
                0,
            ),
    {
        let size = core::mem::size_of::<T>() * self.len;
        let align = max(core::mem::align_of::<T>(), self.align);
        proof {
            broadcast use vstd::layout::align_nonzero;
        }
        let untyped_hunk = UntypedHunk::build().len(size).align(align).finish(cfg);
        let start = untyped_hunk.offset();
        Hunk { offset: start, size, _phantom: PhantomData }
    }
}

} // verus!
