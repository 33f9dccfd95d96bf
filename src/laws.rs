use crate::boxed::{
    built,
    constructed_ptr,
    construction_succeeds,
    destroyed,
    heap_after_destroy,
    heap_after_new,
    leaked,
    raw_of,
    unleaked,
    Box,
    Error,
};
use crate::heap::HeapView;
use crate::ptr::PtrView;
use vstd::layout::size_of;
use vstd::prelude::*;

verus! {

/// Destruction releases at most one block over an instance's life: a second
/// `destroy` changes neither the instance nor the heap, destroying a leaked
/// instance releases nothing, and a released block is gone from the heap, so
/// no other instance holding its address can destroy it again.
pub proof fn lemma_destroy_at_most_once<T>(p: PtrView, h: HeapView<T>)
    ensures
        destroyed(destroyed(p)) == destroyed(p),
        heap_after_destroy(destroyed(p), heap_after_destroy(p, h)) == heap_after_destroy(p, h),
        heap_after_destroy(p, h).releases <= h.releases + 1,
        heap_after_destroy(leaked(p), h) == h,
        !p.bit && p.addr != 0 ==> !heap_after_destroy(p, h).cells.contains_key(p.addr),
{
}

/// A zero-size value is placed without any request to the allocator, always
/// successfully, and destroying the instance is a no-op.
pub proof fn lemma_zero_size<T>(h: HeapView<T>, v: T)
    requires
        size_of::<T>() == 0,
    ensures
        construction_succeeds(h),
        heap_after_new(h, v) == h,
        destroyed(constructed_ptr::<T>(h)) == constructed_ptr::<T>(h),
        heap_after_destroy(constructed_ptr::<T>(h), h) == h,
{
}

/// `into_raw` followed by `from_raw` gives back a live instance with the same
/// address and ownership, over the same heap; destroying it releases its
/// block exactly once.
pub proof fn lemma_raw_round_trip<T>(p: PtrView, h: HeapView<T>)
    requires
        !p.bit,
    ensures
        raw_of(p) == p,
        p.addr != 0 && h.cells.contains_key(p.addr) ==> heap_after_destroy(raw_of(p), h).releases
            == h.releases + 1 && heap_after_destroy(
            destroyed(raw_of(p)),
            heap_after_destroy(raw_of(p), h),
        ) == heap_after_destroy(raw_of(p), h),
{
}

/// `leak` then `unleak` on a live instance restores it; destroying it then
/// releases its block exactly once.
pub proof fn lemma_leak_unleak<T>(p: PtrView, h: HeapView<T>)
    requires
        !p.bit,
    ensures
        unleaked(leaked(p)) == p,
        p.addr != 0 && h.cells.contains_key(p.addr) ==> heap_after_destroy(unleaked(leaked(p)), h).releases
            == h.releases + 1 && !heap_after_destroy(unleaked(leaked(p)), h).cells.contains_key(
            p.addr,
        ),
{
}

/// Reading a new instance gives the value it was built from, and a value
/// written through the mutable accessor is what a later read gives.
pub proof fn lemma_access<T>(h: HeapView<T>, v: T, w: T)
    requires
        size_of::<T>() > 0,
        construction_succeeds(h),
    ensures
        heap_after_new(h, v).holds_value(constructed_ptr::<T>(h).addr),
        heap_after_new(h, v).value_at(constructed_ptr::<T>(h).addr) == v,
        heap_after_new(h, v).written(constructed_ptr::<T>(h).addr, Some(w)).holds_value(
            constructed_ptr::<T>(h).addr,
        ),
        heap_after_new(h, v).written(constructed_ptr::<T>(h).addr, Some(w)).value_at(
            constructed_ptr::<T>(h).addr,
        ) == w,
{
}

/// Reading an instance that `new` built gives the value it was built from,
/// a zero-size value included.
pub proof fn lemma_read_after_new<T>(
    h: HeapView<T>,
    v: T,
    r: Result<Box<T>, Error>,
    h1: HeapView<T>,
)
    requires
        built(h, v, r, h1),
        r is Ok,
    ensures
        r->Ok_0.readable_in(h1),
        r->Ok_0.payload(h1) == v,
{
}

/// Building a copy leaves every readable instance readable, with its value
/// unchanged, and puts a copy of a heap value at another address.
pub proof fn lemma_copy_keeps_original<T>(
    b: Box<T>,
    h: HeapView<T>,
    c: T,
    r: Result<Box<T>, Error>,
    h1: HeapView<T>,
)
    requires
        b.readable_in(h),
        built(h, c, r, h1),
        r is Ok,
    ensures
        b.readable_in(h1),
        b.payload(h1) == b.payload(h),
        size_of::<T>() > 0 && b.inline() is None ==> r->Ok_0@.addr != b@.addr,
{
}

} // verus!
