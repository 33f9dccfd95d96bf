use crate::heap::{Heap, HeapView};
use crate::ptr::{Ptr, PtrView};
use vstd::layout::size_of;
use vstd::prelude::*;

verus! {

/// The one way in which this library's operations fail.
#[derive(Debug, Clone, Copy, PartialEq, Eq, Structural)]
pub enum Error {
    /// The allocator declined a storage request.
    Alloc,
}

/// A clone that may fail, as when the copy needs storage of its own.
pub trait TryClone: Sized {
    fn try_clone(&self) -> Result<Self, Error>;
}

/// Owns one value of type `T` placed in a `Heap<T>`.
///
/// The released flag of the tagged pointer is clear exactly when this
/// instance is responsible for destroying the value and releasing its block.
/// A zero-size value takes no block: it stays with the instance that `new`
/// built for it.
pub struct Box<T> {
    ptr: Ptr<T>,
    zero: Option<T>,
}

/// The tagged pointer of an instance after `destroy`.
pub open spec fn destroyed(p: PtrView) -> PtrView {
    if !p.bit && p.addr != 0 {
        PtrView { addr: p.addr, bit: true }
    } else {
        p
    }
}

/// The heap after `destroy` of an instance whose tagged pointer is `p`.
pub open spec fn heap_after_destroy<T>(p: PtrView, h: HeapView<T>) -> HeapView<T> {
    if !p.bit && p.addr != 0 {
        h.released(p.addr)
    } else {
        h
    }
}

/// The tagged pointer of an instance that `new` builds in heap `h`.
pub open spec fn constructed_ptr<T>(h: HeapView<T>) -> PtrView {
    if size_of::<T>() == 0 {
        PtrView { addr: 0, bit: true }
    } else {
        PtrView { addr: h.next_address(), bit: false }
    }
}

/// Whether `new` succeeds on heap `h`.
pub open spec fn construction_succeeds<T>(h: HeapView<T>) -> bool {
    size_of::<T>() == 0 || h.can_allocate(size_of::<T>())
}

/// The heap after `new` places `v` in `h`, when it succeeds.
pub open spec fn heap_after_new<T>(h: HeapView<T>, v: T) -> HeapView<T> {
    if size_of::<T>() == 0 {
        h
    } else {
        h.allocated(size_of::<T>()).written(h.next_address(), Some(v))
    }
}

/// Whether `r` and the heap `h1` are what `new` gives when it places `t`
/// in `h0`.
pub open spec fn built<T>(h0: HeapView<T>, t: T, r: Result<Box<T>, Error>, h1: HeapView<T>) -> bool {
    &&& r is Ok <==> construction_succeeds(h0)
    &&& r is Ok ==> {
        &&& r->Ok_0@ == constructed_ptr(h0)
        &&& h1 == heap_after_new(h0, t)
        &&& r->Ok_0.inline() == (if size_of::<T>() == 0 {
            Some(t)
        } else {
            None
        })
        &&& size_of::<T>() > 0 ==> !h0.cells.contains_key(r->Ok_0@.addr)
    }
    &&& r is Err ==> r->Err_0 == Error::Alloc && h1 == h0
}

/// The tagged pointer that `into_raw` hands out for an instance with `p`.
pub open spec fn raw_of(p: PtrView) -> PtrView {
    PtrView { addr: p.addr, bit: false }
}

/// The tagged pointer after `leak`.
pub open spec fn leaked(p: PtrView) -> PtrView {
    PtrView { addr: p.addr, bit: true }
}

/// The tagged pointer after `unleak`.
pub open spec fn unleaked(p: PtrView) -> PtrView {
    PtrView { addr: p.addr, bit: false }
}

impl<T> Box<T> {
    pub closed spec fn view(&self) -> PtrView {
        self.ptr@
    }

    /// The zero-size value kept with this instance, if any.
    pub closed spec fn inline(&self) -> Option<T> {
        self.zero
    }

    /// Whether the value can be read: a zero-size value kept with the
    /// instance, or a live instance whose block holds its value.
    pub open spec fn readable_in(&self, h: HeapView<T>) -> bool {
        self.inline() is Some || (self.is_live() && h.holds_value(self@.addr))
    }

    /// The value that a read gives.
    pub open spec fn payload(&self, h: HeapView<T>) -> T {
        if self.inline() is Some {
            self.inline()->Some_0
        } else {
            h.value_at(self@.addr)
        }
    }

    /// Whether this instance is responsible for destroying its value.
    pub open spec fn is_live(&self) -> bool {
        !self@.bit
    }

    /// Whether the value of a live instance is in `h`.
    pub open spec fn valid_in(&self, h: HeapView<T>) -> bool {
        self@.bit || self@.addr == 0 || h.holds_value(self@.addr)
    }

    /// Places `t` on `heap`. A zero-size value takes no block and needs no
    /// release; otherwise a block of the value's size is requested, and a
    /// declined request gives `Error::Alloc` and leaves the heap as it was.
    pub fn new(t: T, heap: &mut Heap<T>) -> (r: Result<Self, Error>)
        requires
            old(heap).wf(),
        ensures
            final(heap).wf(),
            built(old(heap)@, t, r, final(heap)@),
    {
        let size = core::mem::size_of::<T>();
        if size == 0 {
            let mut ptr = Ptr::new(0);
            ptr.set_bit(true);
            Ok(Box { ptr, zero: Some(t) })
        } else {
            let a = heap.allocate(size);
            if a == 0 {
                return Err(Error::Alloc);
            }
            heap.write(a, t);
            let mut ptr = Ptr::new(a);
            ptr.set_bit(false);
            Ok(Box { ptr, zero: None })
        }
    }

    /// What `new` gives for the outcome `c` of a payload clone: the clone's
    /// error, with the heap as it was, or an instance built from the copy.
    pub fn from_clone(c: Result<T, Error>, heap: &mut Heap<T>) -> (r: Result<Self, Error>)
        requires
            old(heap).wf(),
        ensures
            final(heap).wf(),
            c is Err ==> r is Err && r->Err_0 == c->Err_0 && final(heap)@ == old(heap)@,
            c is Ok ==> built(old(heap)@, c->Ok_0, r, final(heap)@),
    {
        match c {
            Err(e) => Err(e),
            Ok(v) => Box::new(v, heap),
        }
    }

    /// Runs when the owner is done with this instance: a live, non-null
    /// instance destroys its value, releases its block and sets its released
    /// flag; otherwise nothing happens.
    pub fn destroy(&mut self, heap: &mut Heap<T>)
        requires
            old(heap).wf(),
            old(self).valid_in(old(heap)@),
        ensures
            final(heap).wf(),
            final(self)@ == destroyed(old(self)@),
            final(self).inline() == old(self).inline(),
            final(heap)@ == heap_after_destroy(old(self)@, old(heap)@),
    {
        if !self.ptr.get_bit() {
            let a = self.ptr.address();
            if a != 0 {
                {
                    // the value is dropped here, before its block is released
                    let _value = heap.take(a);
                }
                heap.release(a);
                self.ptr.set_bit(true);
                proof {
                    assert(heap@.cells =~= old(heap)@.released(a).cells);
                }
            }
        }
    }

    /// The address of the value.
    pub fn as_ptr(&self) -> (r: usize)
        ensures
            r == self@.addr,
    {
        self.ptr.address()
    }

    /// The address of the value, for writing through.
    pub fn as_mut_ptr(&self) -> (r: usize)
        ensures
            r == self@.addr,
    {
        self.ptr.address()
    }

    /// Reads the value.
    pub fn deref<'a>(&'a self, heap: &'a Heap<T>) -> (r: &'a T)
        requires
            self.readable_in(heap@),
        ensures
            *r == self.payload(heap@),
    {
        match &self.zero {
            Some(v) => v,
            None => heap.get(self.ptr.address()),
        }
    }

    /// Mutable access to the value; what is written through it is what a
    /// later read gives.
    pub fn deref_mut<'a>(&'a mut self, heap: &'a mut Heap<T>) -> (r: &'a mut T)
        requires
            old(heap).wf(),
            old(self).readable_in(old(heap)@),
        ensures
            *r == old(self).payload(old(heap)@),
            final(heap).wf(),
            final(self)@ == old(self)@,
            old(self).inline() is Some ==> final(self).inline() == Some(*final(r))
                && final(heap)@ == old(heap)@,
            old(self).inline() is None ==> final(self).inline() is None && final(heap)@ == old(
                heap,
            )@.written(old(self)@.addr, Some(*final(r))),
    {
        if self.zero.is_some() {
            self.zero.as_mut().unwrap()
        } else {
            heap.get_mut(self.ptr.address())
        }
    }

    /// Reads the value, as `deref` does.
    pub fn as_ref<'a>(&'a self, heap: &'a Heap<T>) -> (r: &'a T)
        requires
            self.readable_in(heap@),
        ensures
            *r == self.payload(heap@),
    {
        self.deref(heap)
    }

    /// Mutable access to the value, as `deref_mut` gives it.
    pub fn as_mut<'a>(&'a mut self, heap: &'a mut Heap<T>) -> (r: &'a mut T)
        requires
            old(heap).wf(),
            old(self).readable_in(old(heap)@),
        ensures
            *r == old(self).payload(old(heap)@),
            final(heap).wf(),
            final(self)@ == old(self)@,
            old(self).inline() is Some ==> final(self).inline() == Some(*final(r))
                && final(heap)@ == old(heap)@,
            old(self).inline() is None ==> final(self).inline() is None && final(heap)@ == old(
                heap,
            )@.written(old(self)@.addr, Some(*final(r))),
    {
        self.deref_mut(heap)
    }

    /// Sets the released flag without destroying the value: `destroy` does
    /// nothing afterwards, and the caller answers for the block.
    pub fn leak(&mut self)
        ensures
            final(self)@ == leaked(old(self)@),
            final(self).inline() == old(self).inline(),
    {
        self.ptr.set_bit(true);
    }

    /// Clears the released flag: `destroy` destroys the value again.
    pub fn unleak(&mut self)
        ensures
            final(self)@ == unleaked(old(self)@),
            final(self).inline() == old(self).inline(),
    {
        self.ptr.set_bit(false);
    }

    /// An instance with the ownership state that `ptr` encodes.
    pub fn from_raw(ptr: Ptr<T>) -> (r: Self)
        ensures
            r@ == ptr@,
            r.inline() is None,
    {
        Box { ptr, zero: None }
    }

    /// Gives up this instance, leaked, and hands out its address with the
    /// released flag clear.
    pub fn into_raw(self) -> (r: Ptr<T>)
        ensures
            r@ == raw_of(self@),
    {
        let mut this = self;
        this.leak();
        Ptr::new(this.ptr.address())
    }
}

impl<T: TryClone> Box<T> {
    /// A new instance holding a copy of this one's value, made by the
    /// value's own `try_clone`. Its error comes back as it is, and a declined
    /// allocation gives `Error::Alloc`; either way the heap is as it was. The
    /// copy lives in a block that no other instance uses.
    pub fn try_clone(&self, heap: &mut Heap<T>) -> (r: Result<Self, Error>)
        requires
            old(heap).wf(),
            self.readable_in(old(heap)@),
        ensures
            final(heap).wf(),
            !construction_succeeds(old(heap)@) ==> r is Err && r->Err_0 == Error::Alloc,
            r is Err ==> final(heap)@ == old(heap)@,
            r is Ok ==> exists|c: T| built(old(heap)@, c, r, final(heap)@),
    {
        let c = self.deref(heap).try_clone();
        Box::from_clone(c, heap)
    }
}

} // verus!
