use vstd::prelude::*;

verus! {

/// Most blocks a heap hands out; keeps every address within `usize`.
pub const MAX_BLOCKS: usize = usize::MAX / 4;

/// The abstract state of a heap.
///
/// `cells` maps the address of each allocated, not yet released block to
/// its content (`None` while the block is uninitialised). Space is taken
/// from a fixed budget of `capacity` bytes and is not reused after a
/// release; addresses are never reused either.
pub struct HeapView<T> {
    pub cells: Map<usize, Option<T>>,
    pub capacity: nat,
    pub used: nat,
    pub allocations: nat,
    pub releases: nat,
}

impl<T> HeapView<T> {
    /// Whether a request for `size` bytes is granted.
    pub open spec fn can_allocate(self, size: nat) -> bool {
        self.used + size <= self.capacity && self.allocations < MAX_BLOCKS
    }

    /// The address that the next granted request receives.
    pub open spec fn next_address(self) -> usize {
        (2 * self.allocations + 2) as usize
    }

    /// The state after a granted request for `size` bytes.
    pub open spec fn allocated(self, size: nat) -> HeapView<T> {
        HeapView {
            cells: self.cells.insert(self.next_address(), None),
            used: self.used + size,
            allocations: self.allocations + 1,
            ..self
        }
    }

    /// The state after the block at `a` is released.
    pub open spec fn released(self, a: usize) -> HeapView<T> {
        HeapView { cells: self.cells.remove(a), releases: self.releases + 1, ..self }
    }

    /// The state after `v` is placed in the block at `a`.
    pub open spec fn written(self, a: usize, v: Option<T>) -> HeapView<T> {
        HeapView { cells: self.cells.insert(a, v), ..self }
    }

    /// Whether the block at `a` is allocated and holds a value.
    pub open spec fn holds_value(self, a: usize) -> bool {
        self.cells.contains_key(a) && self.cells[a] is Some
    }

    /// The value held at `a`.
    pub open spec fn value_at(self, a: usize) -> T {
        self.cells[a]->Some_0
    }
}

struct Block<T> {
    size: usize,
    live: bool,
    value: Option<T>,
}

/// An allocator with a fixed byte budget, holding values of type `T`.
pub struct Heap<T> {
    blocks: Vec<Block<T>>,
    capacity: usize,
    used: usize,
    releases: usize,
}

spec fn index_of(a: usize) -> int {
    a as int / 2 - 1
}

spec fn is_block_address(a: usize, len: nat) -> bool {
    a % 2 == 0 && a >= 2 && index_of(a) < len
}

spec fn cells_of<T>(s: Seq<Block<T>>) -> Map<usize, Option<T>> {
    Map::new(
        |a: usize| is_block_address(a, s.len()) && s[index_of(a)].live,
        |a: usize| s[index_of(a)].value,
    )
}

spec fn freed<T>(b: Block<T>) -> nat {
    if b.live {
        0
    } else {
        1
    }
}

spec fn count_freed<T>(s: Seq<Block<T>>) -> nat
    decreases s.len(),
{
    if s.len() == 0 {
        0
    } else {
        count_freed(s.drop_last()) + freed(s.last())
    }
}

proof fn lemma_count_freed_bound<T>(s: Seq<Block<T>>)
    ensures
        count_freed(s) <= s.len(),
    decreases s.len(),
{
    if s.len() > 0 {
        lemma_count_freed_bound(s.drop_last());
    }
}

proof fn lemma_count_freed_push<T>(s: Seq<Block<T>>, b: Block<T>)
    ensures
        count_freed(s.push(b)) == count_freed(s) + freed(b),
{
    assert(s.push(b).drop_last() =~= s);
}

proof fn lemma_count_freed_update<T>(s: Seq<Block<T>>, i: int, b: Block<T>)
    requires
        0 <= i < s.len(),
    ensures
        count_freed(s.update(i, b)) + freed(s[i]) == count_freed(s) + freed(b),
    decreases s.len(),
{
    let t = s.update(i, b);
    if i == s.len() - 1 {
        assert(t.drop_last() =~= s.drop_last());
    } else {
        assert(t.drop_last() =~= s.drop_last().update(i, b));
        lemma_count_freed_update(s.drop_last(), i, b);
    }
}

impl<T> Heap<T> {
    pub closed spec fn view(&self) -> HeapView<T> {
        HeapView {
            cells: cells_of(self.blocks@),
            capacity: self.capacity as nat,
            used: self.used as nat,
            allocations: self.blocks@.len(),
            releases: self.releases as nat,
        }
    }

    /// The heap's internal invariant.
    pub closed spec fn wf(&self) -> bool {
        &&& self.used <= self.capacity
        &&& self.blocks@.len() <= MAX_BLOCKS
        &&& self.releases as nat == count_freed(self.blocks@)
    }

    /// An empty heap that grants requests until `capacity` bytes are used.
    pub fn new(capacity: usize) -> (r: Self)
        ensures
            r.wf(),
            r@.cells.is_empty(),
            r@.capacity == capacity,
            r@.used == 0,
            r@.allocations == 0,
            r@.releases == 0,
    {
        let r = Heap { blocks: Vec::new(), capacity, used: 0, releases: 0 };
        assert(r@.cells =~= Map::empty());
        r
    }

    /// The byte budget.
    pub fn capacity(&self) -> (r: usize)
        ensures
            r == self@.capacity,
    {
        self.capacity
    }

    /// Bytes handed out so far.
    pub fn used(&self) -> (r: usize)
        ensures
            r == self@.used,
    {
        self.used
    }

    /// Every allocated block lies below the address of the next request, so
    /// a granted request never hands out an address in use.
    pub proof fn lemma_next_address_fresh(&self)
        requires
            self.wf(),
        ensures
            forall|a: usize| #[trigger] self@.cells.contains_key(a) ==> a < self@.next_address(),
    {
    }

    /// Number of requests granted so far.
    pub fn allocations(&self) -> (r: usize)
        ensures
            r == self@.allocations,
    {
        self.blocks.len()
    }

    /// Number of blocks released so far.
    pub fn releases(&self) -> (r: usize)
        ensures
            r == self@.releases,
    {
        self.releases
    }

    /// Number of blocks allocated and not yet released.
    pub fn live_blocks(&self) -> (r: usize)
        requires
            self.wf(),
        ensures
            r == self@.allocations - self@.releases,
    {
        proof {
            lemma_count_freed_bound(self.blocks@);
        }
        self.blocks.len() - self.releases
    }

    /// Requests `size` bytes; returns the block's address, or 0 (null) when
    /// the request is declined.
    pub(crate) fn allocate(&mut self, size: usize) -> (a: usize)
        requires
            old(self).wf(),
        ensures
            final(self).wf(),
            old(self)@.can_allocate(size as nat) ==> a == old(self)@.next_address()
                && !old(self)@.cells.contains_key(a) && final(self)@ == old(self)@.allocated(
                size as nat,
            ),
            !old(self)@.can_allocate(size as nat) ==> a == 0 && final(self)@ == old(self)@,
    {
        let len = self.blocks.len();
        if len >= MAX_BLOCKS || size > self.capacity - self.used {
            return 0;
        }
        let a: usize = 2 * len + 2;
        let ghost old_view = self@;
        self.blocks.push(Block { size, live: true, value: None });
        self.used = self.used + size;
        proof {
            lemma_count_freed_push(old(self).blocks@, Block { size, live: true, value: None });
            assert forall|x: usize| is_block_address(x, (len + 1) as nat) && x != a implies
                is_block_address(x, len as nat) by {}
            assert(self@.cells =~= old_view.cells.insert(a, None));
        }
        a
    }

    /// Places `v` in the allocated block at `a`.
    pub(crate) fn write(&mut self, a: usize, v: T)
        requires
            old(self).wf(),
            old(self)@.cells.contains_key(a),
        ensures
            final(self).wf(),
            final(self)@ == old(self)@.written(a, Some(v)),
    {
        let i: usize = a / 2 - 1;
        let ghost old_view = self@;
        let b = &mut self.blocks[i];
        b.value = Some(v);
        proof {
            lemma_count_freed_update(old(self).blocks@, i as int, self.blocks@[i as int]);
            assert(self@.cells =~= old_view.cells.insert(a, Some(v)));
        }
    }

    /// Moves the value out of the block at `a`, leaving it uninitialised.
    pub(crate) fn take(&mut self, a: usize) -> (r: T)
        requires
            old(self).wf(),
            old(self)@.holds_value(a),
        ensures
            final(self).wf(),
            r == old(self)@.value_at(a),
            final(self)@ == old(self)@.written(a, None),
    {
        let i: usize = a / 2 - 1;
        let ghost old_view = self@;
        let b = &mut self.blocks[i];
        let r = b.value.take().unwrap();
        proof {
            lemma_count_freed_update(old(self).blocks@, i as int, self.blocks@[i as int]);
            assert(self@.cells =~= old_view.cells.insert(a, None));
        }
        r
    }

    /// The value held at `a`.
    pub(crate) fn get(&self, a: usize) -> (r: &T)
        requires
            self@.holds_value(a),
        ensures
            *r == self@.value_at(a),
    {
        let i: usize = a / 2 - 1;
        self.blocks[i].value.as_ref().unwrap()
    }

    /// Mutable access to the value held at `a`.
    pub(crate) fn get_mut(&mut self, a: usize) -> (r: &mut T)
        requires
            old(self).wf(),
            old(self)@.holds_value(a),
        ensures
            *r == old(self)@.value_at(a),
            final(self).wf(),
            final(self)@ == old(self)@.written(a, Some(*final(r))),
    {
        let i: usize = a / 2 - 1;
        let ghost blocks = self.blocks@;
        proof {
            assert forall|nb: Block<T>| nb.live == blocks[i as int].live implies
                count_freed(#[trigger] blocks.update(i as int, nb)) == count_freed(blocks)
                && cells_of(blocks.update(i as int, nb)) =~= cells_of(blocks).insert(a, nb.value) by {
                lemma_count_freed_update(blocks, i as int, nb);
            }
        }
        let b = &mut self.blocks[i];
        b.value.as_mut().unwrap()
    }

    /// Releases the allocated block at `a`, whose value is already gone.
    pub(crate) fn release(&mut self, a: usize)
        requires
            old(self).wf(),
            old(self)@.cells.contains_key(a),
            old(self)@.cells[a] is None,
        ensures
            final(self).wf(),
            final(self)@ == old(self)@.released(a),
    {
        let i: usize = a / 2 - 1;
        let ghost old_view = self@;
        let b = &mut self.blocks[i];
        b.live = false;
        proof {
            lemma_count_freed_update(old(self).blocks@, i as int, self.blocks@[i as int]);
            lemma_count_freed_bound(self.blocks@);
        }
        self.releases = self.releases + 1;
        proof {
            assert(self@.cells =~= old_view.cells.remove(a));
        }
    }
}

} // verus!
