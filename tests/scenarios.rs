use owning_box::{Box, Error, Heap, Ptr, TryClone};

#[derive(Debug, PartialEq)]
struct Cell(i32);

impl TryClone for Cell {
    fn try_clone(&self) -> Result<Self, Error> {
        Ok(Cell(self.0))
    }
}

#[derive(Debug, PartialEq)]
struct Unclonable(i32);

impl TryClone for Unclonable {
    fn try_clone(&self) -> Result<Self, Error> {
        Err(Error::Alloc)
    }
}

#[derive(Debug, PartialEq)]
struct Marker;

impl TryClone for Marker {
    fn try_clone(&self) -> Result<Self, Error> {
        Ok(Marker)
    }
}

#[test]
fn new_value_reads_back_and_releases_once() {
    let mut heap: Heap<i32> = Heap::new(1024);
    let mut b = Box::new(42i32, &mut heap).unwrap();
    assert_eq!(*b.deref(&heap), 42);
    assert_eq!(heap.allocations(), 1);
    assert_eq!(heap.used(), 4);
    b.destroy(&mut heap);
    assert_eq!(heap.releases(), 1);
    assert_eq!(heap.live_blocks(), 0);
}

#[test]
fn zero_size_value_takes_no_block() {
    // a heap that declines every request: a zero-size value needs none
    let mut heap: Heap<()> = Heap::new(0);
    let mut b = Box::new((), &mut heap).unwrap();
    assert_eq!(b.as_ptr(), 0);
    assert_eq!(heap.allocations(), 0);
    b.destroy(&mut heap);
    assert_eq!(heap.releases(), 0);
    assert_eq!(heap.used(), 0);
}

#[test]
fn declined_request_gives_alloc_error() {
    let mut heap: Heap<i32> = Heap::new(0);
    let r = Box::new(42i32, &mut heap);
    assert!(matches!(r, Err(Error::Alloc)));
    assert_eq!(heap.allocations(), 0);
    assert_eq!(heap.releases(), 0);
    assert_eq!(heap.used(), 0);
}

#[test]
fn leaked_value_survives_and_is_released_after_unleak() {
    let mut heap: Heap<i32> = Heap::new(1024);
    let mut b = Box::new(42i32, &mut heap).unwrap();
    let addr = b.as_ptr();
    b.leak();
    b.destroy(&mut heap);
    drop(b);
    assert_eq!(heap.releases(), 0);
    assert_eq!(heap.live_blocks(), 1);

    let mut c = Box::from_raw(Ptr::new(addr));
    c.unleak();
    assert_eq!(*c.deref(&heap), 42);
    c.destroy(&mut heap);
    assert_eq!(heap.releases(), 1);
    assert_eq!(heap.live_blocks(), 0);
}

#[test]
fn second_destroy_does_nothing() {
    let mut heap: Heap<u64> = Heap::new(1024);
    let mut b = Box::new(5u64, &mut heap).unwrap();
    b.destroy(&mut heap);
    b.destroy(&mut heap);
    assert_eq!(heap.releases(), 1);
    assert_eq!(heap.allocations(), 1);
}

#[test]
fn raw_round_trip_keeps_address_and_value() {
    let mut heap: Heap<i32> = Heap::new(1024);
    let b = Box::new(-9i32, &mut heap).unwrap();
    let addr = b.as_ptr();
    let p = b.into_raw();
    assert_eq!(p.address(), addr);
    assert!(!p.get_bit());
    let mut c = Box::from_raw(p);
    assert_eq!(c.as_ptr(), addr);
    assert_eq!(*c.deref(&heap), -9);
    c.destroy(&mut heap);
    assert_eq!(heap.releases(), 1);
}

#[test]
fn leak_then_unleak_restores_destruction() {
    let mut heap: Heap<i32> = Heap::new(1024);
    let mut b = Box::new(1i32, &mut heap).unwrap();
    b.leak();
    b.unleak();
    b.destroy(&mut heap);
    assert_eq!(heap.releases(), 1);
    b.destroy(&mut heap);
    assert_eq!(heap.releases(), 1);
}

#[test]
fn write_through_mutable_access_is_read_back() {
    let mut heap: Heap<i32> = Heap::new(1024);
    let mut b = Box::new(42i32, &mut heap).unwrap();
    *b.deref_mut(&mut heap) = 7;
    assert_eq!(*b.deref(&heap), 7);
    *b.as_mut(&mut heap) += 1;
    assert_eq!(*b.as_ref(&heap), 8);
}

#[test]
fn budget_runs_out() {
    let mut heap: Heap<i32> = Heap::new(6);
    let b = Box::new(1i32, &mut heap).unwrap();
    assert_eq!(b.as_ptr(), 2);
    assert!(matches!(Box::new(2i32, &mut heap), Err(Error::Alloc)));
    assert_eq!(heap.used(), 4);
    assert_eq!(heap.capacity(), 6);
}

#[test]
fn addresses_are_distinct_and_aligned() {
    let mut heap: Heap<i32> = Heap::new(1024);
    let a = Box::new(1i32, &mut heap).unwrap();
    let b = Box::new(2i32, &mut heap).unwrap();
    assert_eq!(a.as_ptr(), 2);
    assert_eq!(b.as_mut_ptr(), 4);
    assert_eq!(*a.deref(&heap), 1);
    assert_eq!(*b.deref(&heap), 2);
}

#[test]
fn clone_is_a_separate_value() {
    let mut heap: Heap<Cell> = Heap::new(1024);
    let a = Box::new(Cell(3), &mut heap).unwrap();
    let mut c = a.try_clone(&mut heap).unwrap();
    assert_ne!(a.as_ptr(), c.as_ptr());
    assert_eq!(*c.deref(&heap), Cell(3));
    *c.deref_mut(&mut heap) = Cell(10);
    assert_eq!(*a.deref(&heap), Cell(3));
    assert_eq!(*c.deref(&heap), Cell(10));
    assert_eq!(heap.allocations(), 2);
}

#[test]
fn clone_fails_when_budget_is_spent() {
    let mut heap: Heap<Cell> = Heap::new(4);
    let a = Box::new(Cell(3), &mut heap).unwrap();
    assert!(matches!(a.try_clone(&mut heap), Err(Error::Alloc)));
    assert_eq!(heap.allocations(), 1);
    assert_eq!(heap.used(), 4);
}

#[test]
fn clone_error_of_the_value_is_passed_on() {
    let mut heap: Heap<Unclonable> = Heap::new(1024);
    let a = Box::new(Unclonable(1), &mut heap).unwrap();
    assert!(matches!(a.try_clone(&mut heap), Err(Error::Alloc)));
    assert_eq!(heap.allocations(), 1);
    assert_eq!(heap.used(), 4);
    assert_eq!(*a.deref(&heap), Unclonable(1));
}

#[test]
fn from_clone_passes_error_on_and_builds_from_copy() {
    let mut heap: Heap<i32> = Heap::new(1024);
    assert!(matches!(Box::from_clone(Err(Error::Alloc), &mut heap), Err(Error::Alloc)));
    assert_eq!(heap.allocations(), 0);
    let b = Box::from_clone(Ok(5i32), &mut heap).unwrap();
    assert_eq!(*b.deref(&heap), 5);
    assert_eq!(heap.allocations(), 1);
}

#[test]
fn zero_size_value_reads_and_clones_without_blocks() {
    let mut heap: Heap<Marker> = Heap::new(0);
    let mut b = Box::new(Marker, &mut heap).unwrap();
    assert_eq!(*b.deref(&heap), Marker);
    *b.deref_mut(&mut heap) = Marker;
    assert_eq!(*b.as_ref(&heap), Marker);
    let c = b.try_clone(&mut heap).unwrap();
    assert_eq!(*c.deref(&heap), Marker);
    assert_eq!(c.as_ptr(), 0);
    assert_eq!(heap.allocations(), 0);
}

#[test]
fn tagged_pointer_keeps_address_across_flag_changes() {
    let mut p: Ptr<i32> = Ptr::new(8);
    assert_eq!(p.address(), 8);
    assert!(!p.get_bit());
    p.set_bit(true);
    assert_eq!(p.address(), 8);
    assert!(p.get_bit());
    p.set_bit(false);
    assert_eq!(p.address(), 8);
    assert!(!p.get_bit());
}
