use vstd::prelude::*;
use ic_stable_structures::DefaultMemoryImpl;
use ic_stable_structures::StableCell;

verus! {

/// The durable counter cell: an `ic_stable_structures` cell holding a single
/// `u64` in a stable memory region, opaque to the verifier. The value it
/// holds is named by `cell_value`, and the wrappers below state what the
/// cell's operations do to that value.
#[verifier::external_body]
pub struct StableCounter {
    cell: StableCell<u64, DefaultMemoryImpl>,
}

/// The counter value the durable cell holds.
pub uninterp spec fn cell_value(c: StableCounter) -> u64;

/// Relies on `ic_stable_structures::Cell::init` over the memory from
/// `DefaultMemoryImpl::default()`: on a memory that holds no cell yet it
/// stores and holds the given default, but on a durable memory that already
/// holds a cell — stable memory after a restart — it holds the previously
/// persisted value instead, and it panics on an incompatible cell layout.
/// Nothing is therefore promised of the value the returned cell holds.
#[verifier::external_body]
fn new_counter_cell(default: u64) -> StableCounter {
    StableCounter { cell: StableCell::init(DefaultMemoryImpl::default(), default) }
}

/// Relies on `ic_stable_structures::Cell::get`: returns the value the cell
/// holds.
#[verifier::external_body]
fn counter_cell_get(c: &StableCounter) -> (v: u64)
    ensures
        v == cell_value(*c),
{
    *c.cell.get()
}

/// Relies on `ic_stable_structures::Cell::set`: stores the given value in the
/// cell and returns the previous one. An 8-byte value always fits in the
/// cell's memory, so the write succeeds.
#[verifier::external_body]
fn counter_cell_set(c: &mut StableCounter, v: u64) -> (prev: u64)
    ensures
        cell_value(*final(c)) == v,
        prev == cell_value(*old(c)),
{
    c.cell.set(v)
}

/// Issues record identifiers: a monotonically increasing counter kept in a
/// durable cell. `next` returns the counter's current value and stores its
/// successor, so no value is ever issued twice — also across restarts, since
/// a durable memory hands the persisted counter back to the next lifetime.
pub struct IdAllocator {
    cell: StableCounter,
}

impl IdAllocator {
    /// The identifier the allocator will issue next.
    pub closed spec fn value(self) -> u64 {
        cell_value(self.cell)
    }

    /// An allocator over the durable counter cell. It continues from whatever
    /// value the cell's memory holds: 0 on a fresh memory, the persisted
    /// counter after a restart. No contract fixes that value; callers see it
    /// through `peek` and `next`.
    pub fn new() -> Self {
        IdAllocator { cell: new_counter_cell(0) }
    }

    /// The identifier the next call of `next` will issue, without issuing it.
    pub fn peek(&self) -> (v: u64)
        ensures
            v == self.value(),
    {
        counter_cell_get(&self.cell)
    }

    /// Issues the next identifier: returns the current counter value and
    /// stores its successor in the durable cell.
    pub fn next(&mut self) -> (id: u64)
        requires
            old(self).value() < u64::MAX,
        ensures
            id == old(self).value(),
            final(self).value() == old(self).value() + 1,
    {
        let current = counter_cell_get(&self.cell);
        let _prev = counter_cell_set(&mut self.cell, current + 1);
        current
    }
}

} // verus!
