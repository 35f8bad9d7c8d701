//! The memoization cell the emitted accessors rely on.
//!
//! A cell has two states, `Empty` and `Populated(value)`.  It is created
//! `Empty` with its containing structure, cleared by `invalidate` (called
//! from the emitted setters), and filled at most once between
//! invalidations by `get_or_init` (called from the emitted computed
//! accessors).  The cell is owned by one structure instance; `get_or_init`
//! asks for exclusive access instead of relying on interior mutability.

use vstd::prelude::*;

verus! {

/// Two-state storage for one computed field.
pub enum MemoCell<V> {
    /// No cached value; the next `get_or_init` computes one.
    Empty,
    /// A cached value, returned as is until the next `invalidate`.
    Populated(V),
}

/// The state of a cell after `get_or_init` on `c` whose computation,
/// if it ran, produced `v`: a populated cell is left unchanged, an empty
/// one is filled with `v`.
pub open spec fn cell_after_init<V>(c: MemoCell<V>, v: V) -> MemoCell<V> {
    if c is Populated {
        c
    } else {
        MemoCell::Populated(v)
    }
}

/// The value `get_or_init` returns on `c` whose computation, if it ran,
/// produced `v`: the cached value of a populated cell, else `v`.
pub open spec fn cached_value<V>(c: MemoCell<V>, v: V) -> V {
    if c is Populated {
        c->Populated_0
    } else {
        v
    }
}

impl<V> MemoCell<V> {
    /// A fresh cell, as created at structure construction.
    pub fn new() -> (r: Self)
        ensures
            r is Empty,
    {
        MemoCell::Empty
    }

    /// Whether the cell currently holds a cached value.
    pub fn is_populated(&self) -> (r: bool)
        ensures
            r == (self is Populated),
    {
        match self {
            MemoCell::Populated(_) => true,
            MemoCell::Empty => false,
        }
    }

    /// The cached value of a populated cell.
    pub fn get(&self) -> (r: &V)
        requires
            self is Populated,
        ensures
            *r == self->Populated_0,
    {
        match self {
            MemoCell::Populated(v) => v,
            MemoCell::Empty => vstd::pervasive::unreached(),
        }
    }

    /// Clear any cached value.  The cell is left `Empty` whatever its
    /// prior state was; on an `Empty` cell this is a no-op.
    pub fn invalidate(&mut self)
        ensures
            *final(self) is Empty,
    {
        *self = MemoCell::Empty;
    }

    /// Return the cached value, or compute, store and return one.
    ///
    /// A populated cell is read without running `compute`; an empty cell
    /// runs `compute` exactly once and caches its result.
    pub fn get_or_init<F: FnOnce() -> V>(&mut self, compute: F) -> (r: &V)
        requires
            call_requires(compute, ()),
        ensures
            *final(self) == cell_after_init(*old(self), *r),
            *r == cached_value(*old(self), *r),
            *old(self) is Empty ==> call_ensures(compute, (), *r),
    {
        match self {
            MemoCell::Populated(_) => {},
            MemoCell::Empty => {
                let v = compute();
                *self = MemoCell::Populated(v);
            },
        }
        match self {
            MemoCell::Populated(v) => v,
            MemoCell::Empty => vstd::pervasive::unreached(),
        }
    }
}

/// A cached value is stable: after one `get_or_init` the cell is
/// populated, and a second `get_or_init` returns the same value and
/// leaves the cell unchanged, whatever value `v2` a second computation
/// would have produced — so between invalidations the computing function
/// affects the result at most once.
pub proof fn lemma_cached_value_stable<V>(c: MemoCell<V>, v1: V, v2: V)
    ensures
        cell_after_init(c, v1) is Populated,
        cell_after_init(cell_after_init(c, v1), v2) == cell_after_init(c, v1),
        cached_value(cell_after_init(c, v1), v2) == cached_value(c, v1),
{
}

} // verus!
