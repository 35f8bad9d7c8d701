//! The accessor pattern the generator emits, written out once and
//! verified.
//!
//! [`Example`] is a structure with two plain source fields, `items` and
//! `discount`, each of which would be declared `get, set,
//! invalidates(sum)`, and one computed field `sum`, backed by a
//! memoization cell and computed from both source fields.  Its accessors
//! are exactly the emitted shape, and their contracts state the
//! observable behaviour the emitted code promises: a read accessor
//! returns the field's current value; a write accessor leaves the target
//! cell `Empty` whatever its prior state was, before the field is
//! overwritten; the computed accessor returns the cached value, or runs
//! the computing function once on the current source fields.

use vstd::prelude::*;

use crate::cell::{MemoCell, cached_value, cell_after_init};

verus! {

/// One accessor operation on an [`Example`], at the specification
/// level.  A computation is represented by the value the computing
/// function would produce.
pub enum ExampleOp<V> {
    /// `set_items(v)`.
    SetItems(Vec<V>),
    /// `set_discount(d)`.
    SetDiscount(V),
    /// `compute_sum(func)` whose computation, if it ran, produced the
    /// value.
    Compute(V),
}

/// The state of an [`Example`] after one operation, as the accessors'
/// contracts describe it: a write replaces its field and empties the
/// cell, a computation fills an empty cell and touches nothing else.
pub open spec fn apply_op<V>(s: Example<V>, op: ExampleOp<V>) -> Example<V> {
    match op {
        ExampleOp::SetItems(v) => Example { items: v, discount: s.discount, sum: MemoCell::Empty },
        ExampleOp::SetDiscount(d) => Example {
            items: s.items,
            discount: d,
            sum: MemoCell::Empty,
        },
        ExampleOp::Compute(v) => Example {
            items: s.items,
            discount: s.discount,
            sum: cell_after_init(s.sum, v),
        },
    }
}

/// The state after a sequence of operations.
pub open spec fn apply_ops<V>(s: Example<V>, ops: Seq<ExampleOp<V>>) -> Example<V>
    decreases ops.len(),
{
    if ops.len() == 0 {
        s
    } else {
        apply_op(apply_ops(s, ops.drop_last()), ops.last())
    }
}

/// The most recently assigned `items` value in a sequence of
/// operations, or the initial one when nothing assigned it.
pub open spec fn last_items<V>(init: Vec<V>, ops: Seq<ExampleOp<V>>) -> Vec<V>
    decreases ops.len(),
{
    if ops.len() == 0 {
        init
    } else {
        match ops.last() {
            ExampleOp::SetItems(v) => v,
            _ => last_items(init, ops.drop_last()),
        }
    }
}

/// The most recently assigned `discount` value in a sequence of
/// operations, or the initial one when nothing assigned it.
pub open spec fn last_discount<V>(init: V, ops: Seq<ExampleOp<V>>) -> V
    decreases ops.len(),
{
    if ops.len() == 0 {
        init
    } else {
        match ops.last() {
            ExampleOp::SetDiscount(d) => d,
            _ => last_discount(init, ops.drop_last()),
        }
    }
}

/// After any sequence of operations, each source field holds — and its
/// read accessor therefore returns — the most recently assigned value.
pub proof fn lemma_get_returns_last_write<V>(s: Example<V>, ops: Seq<ExampleOp<V>>)
    ensures
        apply_ops(s, ops).items == last_items(s.items, ops),
        apply_ops(s, ops).discount == last_discount(s.discount, ops),
    decreases ops.len(),
{
    if ops.len() > 0 {
        lemma_get_returns_last_write(s, ops.drop_last());
    }
}

/// A write to either source field leaves the cell `Empty` whatever the
/// prior sequence of operations did to it.
pub proof fn lemma_write_empties_cell<V>(s: Example<V>, ops: Seq<ExampleOp<V>>)
    requires
        ops.len() > 0,
        ops.last() is SetItems || ops.last() is SetDiscount,
    ensures
        apply_ops(s, ops).sum is Empty,
{
}

/// A structure wired the way the generator wires one: two sources, one
/// cached derived value.
pub struct Example<V> {
    /// A source field; writes to it invalidate `sum`.
    pub items: Vec<V>,
    /// A second source field; writes to it invalidate `sum` too.
    pub discount: V,
    /// The derived field's memoization cell.
    pub sum: MemoCell<V>,
}

impl<V> Example<V> {
    /// Construct with the given sources and an empty cell, as the
    /// generated structure is constructed.
    pub fn new(items: Vec<V>, discount: V) -> (r: Self)
        ensures
            r.items == items,
            r.discount == discount,
            r.sum is Empty,
    {
        Example { items, discount, sum: MemoCell::new() }
    }

    /// The emitted read accessor: the field's current value, no side
    /// effect.
    pub fn get_items(&self) -> (r: &Vec<V>)
        ensures
            *r == self.items,
    {
        &self.items
    }

    /// The emitted read accessor: the field's current value, no side
    /// effect.
    pub fn get_discount(&self) -> (r: &V)
        ensures
            *r == self.discount,
    {
        &self.discount
    }

    /// The emitted write accessor: invalidate the target cell first,
    /// unconditionally, then overwrite the field.
    pub fn set_items(&mut self, items: Vec<V>)
        ensures
            final(self).items == items,
            final(self).discount == old(self).discount,
            final(self).sum is Empty,
            *final(self) == apply_op(*old(self), ExampleOp::SetItems(items)),
    {
        self.sum.invalidate();
        self.items = items;
    }

    /// The emitted write accessor: invalidate the target cell first,
    /// unconditionally, then overwrite the field.
    pub fn set_discount(&mut self, discount: V)
        ensures
            final(self).items == old(self).items,
            final(self).discount == discount,
            final(self).sum is Empty,
            *final(self) == apply_op(*old(self), ExampleOp::SetDiscount(discount)),
    {
        self.sum.invalidate();
        self.discount = discount;
    }

    /// The emitted computed accessor: the cached value if the cell is
    /// populated, else the computing function's result on the current
    /// source fields, cached from now on.  The computing function is the
    /// caller's own and runs at most once per call.
    pub fn compute_sum<F: FnOnce(&Vec<V>, &V) -> V>(&mut self, func: F) -> (r: &V)
        requires
            call_requires(func, (&old(self).items, &old(self).discount)),
        ensures
            final(self).items == old(self).items,
            final(self).discount == old(self).discount,
            final(self).sum == cell_after_init(old(self).sum, *r),
            *r == cached_value(old(self).sum, *r),
            old(self).sum is Empty ==> call_ensures(
                func,
                (&old(self).items, &old(self).discount),
                *r,
            ),
            *final(self) == apply_op(*old(self), ExampleOp::Compute(*r)),
    {
        let items = &self.items;
        let discount = &self.discount;
        let run = || -> (v: V)
            ensures
                call_ensures(func, (items, discount), v),
            {
                func(items, discount)
            };
        self.sum.get_or_init(run)
    }
}

} // verus!
