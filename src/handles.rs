//! Values handed through a boundary that can only carry a machine word, such
//! as an instance variable of a foreign object. The table keeps each value
//! alive and the word is its index, so no address has to outlive its value.
use vstd::prelude::*;
use std::rc::Rc;

verus! {

/// Values kept for a foreign side, each known there by its index.
pub struct HandleTable<T> {
    pub items: Vec<T>,
}

impl<T> HandleTable<T> {
    /// An empty table.
    pub fn new() -> (r: HandleTable<T>)
        ensures
            r.items@.len() == 0,
    {
        HandleTable { items: Vec::new() }
    }

    /// Number of values kept.
    pub fn len(&self) -> (r: usize)
        ensures
            r == self.items@.len(),
    {
        self.items.len()
    }
}

/// Keeps `value` in `table` and returns the word that stands for it.
pub fn pack_ptr<T>(table: &mut HandleTable<T>, value: T) -> (r: usize)
    requires
        old(table).items@.len() < usize::MAX,
    ensures
        r == old(table).items@.len(),
        final(table).items@ == old(table).items@.push(value),
{
    let r = table.items.len();
    table.items.push(value);
    r
}

/// Keeps a second owner of `rc` in `table` and returns the word that stands
/// for it; the shared value lives at least as long as the table.
pub fn pack_ptr_from_rc<T>(table: &mut HandleTable<Rc<T>>, rc: &Rc<T>) -> (r: usize)
    requires
        old(table).items@.len() < usize::MAX,
    ensures
        r == old(table).items@.len(),
        final(table).items@.len() == old(table).items@.len() + 1,
        final(table).items@.take(r as int) == old(table).items@,
        *final(table).items@[r as int] == **rc,
{
    let owner = Rc::clone(rc);
    pack_ptr(table, owner)
}

/// The value that `handle` stands for, if `table` holds one.
pub fn unpack_ptr<T>(table: &HandleTable<T>, handle: usize) -> (r: Option<&T>)
    ensures
        handle < table.items@.len() ==> r == Some(&table.items@[handle as int]),
        handle >= table.items@.len() ==> r is None,
{
    if handle < table.items.len() {
        Some(&table.items[handle])
    } else {
        None
    }
}

} // verus!
