use std::marker::PhantomData;
use vstd::prelude::*;

use crate::cell::StaticCell;

verus! {

/// Binds a guarded type to the type of value its cell holds, and performs the
/// one initialization of that cell.
pub trait StaticInit: Sized {
    /// The type of the value guarded for `Self`.
    type Item;

    /// Writes `value` into the empty cell `holder` and returns the token that
    /// proves the write. The cell then stays borrowed, read-only, for as long
    /// as any copy of the token lives.
    fn init<'a>(holder: &'a mut StaticCell<Self::Item>, value: Self::Item) -> (r: Inited<'a, Self, Self::Item>)
        requires
            !old(holder).is_set(),
        ensures
            final(holder)@ == Some(value),
            r.cell() == *final(holder),
            r@ == value,
    {
        holder.set(value);
        Inited::mint(holder)
    }
}

/// Evidence that the cell guarded for `B`, which holds a `T`, has been
/// written. It can be copied freely, and every copy reads the cell without a
/// check. Only [`StaticInit::init`] makes one.
#[derive(Debug)]
pub struct Inited<'a, B, T> {
    cell: &'a StaticCell<T>,
    marker: PhantomData<B>,
}

impl<'a, B, T> View for Inited<'a, B, T> {
    type V = T;

    /// The value in the cell this token vouches for.
    open spec fn view(&self) -> T {
        self.cell().value()
    }
}

impl<'a, B, T> Inited<'a, B, T> {
    /// The cell this token vouches for.
    pub closed spec fn cell(&self) -> StaticCell<T> {
        *self.cell
    }

    /// A token never exists for a cell that has not been written.
    #[verifier::type_invariant]
    spec fn vouches(&self) -> bool {
        self.cell.is_set()
    }

    fn mint(cell: &'a StaticCell<T>) -> (r: Self)
        requires
            cell.is_set(),
        ensures
            r.cell() == *cell,
    {
        Inited { cell, marker: PhantomData }
    }

    /// Reads the guarded value. No precondition: holding the token is enough.
    pub fn get(&self) -> (r: &'a T)
        ensures
            *r == self@,
    {
        proof {
            use_type_invariant(self);
        }
        self.cell.get()
    }

    /// The written cell behind this token.
    pub fn holder(&self) -> (r: &'a StaticCell<T>)
        ensures
            *r == self.cell(),
            r.is_set(),
    {
        proof {
            use_type_invariant(self);
        }
        self.cell
    }
}

impl<'a, B, T> Clone for Inited<'a, B, T> {
    fn clone(&self) -> (r: Self)
        ensures
            r == *self,
    {
        *self
    }
}

impl<'a, B, T> Copy for Inited<'a, B, T> {
}

/// Every token for a cell that was initialized with `value`, whether it is
/// the one `init` returned or a copy of it, reads `value`, and two such tokens
/// read the very same cell.
pub proof fn lemma_tokens_read_the_stored_value<'a, B, T>(
    p: Inited<'a, B, T>,
    q: Inited<'a, B, T>,
    value: T,
)
    requires
        p.cell()@ == Some(value),
        q.cell() == p.cell(),
    ensures
        p@ == value,
        q@ == value,
        p@ == q@,
{
}

/// A cell in the state that `init` leaves it in no longer meets the
/// precondition of `init`: the same cell cannot be initialized twice.
pub proof fn lemma_initialized_cell_refuses_init<T>(holder: StaticCell<T>, value: T)
    requires
        holder@ == Some(value),
    ensures
        holder.is_set(),
{
}

} // verus!
