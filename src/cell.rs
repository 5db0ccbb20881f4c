use vstd::prelude::*;

verus! {

/// Storage for one value of type `T`, empty until it is written once.
#[derive(Debug)]
pub struct StaticCell<T> {
    value: Option<T>,
}

impl<T> View for StaticCell<T> {
    type V = Option<T>;

    /// `None` while the cell is empty, `Some(v)` once `v` was written.
    closed spec fn view(&self) -> Option<T> {
        self.value
    }
}

impl<T> StaticCell<T> {
    /// Whether a value has been written into the cell.
    pub open spec fn is_set(&self) -> bool {
        self@ is Some
    }

    /// The value held by a written cell.
    pub open spec fn value(&self) -> T
        recommends
            self.is_set(),
    {
        self@->Some_0
    }

    /// An empty cell.
    pub fn new() -> (r: Self)
        ensures
            r@ == None::<T>,
    {
        StaticCell { value: None }
    }

    /// Reads the value. Reading an empty cell is refused by the verifier.
    pub fn get(&self) -> (r: &T)
        requires
            self.is_set(),
        ensures
            *r == self.value(),
    {
        self.value.as_ref().unwrap()
    }

    /// Writes the value. Only an empty cell may be written: a written cell
    /// keeps its value for good.
    pub fn set(&mut self, value: T)
        requires
            !old(self).is_set(),
        ensures
            final(self)@ == Some(value),
    {
        self.value = Some(value);
    }
}

impl<T> Default for StaticCell<T> {
    fn default() -> (r: Self)
        ensures
            r@ == None::<T>,
    {
        Self::new()
    }
}

} // verus!
