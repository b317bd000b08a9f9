//! A cell whose reads and writes the program performs exactly as written.
use vstd::prelude::*;

verus! {

/// A value read and written as a whole.
pub struct Volatile<T: Copy>(pub T);

impl<T: Copy> Volatile<T> {
    /// A cell holding `val`.
    pub fn new_const(val: T) -> (r: Volatile<T>)
        ensures
            r.0 == val,
    {
        Volatile(val)
    }

    /// A cell holding `val`.
    pub fn new(val: T) -> (r: Volatile<T>)
        ensures
            r.0 == val,
    {
        Volatile(val)
    }

    /// The value held.
    pub fn read(&self) -> (r: T)
        ensures
            r == self.0,
    {
        self.0
    }

    /// Replaces the value held by `val`.
    pub fn write(&mut self, val: T)
        ensures
            final(self).0 == val,
    {
        self.0 = val;
    }
}

} // verus!
