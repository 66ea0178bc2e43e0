//! A stand-in for a network stream that reads from and writes to a value held
//! in memory.

use vstd::prelude::*;

verus! {

/// A mock network stream over `data`.
#[derive(Clone)]
pub struct MockStream<T> {
    data: T,
}

impl<T> MockStream<T> {
    /// The value that the stream reads from and writes to.
    pub closed spec fn data(&self) -> T {
        self.data
    }

    /// A stream that reads from and writes to `data`.
    pub fn new(data: T) -> (r: MockStream<T>)
        ensures
            r.data() == data,
    {
        MockStream { data }
    }

    /// The value behind the stream, given back.
    pub fn into_inner(self) -> (r: T)
        ensures
            r == self.data(),
    {
        self.data
    }
}

} // verus!
