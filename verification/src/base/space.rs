//! Scratch space for one evaluation of a curve.
use core::marker::PhantomData;
use vstd::prelude::*;

verus! {

/// A provider of workspaces.
///
/// [`workspace`](Space::workspace) is called every time a curve needs room to
/// calculate in. The buffer it hands out belongs to that one call; what it
/// holds is unspecified, and the caller writes a slot before reading it.
pub trait Space<T> {
    /// The length of every workspace this provider hands out.
    spec fn len_spec(&self) -> usize;

    /// Returns the length of the workspace given.
    fn len(&self) -> (n: usize)
        ensures
            n == self.len_spec(),
    ;

    /// Returns true if the workspace is empty.
    fn is_empty(&self) -> (b: bool)
        ensures
            b == (self.len_spec() == 0),
    ;

    /// A fresh workspace.
    fn workspace(&self) -> (w: Vec<T>)
        ensures
            w@.len() == self.len_spec(),
    ;
}

/// A workspace whose length `N` is fixed at compile time.
#[derive(Debug)]
pub struct ConstSpace<T, const N: usize> {
    _phantom: PhantomData<T>,
}

impl<T, const N: usize> Clone for ConstSpace<T, N> {
    fn clone(&self) -> (space: Self)
        ensures
            space == *self,
    {
        ConstSpace { _phantom: PhantomData }
    }
}

impl<T, const N: usize> Copy for ConstSpace<T, N> {

}

impl<T, const N: usize> ConstSpace<T, N> {
    /// Create a constant workspace.
    pub fn new() -> (space: Self) {
        ConstSpace { _phantom: PhantomData }
    }
}

impl<T: Default + Copy, const N: usize> Space<T> for ConstSpace<T, N> {
    open spec fn len_spec(&self) -> usize {
        N
    }

    fn len(&self) -> (n: usize) {
        N
    }

    fn is_empty(&self) -> (b: bool) {
        N == 0
    }

    fn workspace(&self) -> (w: Vec<T>) {
        filled(N)
    }
}

/// A workspace whose length is chosen at run time.
///
/// A new buffer is allocated every time [`workspace`](Space::workspace) is
/// called, so evaluations never share one.
#[derive(Debug)]
pub struct DynSpace<T> {
    len: usize,
    _phantom: PhantomData<T>,
}

impl<T> Clone for DynSpace<T> {
    fn clone(&self) -> (space: Self)
        ensures
            space == *self,
    {
        DynSpace { len: self.len, _phantom: PhantomData }
    }
}

impl<T> Copy for DynSpace<T> {

}

impl<T> DynSpace<T> {
    /// The length this provider was made with.
    pub closed spec fn capacity(&self) -> usize {
        self.len
    }

    /// Create a workspace with given length at run-time.
    pub fn new(len: usize) -> (space: Self)
        ensures
            space.capacity() == len,
    {
        DynSpace { len, _phantom: PhantomData }
    }
}

impl<T: Default + Copy> Space<T> for DynSpace<T> {
    open spec fn len_spec(&self) -> usize {
        self.capacity()
    }

    fn len(&self) -> (n: usize) {
        self.len
    }

    fn is_empty(&self) -> (b: bool) {
        self.len == 0
    }

    fn workspace(&self) -> (w: Vec<T>) {
        filled(self.len)
    }
}

/// A buffer of `len` default values.
fn filled<T: Default + Copy>(len: usize) -> (w: Vec<T>)
    ensures
        w@.len() == len,
{
    let mut w: Vec<T> = Vec::with_capacity(len);
    let mut i: usize = 0;
    while i < len
        invariant
            i <= len,
            w@.len() == i,
        decreases len - i,
    {
        w.push(T::default());
        i += 1;
    }
    w
}

} // verus!
