//! Markers that record, in the type of a builder, which of its parts have
//! been given.
use core::marker::PhantomData;
use vstd::prelude::*;

verus! {

/// A part that has not been given yet.
#[derive(Debug, Clone, Copy)]
pub struct Unknown;

/// The elements were given with weights.
#[derive(Debug, Clone, Copy)]
pub struct WithWeight;

/// The elements were given without weights.
#[derive(Debug, Clone, Copy)]
pub struct WithoutWeight;

/// A part of which only the type is known so far.
#[derive(Debug)]
pub struct Type<R> {
    _phantom: PhantomData<R>,
}

impl<R> Type<R> {
    /// The marker for the type `R`.
    pub fn new() -> (marker: Self) {
        Type { _phantom: PhantomData }
    }
}

impl<R> Clone for Type<R> {
    fn clone(&self) -> (marker: Self)
        ensures
            marker == *self,
    {
        Type { _phantom: PhantomData }
    }
}

impl<R> Copy for Type<R> {

}

} // verus!
