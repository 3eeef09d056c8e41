//! Object paths tagged with the capability they are asserted to support.
use vstd::prelude::*;
use core::marker::PhantomData;

verus! {

/// The capability tag of objects that act as a station.
#[derive(Clone, Copy, Debug)]
pub struct StationTag;

/// An object path that the holder asserts supports the capability `T`.
/// Nothing checks the assertion: a wrong one shows up later, when a call on
/// the object fails. The tag costs nothing at run time and is dropped when
/// the path is handed back.
#[derive(Debug)]
pub struct OPath<T> {
    path: String,
    _ty: PhantomData<T>,
}

impl<T> OPath<T> {
    /// The path, as characters.
    pub closed spec fn view(&self) -> Seq<char> {
        self.path@
    }

    /// Tags a path; this always succeeds.
    pub fn from_path(path: String) -> (r: OPath<T>)
        ensures
            r@ == path@,
    {
        OPath { path, _ty: PhantomData }
    }

    /// The plain path, with the tag dropped.
    pub fn into_path(self) -> (r: String)
        ensures
            r@ == self@,
    {
        self.path
    }

    /// The plain path, borrowed.
    pub fn as_path(&self) -> (r: &String)
        ensures
            r@ == self@,
    {
        &self.path
    }
}

} // verus!
