//! An owning box for slices whose length always fits in 32 bits: the
//! fixed-width forerunner of the width-generic [`crate::SlimmerBox`].

use core::marker::PhantomData;
use vstd::prelude::*;

use crate::PointerMetadataDoesNotFitError;

verus! {

/// An owning box over a slice of `T` that stores the slice's length in a
/// `u32` instead of at native width.
///
/// A conventional owned slice carries a native-width length; storing the
/// length in 32 bits caps the slice at `u32::MAX` elements, which every
/// constructor here checks or requires.
#[derive(Debug)]
pub struct SmallSliceBox<T> {
    contents: Vec<T>,
    size: u32,
}

impl<T> View for SmallSliceBox<T> {
    type V = Seq<T>;

    closed spec fn view(&self) -> Seq<T> {
        self.contents@
    }
}

impl<T> SmallSliceBox<T> {
    /// The stored 32-bit size always equals the slice's length.
    #[verifier::type_invariant]
    spec fn wf(self) -> bool {
        self.size as nat == self.contents@.len()
    }

    /// Creates a new box from the given slice, for callers who know the
    /// slice's length fits in a `u32`.
    ///
    /// The slice's elements are cloned one by one.
    pub fn new(slice: &[T]) -> (b: Self) where T: Clone
        requires
            slice@.len() <= u32::MAX as nat,
        ensures
            b@.len() == slice@.len(),
            forall|i: int|
                0 <= i < slice@.len() ==> cloned::<T>(slice@[i], #[trigger] b@[i]),
    {
        match Self::try_new(slice) {
            Ok(b) => b,
            Err(_) => vstd::pervasive::unreached(),
        }
    }

    /// Variant of `new` which returns an error exactly when the slice is too
    /// long for its length to be stored in a `u32`.
    pub fn try_new(slice: &[T]) -> (r: Result<
        Self,
        PointerMetadataDoesNotFitError<Vec<T>, u32>,
    >) where T: Clone
        ensures
            r is Ok <==> slice@.len() <= u32::MAX as nat,
            r matches Ok(b) ==> b@.len() == slice@.len() && forall|i: int|
                0 <= i < slice@.len() ==> cloned::<T>(slice@[i], #[trigger] b@[i]),
    {
        let n = slice.len();
        let mut contents: Vec<T> = Vec::new();
        let mut i: usize = 0;
        while i < n
            invariant
                n == slice@.len(),
                i <= n,
                contents@.len() == i as nat,
                forall|j: int|
                    0 <= j < i ==> cloned::<T>(slice@[j], #[trigger] contents@[j]),
            decreases n - i,
        {
            let elem = slice[i].clone();
            contents.push(elem);
            i = i + 1;
        }
        Self::try_from_box(contents)
    }

    /// Optimisation of `new` for `Copy` element types: the slice is copied
    /// wholesale instead of element by element, and the contents come out
    /// exactly equal.
    pub fn new_from_copy(slice: &[T]) -> (b: Self) where T: Copy
        requires
            slice@.len() <= u32::MAX as nat,
        ensures
            b@ == slice@,
    {
        match Self::try_new_from_copy(slice) {
            Ok(b) => b,
            Err(_) => vstd::pervasive::unreached(),
        }
    }

    /// Variant of `new_from_copy` which returns an error exactly when the
    /// slice is too long for its length to be stored in a `u32`.
    pub fn try_new_from_copy(slice: &[T]) -> (r: Result<
        Self,
        PointerMetadataDoesNotFitError<Vec<T>, u32>,
    >) where T: Copy
        ensures
            r is Ok <==> slice@.len() <= u32::MAX as nat,
            r matches Ok(b) ==> b@ == slice@,
    {
        let contents = vstd::slice::slice_to_vec(slice);
        Self::try_from_box(contents)
    }

    /// Turns an owned slice into a box, in constant time and without
    /// cloning; returns an error exactly when the slice is too long for its
    /// length to be stored in a `u32`. On the error path the offered value
    /// is released, not leaked.
    pub fn try_from_box(boxed: Vec<T>) -> (r: Result<
        Self,
        PointerMetadataDoesNotFitError<Vec<T>, u32>,
    >)
        ensures
            r is Ok <==> boxed@.len() <= u32::MAX as nat,
            r matches Ok(b) ==> b@ == boxed@,
    {
        let size = boxed.len();
        if size <= u32::MAX as usize {
            Ok(SmallSliceBox { contents: boxed, size: size as u32 })
        } else {
            Err(PointerMetadataDoesNotFitError(PhantomData, PhantomData))
        }
    }

    /// Turns an owned slice into a box, in constant time and without
    /// cloning, for callers who know the slice's length fits in a `u32`.
    pub fn from_box(boxed: Vec<T>) -> (b: Self)
        requires
            boxed@.len() <= u32::MAX as nat,
        ensures
            b@ == boxed@,
    {
        match Self::try_from_box(boxed) {
            Ok(b) => b,
            Err(_) => vstd::pervasive::unreached(),
        }
    }

    /// Releases ownership of the contents back to the caller as an owned
    /// slice, in constant time.
    ///
    /// Consuming the box is what disarms it: after the transfer no box value
    /// remains that could release the same contents a second time.
    ///
    /// Not a method, to not interfere with borrowed access; call it as
    /// `SmallSliceBox::to_box(b)`.
    pub fn to_box(this: Self) -> (r: Vec<T>)
        ensures
            r@ == this@,
    {
        let SmallSliceBox { contents, size: _ } = this;
        contents
    }

    /// Number of elements.
    pub fn len(&self) -> (n: usize)
        ensures
            n == self@.len(),
    {
        self.contents.len()
    }

    /// The stored 32-bit length; it always equals the true length.
    pub fn size(&self) -> (s: u32)
        ensures
            s as nat == self@.len(),
    {
        proof {
            use_type_invariant(self);
        }
        self.size
    }

    /// Borrowed read access to the whole slice.
    pub fn as_slice(&self) -> (r: &[T])
        ensures
            r@ == self@,
    {
        self.contents.as_slice()
    }

    /// Borrowed read access to one element.
    pub fn get(&self, i: usize) -> (r: &T)
        requires
            i < self@.len(),
        ensures
            *r == self@[i as int],
    {
        &self.contents[i]
    }

    /// Overwrites one element through the box's write access. Only the
    /// pointee's contents change; the length stays as it is.
    pub fn set(&mut self, i: usize, value: T)
        requires
            i < old(self)@.len(),
        ensures
            final(self)@ == old(self)@.update(i as int, value),
    {
        proof {
            use_type_invariant(&*self);
        }
        self.contents[i] = value;
    }
}

impl<T: Clone> Clone for SmallSliceBox<T> {
    /// Produces a new, independently owned box by cloning the dereferenced
    /// contents; the original allocation is never aliased.
    fn clone(&self) -> (res: Self)
        ensures
            res@.len() == self@.len(),
            forall|i: int|
                0 <= i < self@.len() ==> cloned::<T>(self@[i], #[trigger] res@[i]),
    {
        proof {
            use_type_invariant(self);
        }
        Self::new(self.as_slice())
    }
}

/// An enum that keeps one variant's payload out of line in a
/// [`SmallSliceBox`] instead of carrying it inline.
pub enum Foo {
    First(bool),
    Second(u32),
    OutOfLine(SmallSliceBox<i32>),
}

/// A small-string shape: short strings live inline as bytes, longer ones
/// behind a boxed byte slice with a narrowed length.
pub enum Thing {
    LocalString { bytes: [u8; 14], len: u8 },
    RemoteString { ptr: SmallSliceBox<u8> },
}

} // verus!
