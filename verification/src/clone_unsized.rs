//! A cloning capability that works uniformly over statically sized values and
//! over slice-like values: the target is mutated in place until it is a clone
//! of the source.

use vstd::prelude::*;

verus! {

/// Mutate a value in place into a clone of a source value of the same kind.
///
/// The contract is stated over the abstract contents: afterwards the target's
/// view equals the source's view, and the source is untouched. Supplying a
/// target of a different shape is not an error: the target is resized to
/// match, so the operation has no failure mode.
pub trait CloneUnsized: View {
    /// Mutates `self` to become a clone of `source`.
    fn unsized_clone_from(&mut self, source: &Self)
        ensures
            final(self)@ == source@,
    ;
}

/// Slice-like values: every element is cloned positionally.
impl<T: Copy> CloneUnsized for Vec<T> {
    fn unsized_clone_from(&mut self, source: &Self)
        ensures
            final(self)@ == source@,
    {
        self.clear();
        let n = source.len();
        let mut i: usize = 0;
        while i < n
            invariant
                n == source@.len(),
                i <= n,
                self@ == source@.subrange(0, i as int),
            decreases n - i,
        {
            self.push(source[i]);
            i = i + 1;
            proof {
                assert(self@ =~= source@.subrange(0, i as int));
            }
        }
        proof {
            assert(self@ =~= source@);
        }
    }
}

/// String-like values: cloning reproduces the character sequence exactly,
/// so the UTF-8 validity established at allocation time is preserved.
impl CloneUnsized for String {
    fn unsized_clone_from(&mut self, source: &Self)
        ensures
            final(self)@ == source@,
    {
        *self = source.clone();
    }
}

/// Statically sized array values: clones the whole array at once.
impl<T: Copy, const N: usize> CloneUnsized for [T; N] {
    fn unsized_clone_from(&mut self, source: &Self)
        ensures
            final(self)@ == source@,
    {
        *self = *source;
    }
}

/// A statically sized scalar value: a plain clone assignment.
impl CloneUnsized for u64 {
    fn unsized_clone_from(&mut self, source: &Self)
        ensures
            final(self)@ == source@,
    {
        *self = *source;
    }
}

/// The zero-sized unit value: nothing to clone.
impl CloneUnsized for () {
    fn unsized_clone_from(&mut self, source: &Self)
        ensures
            final(self)@ == source@,
    {
    }
}

} // verus!
