//! An owning box whose pointer metadata is narrowed into a caller-chosen
//! smaller integer width.
//!
//! A conventional owning pointer to a dynamically sized value carries both an
//! address and native-width metadata (a slice's length, say), two words in
//! all. Most slices are nowhere near `usize::MAX` elements long, so the
//! metadata can usually be stored in a narrower integer. [`SlimmerBox`] is an
//! owning box that does exactly that: it stores the narrowed metadata beside
//! its contents, maintains the invariant that the narrowed form widens back
//! to exactly the native metadata, and reports an overflow error at
//! construction time for the rare value whose metadata does not fit.
//!
//! The two supporting abstractions are [`SlimmerPointee`], the capability that
//! says which value-kind may use which metadata width (with a machine-checked
//! proof that the narrowing round-trips losslessly), and [`CloneUnsized`], a
//! cloning capability that works uniformly over statically sized and
//! slice-like values.

pub mod clone_unsized;
pub mod slim_pointee;
pub mod small_slice_box;

pub use crate::clone_unsized::CloneUnsized;
pub use crate::slim_pointee::SlimmerPointee;

use core::cmp::Ordering;
use core::marker::PhantomData;
use vstd::prelude::*;
use vstd::std_specs::cmp::PartialEqSpec;
use vstd::std_specs::cmp::PartialOrdSpec;

verus! {

/// Produced when a value's native pointer metadata cannot be represented in
/// the chosen narrower metadata type: for example, a slice of five billion
/// elements has no 32-bit element count. The type parameters identify the
/// value-kind and the width that were attempted, so a debug rendering names
/// them; no unbounded data is carried.
#[derive(Debug)]
pub struct PointerMetadataDoesNotFitError<T, SlimmerMetadata>(
    pub PhantomData<T>,
    pub PhantomData<SlimmerMetadata>,
);

impl<T, SlimmerMetadata> PointerMetadataDoesNotFitError<T, SlimmerMetadata> {
    /// Material for a human-readable diagnostic: the byte widths of the
    /// native metadata and of the narrower metadata type that could not
    /// hold it, in that order.
    pub fn metadata_byte_widths(&self) -> (r: (usize, usize))
        ensures
            r.0 as nat == vstd::layout::size_of::<usize>(),
            r.1 as nat == vstd::layout::size_of::<SlimmerMetadata>(),
    {
        (core::mem::size_of::<usize>(), core::mem::size_of::<SlimmerMetadata>())
    }
}

/// An owning box that stores its pointee's metadata in the narrower type
/// `SlimmerMetadata` instead of at native width.
///
/// The box owns `contents` exclusively, and `meta` is the narrowed encoding
/// of the contents' native metadata. The type invariant guarantees that
/// widening `meta` recovers the native metadata exactly, from the moment
/// construction completes until the box is consumed.
#[derive(Debug, Hash)]
pub struct SlimmerBox<T, SlimmerMetadata = u32> where
    T: SlimmerPointee<SlimmerMetadata>,
    SlimmerMetadata: Copy,
{
    contents: T,
    meta: SlimmerMetadata,
}

impl<T, SlimmerMetadata> View for SlimmerBox<T, SlimmerMetadata> where
    T: SlimmerPointee<SlimmerMetadata>,
    SlimmerMetadata: Copy,
{
    type V = <T as View>::V;

    open spec fn view(&self) -> Self::V {
        self.spec_contents()@
    }
}

impl<T, SlimmerMetadata> SlimmerBox<T, SlimmerMetadata> where
    T: SlimmerPointee<SlimmerMetadata>,
    SlimmerMetadata: Copy,
{
    /// The stored narrowed metadata widens back to exactly the contents'
    /// native metadata, which in turn fits the narrow width.
    #[verifier::type_invariant]
    spec fn wf(self) -> bool {
        &&& T::spec_widen(self.meta) == self.contents.spec_metadata()
        &&& self.contents.spec_metadata() <= T::spec_max_metadata()
        &&& self.contents.spec_metadata() <= usize::MAX as nat
    }

    /// The narrowed metadata as stored.
    pub closed spec fn spec_slim_metadata(&self) -> SlimmerMetadata {
        self.meta
    }

    /// The owned contents.
    pub closed spec fn spec_contents(&self) -> T {
        self.contents
    }

    /// The contents' native metadata, as a mathematical number.
    pub open spec fn spec_metadata(&self) -> nat {
        self.spec_contents().spec_metadata()
    }

    /// Creates a box by cloning the given value.
    ///
    /// Fresh storage is set up, the value's contents are cloned into it, and
    /// the value's native metadata is narrowed. Succeeds exactly when the
    /// metadata fits the narrow width; nothing is leaked on the error path,
    /// since the partial clone is released before the error returns.
    pub fn try_new(value: &T) -> (r: Result<
        Self,
        PointerMetadataDoesNotFitError<T, SlimmerMetadata>,
    >) where T: CloneUnsized + Default
        ensures
            r is Ok <==> value.spec_metadata() <= T::spec_max_metadata(),
            r matches Ok(b) ==> b@ == value@ && b.spec_slim_metadata() == T::spec_narrow(
                value.spec_metadata(),
            ),
    {
        let mut contents = T::default();
        contents.unsized_clone_from(value);
        proof {
            T::lemma_metadata_depends_on_view(&contents, value);
        }
        Self::try_from_box(contents)
    }

    /// Variant of `try_new` for callers who know the value's metadata fits,
    /// so the overflow error cannot arise.
    pub fn new(value: &T) -> (b: Self) where T: CloneUnsized + Default
        requires
            value.spec_metadata() <= T::spec_max_metadata(),
        ensures
            b@ == value@,
            b.spec_slim_metadata() == T::spec_narrow(value.spec_metadata()),
    {
        match Self::try_new(value) {
            Ok(b) => b,
            Err(_) => vstd::pervasive::unreached(),
        }
    }

    /// Creates a box by taking ownership of an already-owned value, in
    /// constant time and without cloning.
    ///
    /// The value's native metadata is narrowed and stored. Succeeds exactly
    /// when the metadata fits the narrow width; on the error path the offered
    /// value is released, not leaked.
    pub fn try_from_box(boxed: T) -> (r: Result<
        Self,
        PointerMetadataDoesNotFitError<T, SlimmerMetadata>,
    >)
        ensures
            r is Ok <==> boxed.spec_metadata() <= T::spec_max_metadata(),
            r matches Ok(b) ==> b.spec_contents() == boxed && b@ == boxed@
                && b.spec_slim_metadata() == T::spec_narrow(boxed.spec_metadata()),
    {
        let native = boxed.metadata_of();
        match T::try_narrow(native) {
            Some(slim) => Ok(SlimmerBox { contents: boxed, meta: slim }),
            None => Err(PointerMetadataDoesNotFitError(PhantomData, PhantomData)),
        }
    }

    /// Variant of `try_from_box` for callers who know the value's metadata
    /// fits, so the overflow error cannot arise.
    pub fn from_box(boxed: T) -> (b: Self)
        requires
            boxed.spec_metadata() <= T::spec_max_metadata(),
        ensures
            b.spec_contents() == boxed,
            b@ == boxed@,
            b.spec_slim_metadata() == T::spec_narrow(boxed.spec_metadata()),
    {
        match Self::try_from_box(boxed) {
            Ok(b) => b,
            Err(_) => vstd::pervasive::unreached(),
        }
    }

    /// Releases ownership of the contents back to the caller, in constant
    /// time.
    ///
    /// Consuming the box is what disarms it: after the transfer no box value
    /// remains that could release the same contents a second time.
    ///
    /// Not a method, to not interfere with borrowed access; call it as
    /// `SlimmerBox::into_box(b)`.
    pub fn into_box(this: Self) -> (r: T)
        ensures
            r == this.spec_contents(),
            r@ == this@,
    {
        let SlimmerBox { contents, meta: _ } = this;
        contents
    }

    /// The narrowed metadata as stored.
    ///
    /// Not a method, to not interfere with borrowed access; call it as
    /// `SlimmerBox::slim_metadata(&b)`.
    pub fn slim_metadata(this: &Self) -> (r: SlimmerMetadata)
        ensures
            r == this.spec_slim_metadata(),
    {
        this.meta
    }

    /// The stored narrowed metadata widened back to its native form. This is
    /// infallible: the capability's round-trip guarantee is exactly what
    /// makes the widening total.
    ///
    /// Not a method, to not interfere with borrowed access; call it as
    /// `SlimmerBox::metadata(&b)`.
    pub fn metadata(this: &Self) -> (r: usize)
        ensures
            r as nat == this.spec_metadata(),
            r as nat == T::spec_widen(this.spec_slim_metadata()),
    {
        proof {
            use_type_invariant(this);
        }
        T::widen(this.meta)
    }

    /// A read-only borrowed view of the contents; side-effect free.
    pub fn borrow_contents(&self) -> (r: &T)
        ensures
            r == self.spec_contents(),
    {
        &self.contents
    }
}

impl<T, SlimmerMetadata> SlimmerBox<Vec<T>, SlimmerMetadata> where
    Vec<T>: SlimmerPointee<SlimmerMetadata> + View<V = Seq<T>>,
    SlimmerMetadata: Copy,
{
    /// Number of elements of the slice-like contents.
    pub fn len(&self) -> (n: usize)
        ensures
            n == self@.len(),
    {
        self.contents.len()
    }

    /// Borrowed read access to the whole slice-like contents.
    pub fn as_slice(&self) -> (r: &[T])
        ensures
            r@ == self@,
    {
        self.contents.as_slice()
    }

    /// Borrowed read access to one element.
    pub fn get(&self, i: usize) -> (r: &T)
        requires
            i < self@.len(),
        ensures
            *r == self@[i as int],
    {
        &self.contents[i]
    }

}

impl<T> SlimmerBox<Vec<T>, u32> {
    /// Overwrites one element through the box's write access. Only the
    /// pointee's contents change; the shape, and with it the stored
    /// metadata, stays as it is.
    pub fn set(&mut self, i: usize, value: T)
        requires
            i < old(self)@.len(),
        ensures
            final(self)@ == old(self)@.update(i as int, value),
            final(self).spec_slim_metadata() == old(self).spec_slim_metadata(),
    {
        proof {
            use_type_invariant(&*self);
        }
        self.contents[i] = value;
    }
}

impl<T, SlimmerMetadata> Clone for SlimmerBox<T, SlimmerMetadata> where
    T: SlimmerPointee<SlimmerMetadata> + CloneUnsized + Default,
    SlimmerMetadata: Copy,
{
    /// Produces a new, independently owned box with the same contents and
    /// the same narrowed metadata; the original is never aliased, so writes
    /// to the one can never reach the other.
    fn clone(&self) -> (res: Self)
        ensures
            res@ == self@,
            res.spec_slim_metadata() == self.spec_slim_metadata(),
    {
        proof {
            use_type_invariant(self);
        }
        let mut contents = T::default();
        contents.unsized_clone_from(&self.contents);
        proof {
            T::lemma_metadata_depends_on_view(&contents, &self.contents);
        }
        SlimmerBox { contents, meta: self.meta }
    }
}

impl<T, SlimmerMetadata> PartialEq for SlimmerBox<T, SlimmerMetadata> where
    T: SlimmerPointee<SlimmerMetadata> + PartialEq,
    SlimmerMetadata: Copy,
{
    /// Two boxes compare as their dereferenced contents do, whatever
    /// metadata width is used internally.
    fn eq(&self, other: &Self) -> (r: bool) {
        self.contents.eq(&other.contents)
    }
}

impl<T, SlimmerMetadata> vstd::std_specs::cmp::PartialEqSpecImpl for SlimmerBox<T, SlimmerMetadata> where
    T: SlimmerPointee<SlimmerMetadata> + PartialEq,
    SlimmerMetadata: Copy,
{
    open spec fn obeys_eq_spec() -> bool {
        <T as vstd::std_specs::cmp::PartialEqSpec>::obeys_eq_spec()
    }

    open spec fn eq_spec(&self, other: &Self) -> bool {
        self.spec_contents().eq_spec(&other.spec_contents())
    }
}

impl<T, SlimmerMetadata> Eq for SlimmerBox<T, SlimmerMetadata> where
    T: SlimmerPointee<SlimmerMetadata> + Eq,
    SlimmerMetadata: Copy,
{
}

/// Lexicographic comparison of two sequences, with element comparisons given
/// by the element type's own ordering spec: the first differing position
/// decides, a sequence that runs out first is the lesser, and an
/// incomparable element pair makes the sequences incomparable.
pub open spec fn lex_partial_cmp_spec<T: PartialOrd>(a: Seq<T>, b: Seq<T>) -> Option<Ordering>
    decreases a.len(),
{
    if a.len() == 0 && b.len() == 0 {
        Some(Ordering::Equal)
    } else if a.len() == 0 {
        Some(Ordering::Less)
    } else if b.len() == 0 {
        Some(Ordering::Greater)
    } else {
        match a[0].partial_cmp_spec(&b[0]) {
            Some(Ordering::Equal) => lex_partial_cmp_spec(a.drop_first(), b.drop_first()),
            c => c,
        }
    }
}

/// A common prefix of positions that all compare `Equal` does not affect the
/// lexicographic comparison: it is decided by what follows the prefix.
proof fn lemma_lex_skip_prefix<T: PartialOrd>(a: Seq<T>, b: Seq<T>, i: int)
    requires
        0 <= i <= a.len(),
        i <= b.len(),
        forall|j: int|
            0 <= j < i ==> a[j].partial_cmp_spec(&b[j]) == Some(Ordering::Equal),
    ensures
        lex_partial_cmp_spec(a, b) == lex_partial_cmp_spec(a.skip(i), b.skip(i)),
    decreases i,
{
    if i == 0 {
        assert(a.skip(0) =~= a);
        assert(b.skip(0) =~= b);
    } else {
        assert(a[0].partial_cmp_spec(&b[0]) == Some(Ordering::Equal));
        lemma_lex_skip_prefix(a.drop_first(), b.drop_first(), i - 1);
        assert(a.drop_first().skip(i - 1) =~= a.skip(i));
        assert(b.drop_first().skip(i - 1) =~= b.skip(i));
    }
}

/// Equality and ordering agree on sequences: if the element type's own
/// ordering spec returns `Equal` exactly on pairs its equality spec accepts,
/// then the lexicographic comparison returns `Equal` exactly on sequences of
/// equal length whose elements are equal position by position — which is
/// exactly how slice-like contents compare equal.
pub proof fn lemma_lex_eq_consistency<T: PartialOrd>(a: Seq<T>, b: Seq<T>)
    requires
        forall|x: T, y: T| #[trigger]
            x.partial_cmp_spec(&y) == Some(Ordering::Equal) <==> x.eq_spec(&y),
    ensures
        lex_partial_cmp_spec(a, b) == Some(Ordering::Equal) <==> (a.len() == b.len()
            && forall|i: int| 0 <= i < a.len() ==> a[i].eq_spec(&b[i])),
    decreases a.len(),
{
    if a.len() == 0 || b.len() == 0 {
    } else {
        lemma_lex_eq_consistency(a.drop_first(), b.drop_first());
        if a[0].partial_cmp_spec(&b[0]) == Some(Ordering::Equal) {
            if a.len() == b.len() && lex_partial_cmp_spec(a, b) == Some(Ordering::Equal) {
                assert forall|i: int| 0 <= i < a.len() implies a[i].eq_spec(&b[i]) by {
                    if i > 0 {
                        assert(a.drop_first()[i - 1] == a[i]);
                        assert(b.drop_first()[i - 1] == b[i]);
                    }
                }
            }
            if a.len() == b.len() && (forall|i: int|
                0 <= i < a.len() ==> a[i].eq_spec(&b[i])) {
                assert forall|i: int|
                    0 <= i < a.drop_first().len() implies a.drop_first()[i].eq_spec(
                    &b.drop_first()[i],
                ) by {
                    assert(a.drop_first()[i] == a[i + 1]);
                    assert(b.drop_first()[i] == b[i + 1]);
                }
            }
        } else {
            assert(!a[0].eq_spec(&b[0]));
        }
    }
}

impl<T, SlimmerMetadata> PartialOrd for SlimmerBox<Vec<T>, SlimmerMetadata> where
    T: PartialOrd,
    Vec<T>: SlimmerPointee<SlimmerMetadata> + View<V = Seq<T>>,
    SlimmerMetadata: Copy,
{
    /// Two boxes order as their dereferenced contents do, lexicographically,
    /// whatever metadata width is used internally.
    fn partial_cmp(&self, other: &Self) -> (r: Option<Ordering>) {
        let n = self.contents.len();
        let m = other.contents.len();
        let mut i: usize = 0;
        while i < n && i < m
            invariant
                n == self.contents@.len(),
                m == other.contents@.len(),
                i <= n,
                i <= m,
                T::obeys_partial_cmp_spec() ==> forall|j: int|
                    0 <= j < i ==> self.contents@[j].partial_cmp_spec(&other.contents@[j])
                        == Some(Ordering::Equal),
            decreases n - i,
        {
            let c = self.contents[i].partial_cmp(&other.contents[i]);
            match c {
                Some(Ordering::Equal) => {
                    i = i + 1;
                },
                _ => {
                    proof {
                        if T::obeys_partial_cmp_spec() {
                            lemma_lex_skip_prefix(self.contents@, other.contents@, i as int);
                        }
                    }
                    return c;
                },
            }
        }
        proof {
            if T::obeys_partial_cmp_spec() {
                lemma_lex_skip_prefix(self.contents@, other.contents@, i as int);
            }
        }
        if n < m {
            Some(Ordering::Less)
        } else if m < n {
            Some(Ordering::Greater)
        } else {
            Some(Ordering::Equal)
        }
    }
}

impl<T, SlimmerMetadata> vstd::std_specs::cmp::PartialOrdSpecImpl for SlimmerBox<Vec<T>, SlimmerMetadata> where
    T: PartialOrd,
    Vec<T>: SlimmerPointee<SlimmerMetadata> + View<V = Seq<T>>,
    SlimmerMetadata: Copy,
{
    open spec fn obeys_partial_cmp_spec() -> bool {
        <T as vstd::std_specs::cmp::PartialOrdSpec>::obeys_partial_cmp_spec()
    }

    open spec fn partial_cmp_spec(&self, other: &Self) -> Option<Ordering> {
        lex_partial_cmp_spec(self.spec_contents()@, other.spec_contents()@)
    }
}

/// Equality/ordering consistency law, at the box level: whenever the element
/// type's own ordering spec calls a pair `Equal` exactly when its equality
/// spec accepts the pair, two boxes compare `Equal` under the lexicographic
/// ordering exactly when they compare equal — regardless of the metadata
/// width used internally.
pub proof fn lemma_box_eq_ord_consistency<T, SlimmerMetadata>(
    a: &SlimmerBox<Vec<T>, SlimmerMetadata>,
    b: &SlimmerBox<Vec<T>, SlimmerMetadata>,
) where
    T: PartialOrd,
    Vec<T>: SlimmerPointee<SlimmerMetadata> + View<V = Seq<T>>,
    SlimmerMetadata: Copy,
    requires
        forall|x: T, y: T| #[trigger]
            x.partial_cmp_spec(&y) == Some(Ordering::Equal) <==> x.eq_spec(&y),
    ensures
        a.partial_cmp_spec(b) == Some(Ordering::Equal) <==> a.eq_spec(b),
{
    lemma_lex_eq_consistency(a.spec_contents()@, b.spec_contents()@);
}

/// Round-trip law: a box hands back contents whose view equals the view of
/// whatever it was built around. The first premise is what every constructor
/// ensures of a freshly built box; the second is what `into_box` ensures of
/// the released contents.
pub proof fn lemma_box_roundtrip<T, SlimmerMetadata>(
    value: T,
    b: SlimmerBox<T, SlimmerMetadata>,
    released: T,
) where T: SlimmerPointee<SlimmerMetadata>, SlimmerMetadata: Copy
    requires
        b@ == value@,
        released == b.spec_contents(),
    ensures
        released@ == value@,
{
}

} // verus!
