//! The narrowing capability: which value-kinds may store their native pointer
//! metadata in which narrower integer widths, and why no information is lost.

use vstd::prelude::*;

verus! {

/// Relies on `ptr_meta::metadata`: for a slice, the pointer metadata is the
/// slice's length in items.
#[verifier::external_body]
fn slice_native_metadata<T>(value: &[T]) -> (r: usize)
    ensures
        r == value@.len(),
{
    ptr_meta::metadata(value)
}

/// The number of bytes a character occupies in UTF-8: one below `U+0080`,
/// two below `U+0800`, three below `U+10000`, four beyond.
pub open spec fn char_utf8_len(c: char) -> nat {
    if (c as u32) < 0x80 {
        1
    } else if (c as u32) < 0x800 {
        2
    } else if (c as u32) < 0x10000 {
        3
    } else {
        4
    }
}

/// The UTF-8 byte length of a character sequence: the native metadata of a
/// string-like value is measured in bytes, not characters.
pub open spec fn utf8_byte_len(s: Seq<char>) -> nat
    decreases s.len(),
{
    if s.len() == 0 {
        0
    } else {
        char_utf8_len(s[0]) + utf8_byte_len(s.drop_first())
    }
}

/// Relies on `str::len`: the length of a string slice in bytes, which for
/// the valid UTF-8 a `String` always holds is the sum of its characters'
/// encoded lengths.
#[verifier::external_body]
fn string_native_metadata(value: &String) -> (r: usize)
    ensures
        r == utf8_byte_len(value@),
{
    value.len()
}

/// The zero-width metadata type: statically sized values need no metadata,
/// so nothing at all is stored for them.
#[derive(Clone, Copy, PartialEq, Eq, Structural, Debug, Hash)]
pub struct ZeroMetadata;

/// The capability that a value-kind's native pointer metadata (its length in
/// items, its byte count, or nothing at all for a statically sized value) can
/// be stored in the narrower type `SlimmerMetadata` and recovered exactly.
///
/// The native metadata is modelled as a mathematical number: the item count
/// of a slice-like value, the byte count of a string-like value, or zero for
/// a statically sized value. Each grant of the capability carries a proof
/// obligation, `lemma_narrow_roundtrip`, that narrowing a representable
/// metadata value and widening it back is the identity. Value-kinds whose
/// metadata is itself a pointer (trait objects) can never receive this
/// capability, because an address cannot be narrowed.
pub trait SlimmerPointee<SlimmerMetadata: Copy>: View {
    /// The value's native metadata, as a mathematical number.
    spec fn spec_metadata(&self) -> nat;

    /// The largest native metadata value representable in `SlimmerMetadata`.
    spec fn spec_max_metadata() -> nat;

    /// The narrowed encoding of a representable native metadata value.
    spec fn spec_narrow(native: nat) -> SlimmerMetadata;

    /// The native metadata encoded by a narrowed value.
    spec fn spec_widen(slim: SlimmerMetadata) -> nat;

    /// The grant's proof obligation: narrowing loses nothing that widening
    /// cannot recover, for every metadata value a live value can have.
    proof fn lemma_narrow_roundtrip(native: nat)
        requires
            native <= Self::spec_max_metadata(),
        ensures
            Self::spec_widen(Self::spec_narrow(native)) == native,
    ;

    /// Native metadata is a function of the abstract contents alone.
    proof fn lemma_metadata_depends_on_view(a: &Self, b: &Self)
        requires
            a@ == b@,
        ensures
            a.spec_metadata() == b.spec_metadata(),
    ;

    /// Read the native metadata off a live value.
    fn metadata_of(&self) -> (r: usize)
        ensures
            r == self.spec_metadata(),
    ;

    /// Narrow a native metadata value; `None` exactly on overflow.
    fn try_narrow(native: usize) -> (r: Option<SlimmerMetadata>)
        ensures
            r is Some <==> native as nat <= Self::spec_max_metadata(),
            r matches Some(slim) ==> slim == Self::spec_narrow(native as nat)
                && Self::spec_widen(slim) == native,
    ;

    /// Widen a narrowed metadata value back to its native width.
    fn widen(slim: SlimmerMetadata) -> (r: usize)
        requires
            Self::spec_widen(slim) <= usize::MAX,
        ensures
            r as nat == Self::spec_widen(slim),
    ;
}

/// Every value-kind is eligible for zero-width (unit) metadata; this is how
/// statically sized values are boxed, since they need no metadata at all.
impl<T: View> SlimmerPointee<ZeroMetadata> for T {
    open spec fn spec_metadata(&self) -> nat {
        0
    }

    open spec fn spec_max_metadata() -> nat {
        0
    }

    open spec fn spec_narrow(native: nat) -> ZeroMetadata {
        ZeroMetadata
    }

    open spec fn spec_widen(slim: ZeroMetadata) -> nat {
        0
    }

    proof fn lemma_narrow_roundtrip(native: nat) {
    }

    proof fn lemma_metadata_depends_on_view(a: &Self, b: &Self) {
    }

    fn metadata_of(&self) -> (r: usize) {
        0
    }

    fn try_narrow(native: usize) -> (r: Option<ZeroMetadata>) {
        if native == 0 {
            Some(ZeroMetadata)
        } else {
            None
        }
    }

    fn widen(slim: ZeroMetadata) -> (r: usize) {
        0
    }
}

/// A slice-like value may store its length in 8 bits: at most 255 items.
impl<T> SlimmerPointee<u8> for Vec<T> {
    open spec fn spec_metadata(&self) -> nat {
        self@.len()
    }

    open spec fn spec_max_metadata() -> nat {
        u8::MAX as nat
    }

    open spec fn spec_narrow(native: nat) -> u8 {
        native as u8
    }

    open spec fn spec_widen(slim: u8) -> nat {
        slim as nat
    }

    proof fn lemma_narrow_roundtrip(native: nat) {
    }

    proof fn lemma_metadata_depends_on_view(a: &Self, b: &Self) {
    }

    fn metadata_of(&self) -> (r: usize) {
        slice_native_metadata(self.as_slice())
    }

    fn try_narrow(native: usize) -> (r: Option<u8>) {
        if native <= u8::MAX as usize {
            Some(native as u8)
        } else {
            None
        }
    }

    fn widen(slim: u8) -> (r: usize) {
        slim as usize
    }
}

/// A slice-like value may store its length in 16 bits: at most 65535 items.
impl<T> SlimmerPointee<u16> for Vec<T> {
    open spec fn spec_metadata(&self) -> nat {
        self@.len()
    }

    open spec fn spec_max_metadata() -> nat {
        u16::MAX as nat
    }

    open spec fn spec_narrow(native: nat) -> u16 {
        native as u16
    }

    open spec fn spec_widen(slim: u16) -> nat {
        slim as nat
    }

    proof fn lemma_narrow_roundtrip(native: nat) {
    }

    proof fn lemma_metadata_depends_on_view(a: &Self, b: &Self) {
    }

    fn metadata_of(&self) -> (r: usize) {
        slice_native_metadata(self.as_slice())
    }

    fn try_narrow(native: usize) -> (r: Option<u16>) {
        if native <= u16::MAX as usize {
            Some(native as u16)
        } else {
            None
        }
    }

    fn widen(slim: u16) -> (r: usize) {
        slim as usize
    }
}

/// A slice-like value may store its length in 32 bits: at most 4294967295
/// items. This is the default width.
impl<T> SlimmerPointee<u32> for Vec<T> {
    open spec fn spec_metadata(&self) -> nat {
        self@.len()
    }

    open spec fn spec_max_metadata() -> nat {
        u32::MAX as nat
    }

    open spec fn spec_narrow(native: nat) -> u32 {
        native as u32
    }

    open spec fn spec_widen(slim: u32) -> nat {
        slim as nat
    }

    proof fn lemma_narrow_roundtrip(native: nat) {
    }

    proof fn lemma_metadata_depends_on_view(a: &Self, b: &Self) {
    }

    fn metadata_of(&self) -> (r: usize) {
        slice_native_metadata(self.as_slice())
    }

    fn try_narrow(native: usize) -> (r: Option<u32>) {
        if native <= u32::MAX as usize {
            Some(native as u32)
        } else {
            None
        }
    }

    fn widen(slim: u32) -> (r: usize) {
        slim as usize
    }
}

/// A slice-like value may store its length in 64 bits; on a 64-bit target this
/// behaves exactly like a conventional owning fat pointer.
impl<T> SlimmerPointee<u64> for Vec<T> {
    open spec fn spec_metadata(&self) -> nat {
        self@.len()
    }

    open spec fn spec_max_metadata() -> nat {
        u64::MAX as nat
    }

    open spec fn spec_narrow(native: nat) -> u64 {
        native as u64
    }

    open spec fn spec_widen(slim: u64) -> nat {
        slim as nat
    }

    proof fn lemma_narrow_roundtrip(native: nat) {
    }

    proof fn lemma_metadata_depends_on_view(a: &Self, b: &Self) {
    }

    fn metadata_of(&self) -> (r: usize) {
        slice_native_metadata(self.as_slice())
    }

    fn try_narrow(native: usize) -> (r: Option<u64>) {
        Some(native as u64)
    }

    fn widen(slim: u64) -> (r: usize) {
        slim as usize
    }
}

/// A string-like value may store its byte count in 8 bits: at most 255
/// bytes.
impl SlimmerPointee<u8> for String {
    open spec fn spec_metadata(&self) -> nat {
        utf8_byte_len(self@)
    }

    open spec fn spec_max_metadata() -> nat {
        u8::MAX as nat
    }

    open spec fn spec_narrow(native: nat) -> u8 {
        native as u8
    }

    open spec fn spec_widen(slim: u8) -> nat {
        slim as nat
    }

    proof fn lemma_narrow_roundtrip(native: nat) {
    }

    proof fn lemma_metadata_depends_on_view(a: &Self, b: &Self) {
    }

    fn metadata_of(&self) -> (r: usize) {
        string_native_metadata(self)
    }

    fn try_narrow(native: usize) -> (r: Option<u8>) {
        if native <= u8::MAX as usize {
            Some(native as u8)
        } else {
            None
        }
    }

    fn widen(slim: u8) -> (r: usize) {
        slim as usize
    }
}

/// A string-like value may store its byte count in 16 bits: at most 64 KiB.
impl SlimmerPointee<u16> for String {
    open spec fn spec_metadata(&self) -> nat {
        utf8_byte_len(self@)
    }

    open spec fn spec_max_metadata() -> nat {
        u16::MAX as nat
    }

    open spec fn spec_narrow(native: nat) -> u16 {
        native as u16
    }

    open spec fn spec_widen(slim: u16) -> nat {
        slim as nat
    }

    proof fn lemma_narrow_roundtrip(native: nat) {
    }

    proof fn lemma_metadata_depends_on_view(a: &Self, b: &Self) {
    }

    fn metadata_of(&self) -> (r: usize) {
        string_native_metadata(self)
    }

    fn try_narrow(native: usize) -> (r: Option<u16>) {
        if native <= u16::MAX as usize {
            Some(native as u16)
        } else {
            None
        }
    }

    fn widen(slim: u16) -> (r: usize) {
        slim as usize
    }
}

/// A string-like value may store its byte count in 32 bits: at most 4 GiB.
/// This is the default width.
impl SlimmerPointee<u32> for String {
    open spec fn spec_metadata(&self) -> nat {
        utf8_byte_len(self@)
    }

    open spec fn spec_max_metadata() -> nat {
        u32::MAX as nat
    }

    open spec fn spec_narrow(native: nat) -> u32 {
        native as u32
    }

    open spec fn spec_widen(slim: u32) -> nat {
        slim as nat
    }

    proof fn lemma_narrow_roundtrip(native: nat) {
    }

    proof fn lemma_metadata_depends_on_view(a: &Self, b: &Self) {
    }

    fn metadata_of(&self) -> (r: usize) {
        string_native_metadata(self)
    }

    fn try_narrow(native: usize) -> (r: Option<u32>) {
        if native <= u32::MAX as usize {
            Some(native as u32)
        } else {
            None
        }
    }

    fn widen(slim: u32) -> (r: usize) {
        slim as usize
    }
}

/// A string-like value may store its byte count in 64 bits; on a 64-bit
/// target this behaves exactly like a conventional owning fat pointer.
impl SlimmerPointee<u64> for String {
    open spec fn spec_metadata(&self) -> nat {
        utf8_byte_len(self@)
    }

    open spec fn spec_max_metadata() -> nat {
        u64::MAX as nat
    }

    open spec fn spec_narrow(native: nat) -> u64 {
        native as u64
    }

    open spec fn spec_widen(slim: u64) -> nat {
        slim as nat
    }

    proof fn lemma_narrow_roundtrip(native: nat) {
    }

    proof fn lemma_metadata_depends_on_view(a: &Self, b: &Self) {
    }

    fn metadata_of(&self) -> (r: usize) {
        string_native_metadata(self)
    }

    fn try_narrow(native: usize) -> (r: Option<u64>) {
        Some(native as u64)
    }

    fn widen(slim: u64) -> (r: usize) {
        slim as usize
    }
}

/// A string-like value may store its byte count at the platform's native
/// width, which narrows nothing but always round-trips.
impl SlimmerPointee<usize> for String {
    open spec fn spec_metadata(&self) -> nat {
        utf8_byte_len(self@)
    }

    open spec fn spec_max_metadata() -> nat {
        usize::MAX as nat
    }

    open spec fn spec_narrow(native: nat) -> usize {
        native as usize
    }

    open spec fn spec_widen(slim: usize) -> nat {
        slim as nat
    }

    proof fn lemma_narrow_roundtrip(native: nat) {
    }

    proof fn lemma_metadata_depends_on_view(a: &Self, b: &Self) {
    }

    fn metadata_of(&self) -> (r: usize) {
        string_native_metadata(self)
    }

    fn try_narrow(native: usize) -> (r: Option<usize>) {
        Some(native)
    }

    fn widen(slim: usize) -> (r: usize) {
        slim
    }
}

/// A slice-like value may store its length at the platform's native width,
/// which narrows nothing but always round-trips.
impl<T> SlimmerPointee<usize> for Vec<T> {
    open spec fn spec_metadata(&self) -> nat {
        self@.len()
    }

    open spec fn spec_max_metadata() -> nat {
        usize::MAX as nat
    }

    open spec fn spec_narrow(native: nat) -> usize {
        native as usize
    }

    open spec fn spec_widen(slim: usize) -> nat {
        slim as nat
    }

    proof fn lemma_narrow_roundtrip(native: nat) {
    }

    proof fn lemma_metadata_depends_on_view(a: &Self, b: &Self) {
    }

    fn metadata_of(&self) -> (r: usize) {
        slice_native_metadata(self.as_slice())
    }

    fn try_narrow(native: usize) -> (r: Option<usize>) {
        Some(native)
    }

    fn widen(slim: usize) -> (r: usize) {
        slim
    }
}

} // verus!
