use std::cmp::Ordering;
use std::collections::hash_map::DefaultHasher;
use std::hash::Hash;
use std::hash::Hasher;

use slimmer_box::slim_pointee::ZeroMetadata;
use slimmer_box::SlimmerBox;
use slimmer_box::SlimmerPointee;

#[test]
fn roundtrip() {
    // A statically sized value uses the zero-width metadata.
    let array: [u64; 4] = [1, 2, 3, 4];
    let boxed: SlimmerBox<[u64; 4], ZeroMetadata> = SlimmerBox::new(&array);
    println!("slimmerbox (array): {boxed:?}");
    let result = SlimmerBox::into_box(boxed);
    println!("       box (array): {result:?}");
    assert_eq!(result, [1, 2, 3, 4]);

    // A slice-like value defaults to 32-bit metadata.
    let boxed_slice: SlimmerBox<Vec<u64>> = SlimmerBox::new(&vec![1u64, 2, 3, 4]);
    println!("slimmerbox (slice): {boxed_slice:?}");
    let result = SlimmerBox::into_box(boxed_slice);
    println!("       box (slice): {result:?}");
    assert_eq!(result, vec![1u64, 2, 3, 4]);
}

#[test]
fn zst() {
    let boxed_unit: SlimmerBox<(), ZeroMetadata> = SlimmerBox::new(&());
    println!("{:?}", boxed_unit);
    let unit2 = SlimmerBox::into_box(boxed_unit.clone());
    assert_eq!(unit2, ());
    let _ = SlimmerBox::into_box(boxed_unit);
}

#[test]
fn empty_slice() {
    let boxed_slice: SlimmerBox<Vec<u64>> = SlimmerBox::new(&Vec::new());
    println!("{:?}", boxed_slice);
    assert_eq!(boxed_slice.len(), 0);
    assert_eq!(SlimmerBox::metadata(&boxed_slice), 0);
    assert_eq!(SlimmerBox::into_box(boxed_slice), Vec::<u64>::new());
}

#[test]
fn concrete_scenario_four_u64_in_u32_box() {
    // A 4-element 64-bit-integer slice narrowed into a 32-bit-metadata box:
    // the stored metadata field is the integer 4, and converting back to a
    // conventional owned value reproduces the elements in order.
    let v: Vec<u64> = vec![1, 2, 3, 4];
    let boxed: SlimmerBox<Vec<u64>, u32> = SlimmerBox::new(&v);
    assert_eq!(SlimmerBox::slim_metadata(&boxed), 4u32);
    assert_eq!(SlimmerBox::metadata(&boxed), 4usize);
    assert_eq!(SlimmerBox::into_box(boxed), vec![1u64, 2, 3, 4]);
}

#[test]
fn round_trip_all_widths() {
    let v: Vec<u16> = vec![10, 20, 30];
    let b8: SlimmerBox<Vec<u16>, u8> = SlimmerBox::new(&v);
    assert_eq!(SlimmerBox::slim_metadata(&b8), 3u8);
    assert_eq!(SlimmerBox::into_box(b8), v);
    let b16: SlimmerBox<Vec<u16>, u16> = SlimmerBox::new(&v);
    assert_eq!(SlimmerBox::slim_metadata(&b16), 3u16);
    assert_eq!(SlimmerBox::into_box(b16), v);
    let b32: SlimmerBox<Vec<u16>, u32> = SlimmerBox::new(&v);
    assert_eq!(SlimmerBox::slim_metadata(&b32), 3u32);
    assert_eq!(SlimmerBox::into_box(b32), v);
    let b64: SlimmerBox<Vec<u16>, u64> = SlimmerBox::new(&v);
    assert_eq!(SlimmerBox::slim_metadata(&b64), 3u64);
    assert_eq!(SlimmerBox::into_box(b64), v);
    let bn: SlimmerBox<Vec<u16>, usize> = SlimmerBox::new(&v);
    assert_eq!(SlimmerBox::slim_metadata(&bn), 3usize);
    assert_eq!(SlimmerBox::into_box(bn), v);
}

#[test]
fn overflow_boundary_u8() {
    // 256 elements cannot fit an 8-bit element count; 255 can.
    let long: Vec<u8> = vec![7; 256];
    let r = SlimmerBox::<Vec<u8>, u8>::try_new(&long);
    assert!(r.is_err());
    let r = SlimmerBox::<Vec<u8>, u8>::try_from_box(long);
    assert!(r.is_err());

    let ok: Vec<u8> = vec![7; 255];
    let b = SlimmerBox::<Vec<u8>, u8>::try_new(&ok).unwrap();
    assert_eq!(SlimmerBox::slim_metadata(&b), 255u8);
    assert_eq!(SlimmerBox::into_box(b), ok);
}

#[test]
fn overflow_boundary_u16() {
    let long: Vec<u8> = vec![9; 65536];
    assert!(SlimmerBox::<Vec<u8>, u16>::try_new(&long).is_err());
    let ok: Vec<u8> = vec![9; 65535];
    let b = SlimmerBox::<Vec<u8>, u16>::try_from_box(ok).unwrap();
    assert_eq!(SlimmerBox::metadata(&b), 65535usize);
}

#[test]
fn overflow_error_is_reportable() {
    let long: Vec<u8> = vec![1; 300];
    let err = SlimmerBox::<Vec<u8>, u8>::try_new(&long).unwrap_err();
    let rendered = format!("{:?}", err);
    assert!(rendered.contains("PointerMetadataDoesNotFitError"));
}

#[test]
fn error_reports_byte_widths() {
    let long: Vec<u8> = vec![1; 300];
    let err = SlimmerBox::<Vec<u8>, u8>::try_new(&long).unwrap_err();
    let (native, slim) = err.metadata_byte_widths();
    assert_eq!(native, std::mem::size_of::<usize>());
    assert_eq!(slim, 1);
}

#[test]
fn zero_size_still_dereferences() {
    let empty: Vec<u8> = Vec::new();
    let b = SlimmerBox::<Vec<u8>, u8>::try_new(&empty).unwrap();
    assert_eq!(b.as_slice(), &[] as &[u8]);
    assert_eq!(b.len(), 0);
    assert_eq!(SlimmerBox::slim_metadata(&b), 0u8);
    assert_eq!(SlimmerBox::into_box(b), empty);
}

#[test]
fn string_box_metadata_counts_bytes() {
    let hello = String::from("hello");
    let b: SlimmerBox<String, u8> = SlimmerBox::new(&hello);
    assert_eq!(SlimmerBox::slim_metadata(&b), 5u8);
    assert_eq!(SlimmerBox::metadata(&b), 5usize);
    assert_eq!(SlimmerBox::into_box(b), hello);

    // A two-byte character makes the byte count differ from the character
    // count: the metadata is measured in bytes.
    let accented = String::from("h\u{e9}llo");
    assert_eq!(accented.chars().count(), 5);
    let b: SlimmerBox<String, u16> = SlimmerBox::new(&accented);
    assert_eq!(SlimmerBox::metadata(&b), 6usize);
    assert_eq!(SlimmerBox::into_box(b), accented);
}

#[test]
fn string_box_overflow_boundary() {
    let long: String = "x".repeat(256);
    assert!(SlimmerBox::<String, u8>::try_new(&long).is_err());
    assert!(SlimmerBox::<String, u8>::try_from_box(long).is_err());
    let ok: String = "x".repeat(255);
    let b = SlimmerBox::<String, u8>::try_from_box(ok).unwrap();
    assert_eq!(SlimmerBox::metadata(&b), 255usize);
}

#[test]
fn ownership_transfer_disarms() {
    // Transferring ownership consumes the box, so only the released value
    // remains to be dropped; dropping a never-transferred box releases its
    // contents exactly once as well.
    let b = SlimmerBox::<Vec<u64>, u32>::new(&vec![5, 6, 7]);
    let released = SlimmerBox::into_box(b);
    assert_eq!(released, vec![5, 6, 7]);
    drop(released);

    let kept = SlimmerBox::<Vec<u64>, u32>::new(&vec![8, 9]);
    drop(kept);
}

#[test]
fn clone_is_independent() {
    let original: SlimmerBox<Vec<u64>, u32> = SlimmerBox::new(&vec![1, 2, 3]);
    let mut copy = original.clone();
    assert_eq!(copy.as_slice(), original.as_slice());

    copy.set(0, 99);
    assert_eq!(copy.as_slice(), &[99u64, 2, 3]);
    assert_eq!(original.as_slice(), &[1u64, 2, 3]);
}

#[test]
fn eq_follows_contents() {
    let a: SlimmerBox<Vec<u64>, u32> = SlimmerBox::new(&vec![1, 2, 3]);
    let b: SlimmerBox<Vec<u64>, u32> = SlimmerBox::from_box(vec![1, 2, 3]);
    let c: SlimmerBox<Vec<u64>, u32> = SlimmerBox::new(&vec![1, 2, 4]);
    assert!(a == b);
    assert!(a != c);

    // The same contents compare equal under a narrower width too.
    let a8: SlimmerBox<Vec<u64>, u8> = SlimmerBox::new(&vec![1, 2, 3]);
    let b8: SlimmerBox<Vec<u64>, u8> = SlimmerBox::from_box(vec![1, 2, 3]);
    assert!(a8 == b8);
}

#[test]
fn hash_follows_contents() {
    let a: SlimmerBox<Vec<u64>, u32> = SlimmerBox::new(&vec![4, 5, 6]);
    let b: SlimmerBox<Vec<u64>, u32> = SlimmerBox::from_box(vec![4, 5, 6]);
    let mut ha = DefaultHasher::new();
    a.hash(&mut ha);
    let mut hb = DefaultHasher::new();
    b.hash(&mut hb);
    assert_eq!(ha.finish(), hb.finish());
}

#[test]
fn ordering_is_lexicographic() {
    let small: SlimmerBox<Vec<u64>, u32> = SlimmerBox::new(&vec![1, 2, 3]);
    let large: SlimmerBox<Vec<u64>, u32> = SlimmerBox::new(&vec![1, 2, 4]);
    let prefix: SlimmerBox<Vec<u64>, u32> = SlimmerBox::new(&vec![1, 2]);
    let same: SlimmerBox<Vec<u64>, u32> = SlimmerBox::new(&vec![1, 2, 3]);

    assert_eq!(small.partial_cmp(&large), Some(Ordering::Less));
    assert_eq!(large.partial_cmp(&small), Some(Ordering::Greater));
    assert_eq!(prefix.partial_cmp(&small), Some(Ordering::Less));
    assert_eq!(small.partial_cmp(&same), Some(Ordering::Equal));
    assert!(small < large);
    assert!(prefix < small);

    // The box orders exactly as the dereferenced contents order.
    assert_eq!(
        small.partial_cmp(&large),
        small.as_slice().partial_cmp(large.as_slice()),
    );
    assert_eq!(
        prefix.partial_cmp(&small),
        prefix.as_slice().partial_cmp(small.as_slice()),
    );
}

#[test]
fn accessors_reconstruct_full_view() {
    let b: SlimmerBox<Vec<u32>, u16> = SlimmerBox::new(&vec![11, 22, 33]);
    assert_eq!(b.len(), 3);
    assert_eq!(*b.get(0), 11);
    assert_eq!(*b.get(2), 33);
    assert_eq!(b.as_slice(), &[11u32, 22, 33]);
    assert_eq!(b.borrow_contents(), &vec![11u32, 22, 33]);
}

#[test]
fn set_changes_only_the_pointee() {
    let mut b: SlimmerBox<Vec<u8>, u32> = SlimmerBox::new(&vec![1, 2, 3]);
    b.set(1, 42);
    assert_eq!(b.as_slice(), &[1u8, 42, 3]);
    assert_eq!(SlimmerBox::slim_metadata(&b), 3u32);
    assert_eq!(SlimmerBox::metadata(&b), 3usize);
}

#[test]
fn metadata_reads_off_the_live_value() {
    // The native metadata accessor reports the true length, not anything
    // recoverable from the argument value itself.
    let v: Vec<u8> = vec![0; 77];
    assert_eq!(<Vec<u8> as SlimmerPointee<u32>>::metadata_of(&v), 77);
    let b = SlimmerBox::<Vec<u8>, u32>::from_box(v);
    assert_eq!(SlimmerBox::metadata(&b), 77);
}

#[test]
fn new_clones_rather_than_aliases() {
    let source: Vec<u64> = vec![3, 1, 4];
    let b = SlimmerBox::<Vec<u64>, u32>::new(&source);
    // The source is still usable and untouched after construction.
    assert_eq!(source, vec![3, 1, 4]);
    assert_eq!(SlimmerBox::into_box(b), source);
}
