use classfile::resolve_class_name;
use classfile::ClassError;
use classfile::ConstantPool;
use classfile::ConstantPoolItem;
use classfile::MinimalJavaClass;

fn push_u16(v: &mut Vec<u8>, x: u16) {
    v.push((x >> 8) as u8);
    v.push((x & 0xff) as u8);
}

/// Magic, version fields, and the pool count.
fn header(pool_count: u16) -> Vec<u8> {
    let mut v = vec![0xca, 0xfe, 0xba, 0xbe, 0x00, 0x00, 0x00, 0x34];
    push_u16(&mut v, pool_count);
    v
}

fn push_utf8(v: &mut Vec<u8>, s: &str) {
    v.push(1);
    push_u16(v, s.len() as u16);
    v.extend_from_slice(s.as_bytes());
}

fn push_class(v: &mut Vec<u8>, name_index: u16) {
    v.push(7);
    push_u16(v, name_index);
}

/// Flags, the two class indices, and an empty interface table.
fn push_tail(v: &mut Vec<u8>, access_flags: u16, this_class: u16, super_class: u16) {
    push_u16(v, access_flags);
    push_u16(v, this_class);
    push_u16(v, super_class);
    push_u16(v, 0);
}

/// A well-formed file: `#1 Utf8("a/B")`, `#2 Class{1}`, `#3 Utf8(object)`,
/// `#4 Class{3}`, `this_class = 2`, `super_class = 4`.
fn simple_class(access_flags: u16) -> Vec<u8> {
    let mut v = header(5);
    push_utf8(&mut v, "a/B");
    push_class(&mut v, 1);
    push_utf8(&mut v, "java/lang/Object");
    push_class(&mut v, 3);
    push_tail(&mut v, access_flags, 2, 4);
    v
}

#[test]
fn parses_names_and_flags() {
    let bytes = simple_class(0x0021);
    let class = MinimalJavaClass::parse(&bytes).unwrap();
    assert_eq!(class.this_class().unwrap(), "a/B");
    assert_eq!(class.super_class().unwrap(), Some(String::from("java/lang/Object")));
    assert!(class.is_public());
    assert!(!class.is_interface());
    assert!(!class.is_synthetic());
    assert!(!class.is_annotation());
    assert!(!class.is_enum());
}

#[test]
fn decoding_twice_yields_identical_results() {
    let bytes = simple_class(0x0601);
    let first = MinimalJavaClass::parse(&bytes);
    let second = MinimalJavaClass::parse(&bytes);
    assert!(first == second);
    let first = first.unwrap();
    let second = second.unwrap();
    assert_eq!(first.this_class().unwrap(), second.this_class().unwrap());
    assert_eq!(first.super_class().unwrap(), second.super_class().unwrap());
    assert_eq!(first.is_interface(), second.is_interface());
}

#[test]
fn bad_magic_fails_with_format_error() {
    let mut bytes = simple_class(0x0021);
    bytes[3] = 0xbf;
    assert!(MinimalJavaClass::parse(&bytes) == Err(ClassError::FormatError));
    let other = vec![0x00, 0x01, 0x02, 0x03, 0x00, 0x00, 0x00, 0x34, 0x00, 0x00];
    assert!(MinimalJavaClass::parse(&other) == Err(ClassError::FormatError));
}

#[test]
fn short_buffer_fails_with_truncated_input() {
    let bytes = vec![0xca, 0xfe, 0xba];
    assert!(MinimalJavaClass::parse(&bytes) == Err(ClassError::TruncatedInput));
    let bytes = vec![0xca, 0xfe, 0xba, 0xbe, 0x00, 0x00];
    assert!(MinimalJavaClass::parse(&bytes) == Err(ClassError::TruncatedInput));
}

#[test]
fn truncated_entry_fails_with_truncated_input() {
    let mut bytes = header(2);
    bytes.push(7);
    bytes.push(0);
    // The Class entry needs one more byte.
    assert!(MinimalJavaClass::parse(&bytes) == Err(ClassError::TruncatedInput));
}

#[test]
fn missing_interface_table_fails_with_truncated_input() {
    let mut bytes = header(1);
    push_u16(&mut bytes, 0x0021);
    push_u16(&mut bytes, 0);
    push_u16(&mut bytes, 0);
    push_u16(&mut bytes, 3);
    // Three interface indices are declared but none follows.
    assert!(MinimalJavaClass::parse(&bytes) == Err(ClassError::TruncatedInput));
}

#[test]
fn unknown_tag_fails_with_offset_and_value() {
    let mut bytes = header(2);
    bytes.push(99);
    assert!(
        MinimalJavaClass::parse(&bytes) == Err(
            ClassError::UnknownConstantTag { offset: 10, tag: 99 },
        )
    );
}

#[test]
fn long_entry_takes_two_slots() {
    // #1..#2 Long, #3 Utf8("a/B"), #4 Class{3}.
    let mut v = header(5);
    v.push(5);
    v.extend_from_slice(&[0, 0, 0, 0, 0, 0, 0, 42]);
    push_utf8(&mut v, "a/B");
    push_class(&mut v, 3);
    push_tail(&mut v, 0x0021, 4, 0);
    let class = MinimalJavaClass::parse(&v).unwrap();
    // The entries after the placeholder slot keep their own indices.
    assert_eq!(class.this_class().unwrap(), "a/B");
}

#[test]
fn placeholder_slot_fails_when_resolved() {
    // As above, but this_class points into the Long's continuation slot.
    let mut v = header(5);
    v.push(5);
    v.extend_from_slice(&[0, 0, 0, 0, 0, 0, 0, 42]);
    push_utf8(&mut v, "a/B");
    push_class(&mut v, 3);
    push_tail(&mut v, 0x0021, 2, 0);
    let class = MinimalJavaClass::parse(&v).unwrap();
    assert!(class.this_class() == Err(ClassError::PlaceholderDereference { index: 2 }));
}

#[test]
fn double_entry_takes_two_slots() {
    let mut v = header(5);
    v.push(6);
    v.extend_from_slice(&[64, 9, 33, 250, 252, 139, 0, 122]);
    push_utf8(&mut v, "pi/Holder");
    push_class(&mut v, 3);
    push_tail(&mut v, 0x0021, 4, 0);
    let class = MinimalJavaClass::parse(&v).unwrap();
    assert_eq!(class.this_class().unwrap(), "pi/Holder");
    let mut v2 = v.clone();
    let n = v2.len();
    // Point this_class at the continuation slot instead.
    v2[n - 5] = 2;
    let class2 = MinimalJavaClass::parse(&v2).unwrap();
    assert!(class2.this_class() == Err(ClassError::PlaceholderDereference { index: 2 }));
}

#[test]
fn utf8_text_length_matches_declared_length() {
    // A two-character name whose UTF-8 encoding is four bytes long.
    let name = "\u{3b1}\u{3b2}";
    assert_eq!(name.len(), 4);
    let mut v = header(3);
    push_utf8(&mut v, name);
    push_class(&mut v, 1);
    push_tail(&mut v, 0x0021, 2, 0);
    let class = MinimalJavaClass::parse(&v).unwrap();
    let text = class.this_class().unwrap();
    assert_eq!(text.len(), 4);
    assert_eq!(text, name);
}

#[test]
fn invalid_utf8_fails() {
    let mut v = header(3);
    v.push(1);
    push_u16(&mut v, 2);
    v.push(0xff);
    v.push(0xfe);
    push_class(&mut v, 1);
    push_tail(&mut v, 0x0021, 2, 0);
    assert!(MinimalJavaClass::parse(&v) == Err(ClassError::InvalidUtf8));
}

#[test]
fn interface_bit_alone_decides_is_interface() {
    let pool = ConstantPool(vec![]);
    let class = MinimalJavaClass::new(pool, 0x0601, 0, 0);
    assert!(class.is_interface());
    assert!(class.is_public());
    assert!(!class.is_annotation());
    assert!(!class.is_synthetic());
    assert!(!class.is_enum());
}

#[test]
fn enum_and_synthetic_and_annotation_bits() {
    let class = MinimalJavaClass::new(ConstantPool(vec![]), 0x7000, 0, 0);
    assert!(class.is_synthetic());
    assert!(class.is_annotation());
    assert!(class.is_enum());
    assert!(!class.is_public());
    assert!(!class.is_interface());
}

#[test]
fn hand_built_pool_resolves_this_class() {
    let pool = ConstantPool(
        vec![
            ConstantPoolItem::Utf8 { value: String::from("a/B") },
            ConstantPoolItem::Class { name_index: 1 },
        ],
    );
    let class = MinimalJavaClass::new(pool, 0, 2, 0);
    assert_eq!(class.this_class().unwrap(), "a/B");
}

#[test]
fn resolver_works_on_hand_built_pools() {
    let pool = ConstantPool(
        vec![
            ConstantPoolItem::Utf8 { value: String::from("x/Y") },
            ConstantPoolItem::Class { name_index: 1 },
            ConstantPoolItem::Integer { bytes: 7 },
        ],
    );
    assert_eq!(resolve_class_name(&pool, 2).unwrap(), "x/Y");
    assert!(
        resolve_class_name(&pool, 3) == Err(
            ClassError::TypeMismatch { index: 3, found: ConstantPoolItem::Integer { bytes: 7 } },
        )
    );
    assert!(resolve_class_name(&pool, 0) == Err(ClassError::IndexOutOfRange { index: 0 }));
    assert!(resolve_class_name(&pool, 9) == Err(ClassError::IndexOutOfRange { index: 9 }));
}

#[test]
fn non_class_this_class_fails_with_type_mismatch() {
    // this_class points straight at the Utf8 entry.
    let bytes = simple_class(0x0021);
    let mut bytes = bytes;
    let n = bytes.len();
    bytes[n - 5] = 1;
    let class = MinimalJavaClass::parse(&bytes).unwrap();
    assert!(matches!(class.this_class(), Err(ClassError::TypeMismatch { index: 1, .. })));
}

#[test]
fn class_name_index_to_non_utf8_fails_with_type_mismatch() {
    // #1 Class{2}, #2 Class{1}: the name index leads to another Class.
    let mut v = header(3);
    push_class(&mut v, 2);
    push_class(&mut v, 1);
    push_tail(&mut v, 0x0021, 1, 0);
    let class = MinimalJavaClass::parse(&v).unwrap();
    assert!(matches!(class.this_class(), Err(ClassError::TypeMismatch { index: 2, .. })));
}

#[test]
fn super_class_zero_means_no_supertype() {
    let mut v = header(3);
    push_utf8(&mut v, "java/lang/Object");
    push_class(&mut v, 1);
    push_tail(&mut v, 0x0021, 2, 0);
    let class = MinimalJavaClass::parse(&v).unwrap();
    assert_eq!(class.super_class().unwrap(), None);
}

#[test]
fn super_class_resolution_fails_like_this_class() {
    // super_class points at the Utf8 entry.
    let mut v = header(3);
    push_utf8(&mut v, "java/lang/Object");
    push_class(&mut v, 1);
    push_tail(&mut v, 0x0021, 2, 1);
    let class = MinimalJavaClass::parse(&v).unwrap();
    assert!(matches!(class.super_class(), Err(ClassError::TypeMismatch { index: 1, .. })));
}

#[test]
fn every_known_tag_decodes() {
    // One entry of every fixed-size kind, then the name pair.
    let mut v = header(16);
    v.push(9);
    push_u16(&mut v, 2);
    push_u16(&mut v, 3);
    v.push(10);
    push_u16(&mut v, 2);
    push_u16(&mut v, 3);
    v.push(11);
    push_u16(&mut v, 2);
    push_u16(&mut v, 3);
    v.push(8);
    push_u16(&mut v, 1);
    v.push(3);
    v.extend_from_slice(&[0, 0, 0, 5]);
    v.push(4);
    v.extend_from_slice(&[63, 128, 0, 0]);
    v.push(12);
    push_u16(&mut v, 1);
    push_u16(&mut v, 1);
    v.push(15);
    v.push(5);
    push_u16(&mut v, 2);
    v.push(16);
    push_u16(&mut v, 1);
    v.push(17);
    push_u16(&mut v, 0);
    push_u16(&mut v, 7);
    v.push(18);
    push_u16(&mut v, 0);
    push_u16(&mut v, 7);
    v.push(19);
    push_u16(&mut v, 1);
    v.push(20);
    push_u16(&mut v, 1);
    push_utf8(&mut v, "pkg/Full");
    push_class(&mut v, 14);
    push_tail(&mut v, 0x0021, 15, 0);
    let class = MinimalJavaClass::parse(&v).unwrap();
    assert_eq!(class.this_class().unwrap(), "pkg/Full");
}

#[test]
fn empty_pool_count_zero_and_one_decode_alike() {
    // A pool count of 0 and of 1 both leave the pool empty.
    let mut v0 = header(0);
    push_tail(&mut v0, 0x0021, 0, 0);
    let class0 = MinimalJavaClass::parse(&v0).unwrap();
    assert!(class0.this_class() == Err(ClassError::IndexOutOfRange { index: 0 }));
    let mut v1 = header(1);
    push_tail(&mut v1, 0x0021, 0, 0);
    let class1 = MinimalJavaClass::parse(&v1).unwrap();
    assert!(class1.this_class() == Err(ClassError::IndexOutOfRange { index: 0 }));
}

#[test]
fn out_of_range_name_index_fails() {
    // #1 Class{9}: the name index points past the pool.
    let mut v = header(2);
    push_class(&mut v, 9);
    push_tail(&mut v, 0x0021, 1, 0);
    let class = MinimalJavaClass::parse(&v).unwrap();
    assert!(class.this_class() == Err(ClassError::IndexOutOfRange { index: 9 }));
}

#[test]
fn unknown_tag_offset_counts_earlier_entries() {
    // A 3-byte Class entry first: the bad tag lies at offset 13.
    let mut v = header(3);
    push_class(&mut v, 1);
    v.push(21);
    assert!(
        MinimalJavaClass::parse(&v) == Err(
            ClassError::UnknownConstantTag { offset: 13, tag: 21 },
        )
    );
}

#[test]
fn long_payload_bytes_are_not_reinterpreted_as_entries() {
    // The Long's payload imitates Class and Long tags; the decoder must
    // consume all eight bytes as payload and resume at the Utf8 entry.
    let mut v = header(5);
    v.push(5);
    v.extend_from_slice(&[7, 0, 1, 7, 0, 1, 5, 9]);
    push_utf8(&mut v, "a/B");
    push_class(&mut v, 3);
    push_tail(&mut v, 0x0021, 4, 0);
    let class = MinimalJavaClass::parse(&v).unwrap();
    assert_eq!(class.this_class().unwrap(), "a/B");
}
