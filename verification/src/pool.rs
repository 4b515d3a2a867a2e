//! The constant pool: its entries, their decoder, and name resolution.

use vstd::prelude::*;
use vstd::utf8::decode_utf8;
use vstd::utf8::valid_utf8;

use crate::error::ClassError;
use crate::model::be_u16;
use crate::model::be_u32;
use crate::model::be_u64;
use crate::model::entry_at;
use crate::model::pool_from;
use crate::model::takes_two_slots;
use crate::model::ErrorModel;
use crate::model::ItemModel;
use crate::model::resolve_name;

verus! {

/// One constant-pool entry. `Placeholder` is produced only by the decoder,
/// for the continuation slot that follows a `Long` or a `Double`; no tag
/// byte encodes it.
#[allow(inconsistent_fields)]
#[derive(Debug, PartialEq)]
pub enum ConstantPoolItem {
    Class { name_index: u16 },
    Fieldref { class_index: u16, name_and_type_index: u16 },
    Methodref { class_index: u16, name_and_type_index: u16 },
    InterfaceMethodref { class_index: u16, name_and_type_index: u16 },
    StringRef { string_index: u16 },
    Integer { bytes: u32 },
    Float { bytes: u32 },
    Long { bytes: u64 },
    Double { bytes: u64 },
    NameAndType { name_index: u16, descriptor_index: u16 },
    Utf8 { value: String },
    MethodHandle { reference_kind: u8, reference_index: u16 },
    MethodType { descriptor_index: u16 },
    Dynamic { bootstrap_method_attr_index: u16, name_and_type_index: u16 },
    InvokeDynamic { bootstrap_method_attr_index: u16, name_and_type_index: u16 },
    Module { name_index: u16 },
    Package { name_index: u16 },
    Placeholder,
}

impl View for ConstantPoolItem {
    type V = ItemModel;

    open spec fn view(&self) -> ItemModel {
        match self {
            ConstantPoolItem::Class { name_index } => ItemModel::Class { name_index: *name_index },
            ConstantPoolItem::Fieldref { class_index, name_and_type_index } => ItemModel::Fieldref {
                class_index: *class_index,
                name_and_type_index: *name_and_type_index,
            },
            ConstantPoolItem::Methodref { class_index, name_and_type_index } => ItemModel::Methodref {
                class_index: *class_index,
                name_and_type_index: *name_and_type_index,
            },
            ConstantPoolItem::InterfaceMethodref {
                class_index,
                name_and_type_index,
            } => ItemModel::InterfaceMethodref {
                class_index: *class_index,
                name_and_type_index: *name_and_type_index,
            },
            ConstantPoolItem::StringRef { string_index } => ItemModel::StringRef {
                string_index: *string_index,
            },
            ConstantPoolItem::Integer { bytes } => ItemModel::Integer { bytes: *bytes },
            ConstantPoolItem::Float { bytes } => ItemModel::Float { bytes: *bytes },
            ConstantPoolItem::Long { bytes } => ItemModel::Long { bytes: *bytes },
            ConstantPoolItem::Double { bytes } => ItemModel::Double { bytes: *bytes },
            ConstantPoolItem::NameAndType { name_index, descriptor_index } => ItemModel::NameAndType {
                name_index: *name_index,
                descriptor_index: *descriptor_index,
            },
            ConstantPoolItem::Utf8 { value } => ItemModel::Utf8 { text: value@ },
            ConstantPoolItem::MethodHandle { reference_kind, reference_index } => ItemModel::MethodHandle {
                reference_kind: *reference_kind,
                reference_index: *reference_index,
            },
            ConstantPoolItem::MethodType { descriptor_index } => ItemModel::MethodType {
                descriptor_index: *descriptor_index,
            },
            ConstantPoolItem::Dynamic {
                bootstrap_method_attr_index,
                name_and_type_index,
            } => ItemModel::Dynamic {
                bootstrap_method_attr_index: *bootstrap_method_attr_index,
                name_and_type_index: *name_and_type_index,
            },
            ConstantPoolItem::InvokeDynamic {
                bootstrap_method_attr_index,
                name_and_type_index,
            } => ItemModel::InvokeDynamic {
                bootstrap_method_attr_index: *bootstrap_method_attr_index,
                name_and_type_index: *name_and_type_index,
            },
            ConstantPoolItem::Module { name_index } => ItemModel::Module {
                name_index: *name_index,
            },
            ConstantPoolItem::Package { name_index } => ItemModel::Package {
                name_index: *name_index,
            },
            ConstantPoolItem::Placeholder => ItemModel::Placeholder,
        }
    }
}

impl Clone for ConstantPoolItem {
    fn clone(&self) -> (r: Self)
        ensures
            r == *self,
    {
        match self {
            ConstantPoolItem::Class { name_index } => ConstantPoolItem::Class {
                name_index: *name_index,
            },
            ConstantPoolItem::Fieldref {
                class_index,
                name_and_type_index,
            } => ConstantPoolItem::Fieldref {
                class_index: *class_index,
                name_and_type_index: *name_and_type_index,
            },
            ConstantPoolItem::Methodref {
                class_index,
                name_and_type_index,
            } => ConstantPoolItem::Methodref {
                class_index: *class_index,
                name_and_type_index: *name_and_type_index,
            },
            ConstantPoolItem::InterfaceMethodref {
                class_index,
                name_and_type_index,
            } => ConstantPoolItem::InterfaceMethodref {
                class_index: *class_index,
                name_and_type_index: *name_and_type_index,
            },
            ConstantPoolItem::StringRef { string_index } => ConstantPoolItem::StringRef {
                string_index: *string_index,
            },
            ConstantPoolItem::Integer { bytes } => ConstantPoolItem::Integer { bytes: *bytes },
            ConstantPoolItem::Float { bytes } => ConstantPoolItem::Float { bytes: *bytes },
            ConstantPoolItem::Long { bytes } => ConstantPoolItem::Long { bytes: *bytes },
            ConstantPoolItem::Double { bytes } => ConstantPoolItem::Double { bytes: *bytes },
            ConstantPoolItem::NameAndType {
                name_index,
                descriptor_index,
            } => ConstantPoolItem::NameAndType {
                name_index: *name_index,
                descriptor_index: *descriptor_index,
            },
            ConstantPoolItem::Utf8 { value } => ConstantPoolItem::Utf8 { value: value.clone() },
            ConstantPoolItem::MethodHandle {
                reference_kind,
                reference_index,
            } => ConstantPoolItem::MethodHandle {
                reference_kind: *reference_kind,
                reference_index: *reference_index,
            },
            ConstantPoolItem::MethodType { descriptor_index } => ConstantPoolItem::MethodType {
                descriptor_index: *descriptor_index,
            },
            ConstantPoolItem::Dynamic {
                bootstrap_method_attr_index,
                name_and_type_index,
            } => ConstantPoolItem::Dynamic {
                bootstrap_method_attr_index: *bootstrap_method_attr_index,
                name_and_type_index: *name_and_type_index,
            },
            ConstantPoolItem::InvokeDynamic {
                bootstrap_method_attr_index,
                name_and_type_index,
            } => ConstantPoolItem::InvokeDynamic {
                bootstrap_method_attr_index: *bootstrap_method_attr_index,
                name_and_type_index: *name_and_type_index,
            },
            ConstantPoolItem::Module { name_index } => ConstantPoolItem::Module {
                name_index: *name_index,
            },
            ConstantPoolItem::Package { name_index } => ConstantPoolItem::Package {
                name_index: *name_index,
            },
            ConstantPoolItem::Placeholder => ConstantPoolItem::Placeholder,
        }
    }
}

/// The decoded constant pool: the entry for logical index `i` (1-based)
/// lives at vector position `i - 1`.
#[derive(PartialEq)]
pub struct ConstantPool(pub Vec<ConstantPoolItem>);

/// The model of a sequence of decoded entries: each entry's model, in order.
pub open spec fn items_model(items: Seq<ConstantPoolItem>) -> Seq<ItemModel> {
    items.map_values(|item: ConstantPoolItem| item@)
}

impl View for ConstantPool {
    type V = Seq<ItemModel>;

    open spec fn view(&self) -> Seq<ItemModel> {
        items_model(self.0@)
    }
}

/// The 16-bit big-endian value at `pos`.
pub(crate) fn read_be_u16(b: &Vec<u8>, pos: usize) -> (r: u16)
    requires
        pos + 2 <= b.len(),
    ensures
        r == be_u16(b@, pos as int),
{
    (b[pos] as u16) * 0x100 + (b[pos + 1] as u16)
}

/// The 32-bit big-endian value at `pos`.
fn read_be_u32(b: &Vec<u8>, pos: usize) -> (r: u32)
    requires
        pos + 4 <= b.len(),
    ensures
        r == be_u32(b@, pos as int),
{
    (b[pos] as u32) * 0x1000000 + (b[pos + 1] as u32) * 0x10000 + (b[pos + 2] as u32) * 0x100 + (b[
        pos + 3
    ] as u32)
}

/// The 64-bit big-endian value at `pos`.
fn read_be_u64(b: &Vec<u8>, pos: usize) -> (r: u64)
    requires
        pos + 8 <= b.len(),
    ensures
        r == be_u64(b@, pos as int),
{
    (read_be_u32(b, pos) as u64) * 0x100000000 + (read_be_u32(b, pos + 4) as u64)
}

/// Relies on std's `String::from_utf8`: it succeeds exactly on input that is
/// valid UTF-8, and then returns the string those bytes encode.
#[verifier::external_body]
fn utf8_to_string(bytes: Vec<u8>) -> (r: Option<String>)
    ensures
        r is Some <==> valid_utf8(bytes@),
        r matches Some(s) ==> s@ == decode_utf8(bytes@),
{
    match String::from_utf8(bytes) {
        Ok(s) => Some(s),
        Err(_) => None,
    }
}

/// Maps an executable resolution result to its model.
pub open spec fn resolution_model(r: Result<String, ClassError>) -> Result<Seq<char>, ErrorModel> {
    match r {
        Ok(s) => Ok(s@),
        Err(e) => Err(e@),
    }
}

/// Decodes the single constant-pool entry whose tag byte lies at `pos`,
/// returning it with the position just past it.
fn decode_entry(bytes: &Vec<u8>, pos: usize) -> (r: Result<(ConstantPoolItem, usize), ClassError>)
    requires
        pos <= bytes.len(),
    ensures
        match r {
            Ok((item, pos2)) => entry_at(bytes@, pos as int) == Ok::<(ItemModel, int), ErrorModel>(
                (item@, pos2 as int),
            ) && pos < pos2 <= bytes@.len(),
            Err(e) => entry_at(bytes@, pos as int) == Err::<(ItemModel, int), ErrorModel>(e@),
        },
{
    let n: usize = bytes.len();
    if pos >= n {
        return Err(ClassError::TruncatedInput);
    }
    let tag: u8 = bytes[pos];
    match tag {
        7 => {
            if n - pos < 3 {
                Err(ClassError::TruncatedInput)
            } else {
                Ok(
                    (
                        ConstantPoolItem::Class { name_index: read_be_u16(bytes, pos + 1) },
                        pos + 3,
                    ),
                )
            }
        },
        9 => {
            if n - pos < 5 {
                Err(ClassError::TruncatedInput)
            } else {
                Ok(
                    (
                        ConstantPoolItem::Fieldref {
                            class_index: read_be_u16(bytes, pos + 1),
                            name_and_type_index: read_be_u16(bytes, pos + 3),
                        },
                        pos + 5,
                    ),
                )
            }
        },
        10 => {
            if n - pos < 5 {
                Err(ClassError::TruncatedInput)
            } else {
                Ok(
                    (
                        ConstantPoolItem::Methodref {
                            class_index: read_be_u16(bytes, pos + 1),
                            name_and_type_index: read_be_u16(bytes, pos + 3),
                        },
                        pos + 5,
                    ),
                )
            }
        },
        11 => {
            if n - pos < 5 {
                Err(ClassError::TruncatedInput)
            } else {
                Ok(
                    (
                        ConstantPoolItem::InterfaceMethodref {
                            class_index: read_be_u16(bytes, pos + 1),
                            name_and_type_index: read_be_u16(bytes, pos + 3),
                        },
                        pos + 5,
                    ),
                )
            }
        },
        8 => {
            if n - pos < 3 {
                Err(ClassError::TruncatedInput)
            } else {
                Ok(
                    (
                        ConstantPoolItem::StringRef { string_index: read_be_u16(bytes, pos + 1) },
                        pos + 3,
                    ),
                )
            }
        },
        3 => {
            if n - pos < 5 {
                Err(ClassError::TruncatedInput)
            } else {
                Ok(
                    (
                        ConstantPoolItem::Integer { bytes: read_be_u32(bytes, pos + 1) },
                        pos + 5,
                    ),
                )
            }
        },
        4 => {
            if n - pos < 5 {
                Err(ClassError::TruncatedInput)
            } else {
                Ok((ConstantPoolItem::Float { bytes: read_be_u32(bytes, pos + 1) }, pos + 5))
            }
        },
        5 => {
            if n - pos < 9 {
                Err(ClassError::TruncatedInput)
            } else {
                Ok((ConstantPoolItem::Long { bytes: read_be_u64(bytes, pos + 1) }, pos + 9))
            }
        },
        6 => {
            if n - pos < 9 {
                Err(ClassError::TruncatedInput)
            } else {
                Ok((ConstantPoolItem::Double { bytes: read_be_u64(bytes, pos + 1) }, pos + 9))
            }
        },
        12 => {
            if n - pos < 5 {
                Err(ClassError::TruncatedInput)
            } else {
                Ok(
                    (
                        ConstantPoolItem::NameAndType {
                            name_index: read_be_u16(bytes, pos + 1),
                            descriptor_index: read_be_u16(bytes, pos + 3),
                        },
                        pos + 5,
                    ),
                )
            }
        },
        1 => {
            if n - pos < 3 {
                Err(ClassError::TruncatedInput)
            } else {
                let length: usize = read_be_u16(bytes, pos + 1) as usize;
                if n - pos - 3 < length {
                    Err(ClassError::TruncatedInput)
                } else {
                    let mut span: Vec<u8> = Vec::new();
                    let mut j: usize = 0;
                    while j < length
                        invariant
                            j <= length,
                            pos + 3 + length <= bytes.len(),
                            span@ == bytes@.subrange(pos as int + 3, pos as int + 3 + j as int),
                        decreases length - j,
                    {
                        span.push(bytes[pos + 3 + j]);
                        proof {
                            assert(bytes@.subrange(pos as int + 3, pos as int + 3 + (j + 1) as int)
                                =~= bytes@.subrange(pos as int + 3, pos as int + 3 + j as int).push(
                                bytes@[pos as int + 3 + j as int],
                            ));
                        }
                        j += 1;
                    }
                    match utf8_to_string(span) {
                        Some(value) => Ok((ConstantPoolItem::Utf8 { value }, pos + 3 + length)),
                        None => Err(ClassError::InvalidUtf8),
                    }
                }
            }
        },
        15 => {
            if n - pos < 4 {
                Err(ClassError::TruncatedInput)
            } else {
                Ok(
                    (
                        ConstantPoolItem::MethodHandle {
                            reference_kind: bytes[pos + 1],
                            reference_index: read_be_u16(bytes, pos + 2),
                        },
                        pos + 4,
                    ),
                )
            }
        },
        16 => {
            if n - pos < 3 {
                Err(ClassError::TruncatedInput)
            } else {
                Ok(
                    (
                        ConstantPoolItem::MethodType {
                            descriptor_index: read_be_u16(bytes, pos + 1),
                        },
                        pos + 3,
                    ),
                )
            }
        },
        17 => {
            if n - pos < 5 {
                Err(ClassError::TruncatedInput)
            } else {
                Ok(
                    (
                        ConstantPoolItem::Dynamic {
                            bootstrap_method_attr_index: read_be_u16(bytes, pos + 1),
                            name_and_type_index: read_be_u16(bytes, pos + 3),
                        },
                        pos + 5,
                    ),
                )
            }
        },
        18 => {
            if n - pos < 5 {
                Err(ClassError::TruncatedInput)
            } else {
                Ok(
                    (
                        ConstantPoolItem::InvokeDynamic {
                            bootstrap_method_attr_index: read_be_u16(bytes, pos + 1),
                            name_and_type_index: read_be_u16(bytes, pos + 3),
                        },
                        pos + 5,
                    ),
                )
            }
        },
        19 => {
            if n - pos < 3 {
                Err(ClassError::TruncatedInput)
            } else {
                Ok(
                    (
                        ConstantPoolItem::Module { name_index: read_be_u16(bytes, pos + 1) },
                        pos + 3,
                    ),
                )
            }
        },
        20 => {
            if n - pos < 3 {
                Err(ClassError::TruncatedInput)
            } else {
                Ok(
                    (
                        ConstantPoolItem::Package { name_index: read_be_u16(bytes, pos + 1) },
                        pos + 3,
                    ),
                )
            }
        },
        _ => Err(ClassError::UnknownConstantTag { offset: pos, tag }),
    }
}

/// Decodes the constant pool: entries for logical indices `1 .. count`,
/// starting at `start`, with a `Placeholder` appended after each `Long` or
/// `Double`. Returns the pool and the position just past its last entry.
pub(crate) fn decode_pool(bytes: &Vec<u8>, start: usize, count: u16) -> (r: Result<
    (ConstantPool, usize),
    ClassError,
>)
    requires
        start <= bytes.len(),
    ensures
        match r {
            Ok((pool, pos)) => pool_from(bytes@, start as int, 1, count as int) == Ok::<
                (Seq<ItemModel>, int),
                ErrorModel,
            >((pool@, pos as int)) && start <= pos <= bytes@.len(),
            Err(e) => pool_from(bytes@, start as int, 1, count as int) == Err::<
                (Seq<ItemModel>, int),
                ErrorModel,
            >(e@),
        },
{
    let mut items: Vec<ConstantPoolItem> = Vec::new();
    let mut pos: usize = start;
    let mut i: u32 = 1;
    proof {
        match pool_from(bytes@, start as int, 1, count as int) {
            Ok((tail, end)) => {
                assert(items_model(items@) + tail =~= tail);
            },
            Err(_) => {},
        }
    }
    while i < count as u32
        invariant
            start <= pos <= bytes.len(),
            1 <= i <= 0xffff,
            ({
                let full = pool_from(bytes@, start as int, 1, count as int);
                let rest = pool_from(bytes@, pos as int, i as int, count as int);
                match rest {
                    Ok((tail, end)) => full == Ok::<(Seq<ItemModel>, int), ErrorModel>(
                        (items_model(items@) + tail, end),
                    ),
                    Err(e) => full == Err::<(Seq<ItemModel>, int), ErrorModel>(e),
                }
            }),
        decreases count as int - i as int,
    {
        match decode_entry(bytes, pos) {
            Err(e) => {
                return Err(e);
            },
            Ok((item, pos2)) => {
                let ghost prev_items = items@;
                let ghost prev_pos = pos as int;
                let ghost prev_i = i as int;
                let ghost item_model = item@;
                let two_slots: bool = match &item {
                    ConstantPoolItem::Long { .. } => true,
                    ConstantPoolItem::Double { .. } => true,
                    _ => false,
                };
                proof {
                    assert(two_slots == takes_two_slots(item_model));
                }
                items.push(item);
                if two_slots {
                    items.push(ConstantPoolItem::Placeholder);
                }
                pos = pos2;
                let bump: u32 = if two_slots {
                    2
                } else {
                    1
                };
                let mut i2: u32 = i + bump;
                if i2 > count as u32 {
                    i2 = count as u32;
                }
                proof {
                    let head: Seq<ItemModel> = if takes_two_slots(item_model) {
                        seq![item_model, ItemModel::Placeholder]
                    } else {
                        seq![item_model]
                    };
                    assert(items_model(items@) =~= items_model(prev_items) + head);
                    match pool_from(bytes@, pos as int, i2 as int, count as int) {
                        Ok((tail, end)) => {
                            assert(pool_from(bytes@, prev_pos, prev_i, count as int) == Ok::<
                                (Seq<ItemModel>, int),
                                ErrorModel,
                            >((head + tail, end)));
                            assert(items_model(prev_items) + (head + tail) =~= items_model(items@)
                                + tail);
                        },
                        Err(e) => {
                            assert(pool_from(bytes@, prev_pos, prev_i, count as int) == Err::<
                                (Seq<ItemModel>, int),
                                ErrorModel,
                            >(e));
                        },
                    }
                }
                i = i2;
            },
        }
    }
    proof {
        match pool_from(bytes@, pos as int, i as int, count as int) {
            Ok((tail, end)) => {
                assert(items_model(items@) + tail =~= items_model(items@));
            },
            Err(_) => {},
        }
    }
    Ok((ConstantPool(items), pos))
}

/// Resolves a 1-based pool index to the class name it denotes: the indexed
/// entry must be a `Class`, and its `name_index` must lead to a `Utf8`.
pub fn resolve_class_name(pool: &ConstantPool, index: u16) -> (r: Result<String, ClassError>)
    ensures
        resolution_model(r) == resolve_name(pool@, index),
{
    if index == 0 || index as usize > pool.0.len() {
        return Err(ClassError::IndexOutOfRange { index });
    }
    match &pool.0[index as usize - 1] {
        ConstantPoolItem::Class { name_index } => {
            let ni: u16 = *name_index;
            if ni == 0 || ni as usize > pool.0.len() {
                return Err(ClassError::IndexOutOfRange { index: ni });
            }
            match &pool.0[ni as usize - 1] {
                ConstantPoolItem::Utf8 { value } => Ok(value.clone()),
                ConstantPoolItem::Placeholder => Err(
                    ClassError::PlaceholderDereference { index: ni },
                ),
                found => Err(ClassError::TypeMismatch { index: ni, found: found.clone() }),
            }
        },
        ConstantPoolItem::Placeholder => Err(ClassError::PlaceholderDereference { index }),
        found => Err(ClassError::TypeMismatch { index, found: found.clone() }),
    }
}

} // verus!
