//! Ghost model of the class-file format.
//!
//! These spec functions define, over a plain byte sequence, exactly what the
//! executable decoder returns: which entries the constant pool holds, where
//! each field lies, and which error ends a decode. The executable functions
//! ensure that their results equal these definitions.

use vstd::prelude::*;
use vstd::utf8::decode_utf8;
use vstd::utf8::valid_utf8;

verus! {

/// Model of one constant-pool entry. `Placeholder` stands for the
/// non-resolvable continuation slot that follows an 8-byte constant.
#[allow(inconsistent_fields)]
pub enum ItemModel {
    Class { name_index: u16 },
    Fieldref { class_index: u16, name_and_type_index: u16 },
    Methodref { class_index: u16, name_and_type_index: u16 },
    InterfaceMethodref { class_index: u16, name_and_type_index: u16 },
    StringRef { string_index: u16 },
    Integer { bytes: u32 },
    Float { bytes: u32 },
    Long { bytes: u64 },
    Double { bytes: u64 },
    NameAndType { name_index: u16, descriptor_index: u16 },
    Utf8 { text: Seq<char> },
    MethodHandle { reference_kind: u8, reference_index: u16 },
    MethodType { descriptor_index: u16 },
    Dynamic { bootstrap_method_attr_index: u16, name_and_type_index: u16 },
    InvokeDynamic { bootstrap_method_attr_index: u16, name_and_type_index: u16 },
    Module { name_index: u16 },
    Package { name_index: u16 },
    Placeholder,
}

/// Model of a decode or resolution failure.
pub enum ErrorModel {
    FormatError,
    TruncatedInput,
    UnknownConstantTag { offset: int, tag: u8 },
    InvalidUtf8,
    TypeMismatch { index: u16, found: ItemModel },
    PlaceholderDereference { index: u16 },
    IndexOutOfRange { index: u16 },
}

/// Model of a decoded class file. The pool sequence holds the entries for
/// logical indices `1 ..= pool.len()`: logical index `i` lives at `pool[i - 1]`.
#[verifier::ext_equal]
pub struct ClassFileModel {
    pub pool: Seq<ItemModel>,
    pub access_flags: u16,
    pub this_class: u16,
    pub super_class: u16,
}

/// The 16-bit big-endian value at `pos`.
pub open spec fn be_u16(b: Seq<u8>, pos: int) -> u16
    recommends
        0 <= pos,
        pos + 2 <= b.len(),
{
    ((b[pos] as int) * 0x100 + (b[pos + 1] as int)) as u16
}

/// The 32-bit big-endian value at `pos`.
pub open spec fn be_u32(b: Seq<u8>, pos: int) -> u32
    recommends
        0 <= pos,
        pos + 4 <= b.len(),
{
    ((b[pos] as int) * 0x1000000 + (b[pos + 1] as int) * 0x10000 + (b[pos + 2] as int) * 0x100
        + (b[pos + 3] as int)) as u32
}

/// The 64-bit big-endian value at `pos`.
pub open spec fn be_u64(b: Seq<u8>, pos: int) -> u64
    recommends
        0 <= pos,
        pos + 8 <= b.len(),
{
    ((be_u32(b, pos) as int) * 0x100000000 + (be_u32(b, pos + 4) as int)) as u64
}

/// Decodes the single constant-pool entry whose tag byte lies at `pos`:
/// the entry itself and the position just past it, or the failure that
/// ends the decode. Never yields a `Placeholder`: no tag encodes one.
pub open spec fn entry_at(b: Seq<u8>, pos: int) -> Result<(ItemModel, int), ErrorModel>
    recommends
        0 <= pos <= b.len(),
{
    if pos + 1 > b.len() {
        Err(ErrorModel::TruncatedInput)
    } else {
        let tag = b[pos];
        if tag == 7 {
            if pos + 3 <= b.len() {
                Ok((ItemModel::Class { name_index: be_u16(b, pos + 1) }, pos + 3))
            } else {
                Err(ErrorModel::TruncatedInput)
            }
        } else if tag == 9 {
            if pos + 5 <= b.len() {
                Ok(
                    (
                        ItemModel::Fieldref {
                            class_index: be_u16(b, pos + 1),
                            name_and_type_index: be_u16(b, pos + 3),
                        },
                        pos + 5,
                    ),
                )
            } else {
                Err(ErrorModel::TruncatedInput)
            }
        } else if tag == 10 {
            if pos + 5 <= b.len() {
                Ok(
                    (
                        ItemModel::Methodref {
                            class_index: be_u16(b, pos + 1),
                            name_and_type_index: be_u16(b, pos + 3),
                        },
                        pos + 5,
                    ),
                )
            } else {
                Err(ErrorModel::TruncatedInput)
            }
        } else if tag == 11 {
            if pos + 5 <= b.len() {
                Ok(
                    (
                        ItemModel::InterfaceMethodref {
                            class_index: be_u16(b, pos + 1),
                            name_and_type_index: be_u16(b, pos + 3),
                        },
                        pos + 5,
                    ),
                )
            } else {
                Err(ErrorModel::TruncatedInput)
            }
        } else if tag == 8 {
            if pos + 3 <= b.len() {
                Ok((ItemModel::StringRef { string_index: be_u16(b, pos + 1) }, pos + 3))
            } else {
                Err(ErrorModel::TruncatedInput)
            }
        } else if tag == 3 {
            if pos + 5 <= b.len() {
                Ok((ItemModel::Integer { bytes: be_u32(b, pos + 1) }, pos + 5))
            } else {
                Err(ErrorModel::TruncatedInput)
            }
        } else if tag == 4 {
            if pos + 5 <= b.len() {
                Ok((ItemModel::Float { bytes: be_u32(b, pos + 1) }, pos + 5))
            } else {
                Err(ErrorModel::TruncatedInput)
            }
        } else if tag == 5 {
            if pos + 9 <= b.len() {
                Ok((ItemModel::Long { bytes: be_u64(b, pos + 1) }, pos + 9))
            } else {
                Err(ErrorModel::TruncatedInput)
            }
        } else if tag == 6 {
            if pos + 9 <= b.len() {
                Ok((ItemModel::Double { bytes: be_u64(b, pos + 1) }, pos + 9))
            } else {
                Err(ErrorModel::TruncatedInput)
            }
        } else if tag == 12 {
            if pos + 5 <= b.len() {
                Ok(
                    (
                        ItemModel::NameAndType {
                            name_index: be_u16(b, pos + 1),
                            descriptor_index: be_u16(b, pos + 3),
                        },
                        pos + 5,
                    ),
                )
            } else {
                Err(ErrorModel::TruncatedInput)
            }
        } else if tag == 1 {
            if pos + 3 <= b.len() {
                let length = be_u16(b, pos + 1) as int;
                if pos + 3 + length <= b.len() {
                    let span = b.subrange(pos + 3, pos + 3 + length);
                    if valid_utf8(span) {
                        Ok((ItemModel::Utf8 { text: decode_utf8(span) }, pos + 3 + length))
                    } else {
                        Err(ErrorModel::InvalidUtf8)
                    }
                } else {
                    Err(ErrorModel::TruncatedInput)
                }
            } else {
                Err(ErrorModel::TruncatedInput)
            }
        } else if tag == 15 {
            if pos + 4 <= b.len() {
                Ok(
                    (
                        ItemModel::MethodHandle {
                            reference_kind: b[pos + 1],
                            reference_index: be_u16(b, pos + 2),
                        },
                        pos + 4,
                    ),
                )
            } else {
                Err(ErrorModel::TruncatedInput)
            }
        } else if tag == 16 {
            if pos + 3 <= b.len() {
                Ok((ItemModel::MethodType { descriptor_index: be_u16(b, pos + 1) }, pos + 3))
            } else {
                Err(ErrorModel::TruncatedInput)
            }
        } else if tag == 17 {
            if pos + 5 <= b.len() {
                Ok(
                    (
                        ItemModel::Dynamic {
                            bootstrap_method_attr_index: be_u16(b, pos + 1),
                            name_and_type_index: be_u16(b, pos + 3),
                        },
                        pos + 5,
                    ),
                )
            } else {
                Err(ErrorModel::TruncatedInput)
            }
        } else if tag == 18 {
            if pos + 5 <= b.len() {
                Ok(
                    (
                        ItemModel::InvokeDynamic {
                            bootstrap_method_attr_index: be_u16(b, pos + 1),
                            name_and_type_index: be_u16(b, pos + 3),
                        },
                        pos + 5,
                    ),
                )
            } else {
                Err(ErrorModel::TruncatedInput)
            }
        } else if tag == 19 {
            if pos + 3 <= b.len() {
                Ok((ItemModel::Module { name_index: be_u16(b, pos + 1) }, pos + 3))
            } else {
                Err(ErrorModel::TruncatedInput)
            }
        } else if tag == 20 {
            if pos + 3 <= b.len() {
                Ok((ItemModel::Package { name_index: be_u16(b, pos + 1) }, pos + 3))
            } else {
                Err(ErrorModel::TruncatedInput)
            }
        } else {
            Err(ErrorModel::UnknownConstantTag { offset: pos, tag })
        }
    }
}

/// True of the two entries that occupy two logical index slots.
pub open spec fn takes_two_slots(item: ItemModel) -> bool {
    item is Long || item is Double
}

/// Decodes constant-pool entries from `pos` for logical indices `i` up to
/// (but not including) `count`, appending a `Placeholder` after each 8-byte
/// constant. Yields the decoded entries and the position just past them.
pub open spec fn pool_from(b: Seq<u8>, pos: int, i: int, count: int) -> Result<
    (Seq<ItemModel>, int),
    ErrorModel,
>
    recommends
        0 <= pos <= b.len(),
    decreases count - i,
{
    if i >= count {
        Ok((Seq::empty(), pos))
    } else {
        match entry_at(b, pos) {
            Err(e) => Err(e),
            Ok((item, pos2)) => {
                let bump: int = if takes_two_slots(item) {
                    2
                } else {
                    1
                };
                let i2: int = if i + bump > count {
                    count
                } else {
                    i + bump
                };
                let head: Seq<ItemModel> = if takes_two_slots(item) {
                    seq![item, ItemModel::Placeholder]
                } else {
                    seq![item]
                };
                match pool_from(b, pos2, i2, count) {
                    Err(e) => Err(e),
                    Ok((rest, pos3)) => Ok((head + rest, pos3)),
                }
            },
        }
    }
}

/// The fixed four-byte magic value that opens every class file.
pub open spec fn magic_bytes() -> Seq<u8> {
    seq![0xcau8, 0xfeu8, 0xbau8, 0xbeu8]
}

/// Decodes a whole class file from its byte buffer: header, constant pool,
/// flags and indices, and the discarded interface table.
pub open spec fn parse_class(b: Seq<u8>) -> Result<ClassFileModel, ErrorModel> {
    if b.len() < 4 {
        Err(ErrorModel::TruncatedInput)
    } else if !(b[0] == 0xca && b[1] == 0xfe && b[2] == 0xba && b[3] == 0xbe) {
        Err(ErrorModel::FormatError)
    } else if b.len() < 10 {
        Err(ErrorModel::TruncatedInput)
    } else {
        let count = be_u16(b, 8) as int;
        match pool_from(b, 10, 1, count) {
            Err(e) => Err(e),
            Ok((pool, pos)) => {
                if pos + 8 > b.len() {
                    Err(ErrorModel::TruncatedInput)
                } else {
                    let interfaces_count = be_u16(b, pos + 6) as int;
                    if pos + 8 + 2 * interfaces_count > b.len() {
                        Err(ErrorModel::TruncatedInput)
                    } else {
                        Ok(
                            ClassFileModel {
                                pool,
                                access_flags: be_u16(b, pos),
                                this_class: be_u16(b, pos + 2),
                                super_class: be_u16(b, pos + 4),
                            },
                        )
                    }
                }
            },
        }
    }
}

/// Resolves a 1-based constant-pool index to a class name: the entry must be
/// a `Class`, and the entry at its `name_index` must be a `Utf8`. Every other
/// outcome is the error that names what was actually found.
pub open spec fn resolve_name(pool: Seq<ItemModel>, index: u16) -> Result<Seq<char>, ErrorModel> {
    if index == 0 || index as int > pool.len() {
        Err(ErrorModel::IndexOutOfRange { index })
    } else {
        match pool[index as int - 1] {
            ItemModel::Class { name_index } => {
                if name_index == 0 || name_index as int > pool.len() {
                    Err(ErrorModel::IndexOutOfRange { index: name_index })
                } else {
                    match pool[name_index as int - 1] {
                        ItemModel::Utf8 { text } => Ok(text),
                        ItemModel::Placeholder => Err(
                            ErrorModel::PlaceholderDereference { index: name_index },
                        ),
                        found => Err(ErrorModel::TypeMismatch { index: name_index, found }),
                    }
                }
            },
            ItemModel::Placeholder => Err(ErrorModel::PlaceholderDereference { index }),
            found => Err(ErrorModel::TypeMismatch { index, found }),
        }
    }
}

/// The supertype name of a decoded class: a raw index of 0 means the type
/// has no supertype, and resolution is not attempted.
pub open spec fn super_name(c: ClassFileModel) -> Result<Option<Seq<char>>, ErrorModel> {
    if c.super_class == 0 {
        Ok(None)
    } else {
        match resolve_name(c.pool, c.super_class) {
            Ok(text) => Ok(Some(text)),
            Err(e) => Err(e),
        }
    }
}

} // verus!
