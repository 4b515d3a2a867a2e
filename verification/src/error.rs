//! Failures of decoding and of name resolution.

use vstd::prelude::*;

use crate::model::ErrorModel;
use crate::pool::ConstantPoolItem;

verus! {

/// Why a decode or a resolution failed. Every failure is terminal for the
/// one buffer being decoded and never affects any other buffer.
#[derive(Debug, PartialEq)]
pub enum ClassError {
    /// The first four bytes are not the class-file magic value.
    FormatError,
    /// The buffer ended before a required field.
    TruncatedInput,
    /// A tag byte outside the known set, with the offset where it lay.
    UnknownConstantTag { offset: usize, tag: u8 },
    /// A `Utf8` entry's payload is not valid UTF-8.
    InvalidUtf8,
    /// Resolution expected one variant and found another.
    TypeMismatch { index: u16, found: ConstantPoolItem },
    /// Resolution reached the continuation slot of an 8-byte constant.
    PlaceholderDereference { index: u16 },
    /// A constant-pool index of 0, or one past the end of the pool.
    IndexOutOfRange { index: u16 },
}

impl View for ClassError {
    type V = ErrorModel;

    open spec fn view(&self) -> ErrorModel {
        match self {
            ClassError::FormatError => ErrorModel::FormatError,
            ClassError::TruncatedInput => ErrorModel::TruncatedInput,
            ClassError::UnknownConstantTag { offset, tag } => ErrorModel::UnknownConstantTag {
                offset: *offset as int,
                tag: *tag,
            },
            ClassError::InvalidUtf8 => ErrorModel::InvalidUtf8,
            ClassError::TypeMismatch { index, found } => ErrorModel::TypeMismatch {
                index: *index,
                found: found@,
            },
            ClassError::PlaceholderDereference { index } => ErrorModel::PlaceholderDereference {
                index: *index,
            },
            ClassError::IndexOutOfRange { index } => ErrorModel::IndexOutOfRange { index: *index },
        }
    }
}

} // verus!
