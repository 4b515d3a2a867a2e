//! The class-file reader and the read-only surface over a decoded class.

use vstd::prelude::*;

use crate::error::ClassError;
use crate::model::parse_class;
use crate::model::resolve_name;
use crate::model::super_name;
use crate::model::ClassFileModel;
use crate::model::ErrorModel;
use crate::pool::resolve_class_name;
use crate::pool::ConstantPool;

verus! {

/// Enough of a decoded class file to classify the compiled type: its
/// constant pool, its flags word, and the two class-name indices.
#[derive(PartialEq)]
pub struct MinimalJavaClass {
    constant_pool: ConstantPool,
    access_flags: u16,
    this_class: u16,
    super_class: u16,
}

impl View for MinimalJavaClass {
    type V = ClassFileModel;

    closed spec fn view(&self) -> ClassFileModel {
        ClassFileModel {
            pool: self.constant_pool@,
            access_flags: self.access_flags,
            this_class: self.this_class,
            super_class: self.super_class,
        }
    }
}

impl MinimalJavaClass {
    /// Builds a class from already-decoded parts, for callers that assemble
    /// a pool by hand.
    pub fn new(
        constant_pool: ConstantPool,
        access_flags: u16,
        this_class: u16,
        super_class: u16,
    ) -> (c: MinimalJavaClass)
        ensures
            c@ == (ClassFileModel {
                pool: constant_pool@,
                access_flags,
                this_class,
                super_class,
            }),
    {
        MinimalJavaClass { constant_pool, access_flags, this_class, super_class }
    }

    /// Decodes one whole class file from an already-resident byte buffer:
    /// magic, discarded versions, constant pool, flags and indices, and the
    /// discarded interface table. The result is exactly `parse_class` of the
    /// buffer, so decoding the same buffer always yields the same class.
    pub fn parse(bytes: &Vec<u8>) -> (r: Result<MinimalJavaClass, ClassError>)
        ensures
            match r {
                Ok(c) => parse_class(bytes@) == Ok::<ClassFileModel, ErrorModel>(c@),
                Err(e) => parse_class(bytes@) == Err::<ClassFileModel, ErrorModel>(e@),
            },
    {
        let n: usize = bytes.len();
        if n < 4 {
            return Err(ClassError::TruncatedInput);
        }
        if !(bytes[0] == 0xca && bytes[1] == 0xfe && bytes[2] == 0xba && bytes[3] == 0xbe) {
            return Err(ClassError::FormatError);
        }
        if n < 10 {
            return Err(ClassError::TruncatedInput);
        }
        let count: u16 = crate::pool::read_be_u16(bytes, 8);
        match crate::pool::decode_pool(bytes, 10, count) {
            Err(e) => Err(e),
            Ok((constant_pool, pos)) => {
                if n - pos < 8 {
                    return Err(ClassError::TruncatedInput);
                }
                let access_flags: u16 = crate::pool::read_be_u16(bytes, pos);
                let this_class: u16 = crate::pool::read_be_u16(bytes, pos + 2);
                let super_class: u16 = crate::pool::read_be_u16(bytes, pos + 4);
                let interfaces_count: usize = crate::pool::read_be_u16(bytes, pos + 6) as usize;
                if n - pos - 8 < 2 * interfaces_count {
                    return Err(ClassError::TruncatedInput);
                }
                Ok(MinimalJavaClass { constant_pool, access_flags, this_class, super_class })
            },
        }
    }

    /// The fully-qualified name of this type, resolved through the pool.
    pub fn this_class(&self) -> (r: Result<String, ClassError>)
        ensures
            crate::pool::resolution_model(r) == resolve_name(self@.pool, self@.this_class),
    {
        resolve_class_name(&self.constant_pool, self.this_class)
    }

    /// The name of the direct supertype, or `None` for a type whose raw
    /// `super_class` index is 0 and which therefore has no supertype.
    pub fn super_class(&self) -> (r: Result<Option<String>, ClassError>)
        ensures
            match r {
                Ok(Some(s)) => super_name(self@) == Ok::<Option<Seq<char>>, ErrorModel>(
                    Some(s@),
                ),
                Ok(None) => super_name(self@) == Ok::<Option<Seq<char>>, ErrorModel>(None),
                Err(e) => super_name(self@) == Err::<Option<Seq<char>>, ErrorModel>(e@),
            },
    {
        if self.super_class == 0 {
            return Ok(None);
        }
        match resolve_class_name(&self.constant_pool, self.super_class) {
            Ok(s) => Ok(Some(s)),
            Err(e) => Err(e),
        }
    }

    /// Whether the public bit (0x0001) is set.
    pub fn is_public(&self) -> (r: bool)
        ensures
            r == ((self@.access_flags & 0x0001) != 0),
    {
        (self.access_flags & 0x0001) != 0
    }

    /// Whether the interface bit (0x0200) is set; no other bit matters.
    pub fn is_interface(&self) -> (r: bool)
        ensures
            r == ((self@.access_flags & 0x0200) != 0),
    {
        (self.access_flags & 0x0200) != 0
    }

    /// Whether the synthetic bit (0x1000) is set.
    pub fn is_synthetic(&self) -> (r: bool)
        ensures
            r == ((self@.access_flags & 0x1000) != 0),
    {
        (self.access_flags & 0x1000) != 0
    }

    /// Whether the annotation bit (0x2000) is set.
    pub fn is_annotation(&self) -> (r: bool)
        ensures
            r == ((self@.access_flags & 0x2000) != 0),
    {
        (self.access_flags & 0x2000) != 0
    }

    /// Whether the enum bit (0x4000) is set.
    pub fn is_enum(&self) -> (r: bool)
        ensures
            r == ((self@.access_flags & 0x4000) != 0),
    {
        (self.access_flags & 0x4000) != 0
    }
}

} // verus!
