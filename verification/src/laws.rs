//! Proved properties of the decoder and the resolver.

use vstd::prelude::*;
use vstd::utf8::decode_utf8;
use vstd::utf8::encode_utf8;
use vstd::utf8::valid_utf8;

use crate::model::be_u16;
use crate::model::entry_at;
use crate::model::magic_bytes;
use crate::model::parse_class;
use crate::model::pool_from;
use crate::model::resolve_name;
use crate::model::takes_two_slots;
use crate::model::ClassFileModel;
use crate::model::ErrorModel;
use crate::model::ItemModel;

verus! {

/// Decoding is deterministic: two decodes of the same byte buffer yield the
/// same result, structurally. Every decode equals `parse_class` of the
/// buffer, and that is a function of the bytes alone.
pub proof fn lemma_decode_deterministic(
    b: Seq<u8>,
    r1: Result<ClassFileModel, ErrorModel>,
    r2: Result<ClassFileModel, ErrorModel>,
)
    requires
        r1 == parse_class(b),
        r2 == parse_class(b),
    ensures
        r1 == r2,
{
}

/// Any buffer whose first four bytes differ from the magic value fails with
/// `FormatError`.
pub proof fn lemma_bad_magic_is_format_error(b: Seq<u8>)
    requires
        b.len() >= 4,
        b.subrange(0, 4) != magic_bytes(),
    ensures
        parse_class(b) == Err::<ClassFileModel, ErrorModel>(ErrorModel::FormatError),
{
    if b[0] == 0xca && b[1] == 0xfe && b[2] == 0xba && b[3] == 0xbe {
        assert(b.subrange(0, 4) =~= magic_bytes());
    }
}

/// No tag byte decodes to a `Placeholder`: only the decoder itself appends
/// one, after an 8-byte constant.
pub proof fn lemma_no_tag_encodes_placeholder(b: Seq<u8>, pos: int)
    ensures
        entry_at(b, pos) matches Ok((item, end)) ==> !(item is Placeholder),
{
}

/// In any decoded pool, each `Long` or `Double` is followed by exactly the
/// continuation `Placeholder` slot.
proof fn lemma_pool_from_placeholders(b: Seq<u8>, pos: int, i: int, count: int)
    ensures
        pool_from(b, pos, i, count) matches Ok((items, end)) ==> forall|j: int|
            0 <= j < items.len() && takes_two_slots(#[trigger] items[j]) ==> j + 1 < items.len()
                && items[j + 1] is Placeholder,
    decreases count - i,
{
    if i >= count {
    } else {
        match entry_at(b, pos) {
            Err(_) => {},
            Ok((item, pos2)) => {
                let bump: int = if takes_two_slots(item) {
                    2
                } else {
                    1
                };
                let i2: int = if i + bump > count {
                    count
                } else {
                    i + bump
                };
                lemma_pool_from_placeholders(b, pos2, i2, count);
                let head: Seq<ItemModel> = if takes_two_slots(item) {
                    seq![item, ItemModel::Placeholder]
                } else {
                    seq![item]
                };
                match pool_from(b, pos2, i2, count) {
                    Err(_) => {},
                    Ok((rest, end)) => {
                        let items = head + rest;
                        assert(pool_from(b, pos, i, count) == Ok::<
                            (Seq<ItemModel>, int),
                            ErrorModel,
                        >((items, end)));
                        assert forall|j: int|
                            0 <= j < items.len() && takes_two_slots(
                                #[trigger] items[j],
                            ) implies j + 1 < items.len() && items[j + 1] is Placeholder by {
                            if j < head.len() {
                                if takes_two_slots(item) && j == 0 {
                                    assert(items[1] == head[1]);
                                }
                            } else {
                                let k = j - head.len();
                                assert(items[j] == rest[k]);
                                assert(k + 1 < rest.len() && rest[k + 1] is Placeholder);
                                assert(items[j + 1] == rest[k + 1]);
                            }
                        }
                    },
                }
            },
        }
    }
}

/// If a `Long` or `Double` entry occupies logical index `i` of a decoded
/// class, with `i` below `pool_count - 1`, then logical index `i + 1` holds
/// the continuation `Placeholder` — never a fresh tagged entry — and
/// resolving `i + 1` fails with `PlaceholderDereference`.
pub proof fn lemma_two_slot_entry_blocks_next_index(b: Seq<u8>, c: ClassFileModel, i: u16)
    requires
        parse_class(b) == Ok::<ClassFileModel, ErrorModel>(c),
        1 <= i,
        i as int <= c.pool.len(),
        takes_two_slots(c.pool[i as int - 1]),
        (i as int) < be_u16(b, 8) as int - 1,
    ensures
        (i as int) < c.pool.len(),
        c.pool[i as int] is Placeholder,
        resolve_name(c.pool, (i + 1) as u16) == Err::<Seq<char>, ErrorModel>(
            ErrorModel::PlaceholderDereference { index: (i + 1) as u16 },
        ),
{
    let count = be_u16(b, 8) as int;
    lemma_pool_from_placeholders(b, 10, 1, count);
    match pool_from(b, 10, 1, count) {
        Ok((pool, end)) => {
            assert(c.pool == pool);
        },
        Err(_) => {
            assert(false);
        },
    }
}

/// A `Utf8` entry's decoded text, re-encoded as UTF-8, is exactly the
/// declared span: its byte length equals the declared 16-bit length field.
pub proof fn lemma_utf8_entry_text_length(b: Seq<u8>, pos: int)
    requires
        0 <= pos,
        pos + 3 <= b.len(),
        b[pos] == 1,
        pos + 3 + be_u16(b, pos + 1) as int <= b.len(),
        valid_utf8(b.subrange(pos + 3, pos + 3 + be_u16(b, pos + 1) as int)),
    ensures
        entry_at(b, pos) == Ok::<(ItemModel, int), ErrorModel>(
            (
                ItemModel::Utf8 {
                    text: decode_utf8(b.subrange(pos + 3, pos + 3 + be_u16(b, pos + 1) as int)),
                },
                pos + 3 + be_u16(b, pos + 1) as int,
            ),
        ),
        encode_utf8(decode_utf8(b.subrange(pos + 3, pos + 3 + be_u16(b, pos + 1) as int))).len()
            == be_u16(b, pos + 1) as int,
{
    let span = b.subrange(pos + 3, pos + 3 + be_u16(b, pos + 1) as int);
    vstd::utf8::decode_utf8_encode_utf8(span);
}

/// A `Utf8` entry whose declared span is not valid UTF-8 fails with
/// `InvalidUtf8`.
pub proof fn lemma_utf8_entry_invalid_bytes(b: Seq<u8>, pos: int)
    requires
        0 <= pos,
        pos + 3 <= b.len(),
        b[pos] == 1,
        pos + 3 + be_u16(b, pos + 1) as int <= b.len(),
        !valid_utf8(b.subrange(pos + 3, pos + 3 + be_u16(b, pos + 1) as int)),
    ensures
        entry_at(b, pos) == Err::<(ItemModel, int), ErrorModel>(ErrorModel::InvalidUtf8),
{
}

/// Resolving an index that holds anything but a `Class` entry (and not a
/// placeholder slot) fails with `TypeMismatch` naming the entry found,
/// rather than returning an incorrect string.
pub proof fn lemma_non_class_entry_is_type_mismatch(pool: Seq<ItemModel>, index: u16)
    requires
        1 <= index,
        index as int <= pool.len(),
        !(pool[index as int - 1] is Class),
        !(pool[index as int - 1] is Placeholder),
    ensures
        resolve_name(pool, index) == Err::<Seq<char>, ErrorModel>(
            ErrorModel::TypeMismatch { index, found: pool[index as int - 1] },
        ),
{
}

} // verus!

