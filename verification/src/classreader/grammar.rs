//! The class-file format as functions on byte sequences. Each says, for
//! every input, what reading one value off its front gives and which bytes
//! remain; the readers are proved to compute exactly these.

use vstd::prelude::*;
use vstd::utf8::{decode_utf8, valid_utf8};
use crate::class::{ClassFileView, FieldView, MethodView};
use crate::class::attribute::{
    AttributeView,
    LineNumberTableEntry,
    StackMapFrameView,
    VerificationTypeInfo,
};
use crate::class::pool::{ConstantPoolEntryView, pool_utf8};
use crate::classreader::error::{ClassReaderErrorView, Parsed, prepend};

verus! {

/// The sentinel that opens every class file.
pub const MAGIC_NUMBER: u32 = 0xCAFEBABE;

pub const CONSTANT_METHODREF: u8 = 10;

pub const CONSTANT_FIELDREF: u8 = 9;

pub const CONSTANT_CLASS: u8 = 7;

pub const CONSTANT_UTF8: u8 = 1;

pub const CONSTANT_NAME_AND_TYPE: u8 = 12;

pub const CONSTANT_STRING: u8 = 8;

pub const CONSTANT_INTEGER: u8 = 3;

/// Two bytes as one number, the first byte the more significant.
pub open spec fn be16(hi: u8, lo: u8) -> u16 {
    (hi * 256 + lo) as u16
}

/// Four bytes as one number, the first byte the most significant.
pub open spec fn be32(b1: u8, b2: u8, b3: u8, b4: u8) -> u32 {
    (b1 * 16777216 + b2 * 65536 + b3 * 256 + b4) as u32
}

/// The 16-bit number that starts at position `at` of `s`.
pub open spec fn u16_at(s: Seq<u8>, at: int) -> u16 {
    be16(s[at], s[at + 1])
}

/// The 32-bit number that starts at position `at` of `s`.
pub open spec fn u32_at(s: Seq<u8>, at: int) -> u32 {
    be32(s[at], s[at + 1], s[at + 2], s[at + 3])
}

/// A failure for want of input. The bytes are read one at a time, so a
/// value cut short takes what was left of the input with it.
pub open spec fn truncated<T>() -> Parsed<T> {
    (Err(ClassReaderErrorView::EndOfStream), Seq::empty())
}

/// One byte.
pub open spec fn spec_read_u8(s: Seq<u8>) -> Parsed<u8> {
    if s.len() >= 1 {
        (Ok(s[0]), s.skip(1))
    } else {
        truncated()
    }
}

/// A big-endian 16-bit number.
pub open spec fn spec_read_u16(s: Seq<u8>) -> Parsed<u16> {
    if s.len() >= 2 {
        (Ok(u16_at(s, 0)), s.skip(2))
    } else {
        truncated()
    }
}

/// A big-endian 32-bit number.
pub open spec fn spec_read_u32(s: Seq<u8>) -> Parsed<u32> {
    if s.len() >= 4 {
        (Ok(u32_at(s, 0)), s.skip(4))
    } else {
        truncated()
    }
}

/// The next `length` bytes. Where fewer are left, nothing is taken.
pub open spec fn spec_read_bytes(s: Seq<u8>, length: nat) -> Parsed<Seq<u8>> {
    if s.len() >= length {
        (Ok(s.take(length as int)), s.skip(length as int))
    } else {
        (Err(ClassReaderErrorView::EndOfStream), s)
    }
}

/// The next `length` bytes as text. Bytes that are not valid UTF-8 are
/// taken and refused.
pub open spec fn spec_read_utf8(s: Seq<u8>, length: nat) -> Parsed<Seq<char>> {
    if s.len() < length {
        (Err(ClassReaderErrorView::EndOfStream), s)
    } else if valid_utf8(s.take(length as int)) {
        (Ok(decode_utf8(s.take(length as int))), s.skip(length as int))
    } else {
        (Err(ClassReaderErrorView::InvalidUtf8), s.skip(length as int))
    }
}

/// `length` big-endian 16-bit numbers in a row.
pub open spec fn spec_read_u16_array(s: Seq<u8>, length: nat) -> Parsed<Seq<u16>> {
    if s.len() >= 2 * length {
        (Ok(Seq::new(length, |i: int| u16_at(s, 2 * i))), s.skip(2 * length as int))
    } else {
        truncated()
    }
}

/// The sentinel: four bytes that must be `CAFEBABE`. Any other value is
/// reported with the four bytes taken and no more.
pub open spec fn spec_read_magic(s: Seq<u8>) -> Parsed<u32> {
    if s.len() < 4 {
        truncated()
    } else if u32_at(s, 0) == MAGIC_NUMBER {
        (Ok(u32_at(s, 0)), s.skip(4))
    } else {
        (Err(ClassReaderErrorView::InvalidMagic(u32_at(s, 0))), s.skip(4))
    }
}

/// A constant pool entry whose body is two 16-bit indices.
pub open spec fn pair_entry(tag: u8, first: u16, second: u16) -> ConstantPoolEntryView {
    if tag == CONSTANT_METHODREF {
        ConstantPoolEntryView::Methodref { class_index: first, name_and_type_index: second }
    } else if tag == CONSTANT_FIELDREF {
        ConstantPoolEntryView::Fieldref { class_index: first, name_and_type_index: second }
    } else {
        ConstantPoolEntryView::NameAndType { name_index: first, descriptor_index: second }
    }
}

/// A constant pool entry whose body is one 16-bit index.
pub open spec fn single_entry(tag: u8, index: u16) -> ConstantPoolEntryView {
    if tag == CONSTANT_CLASS {
        ConstantPoolEntryView::Class { name_index: index }
    } else {
        ConstantPoolEntryView::String { string_index: index }
    }
}

/// One constant pool entry: a tag byte, then the body that the tag calls
/// for. A tag outside the supported seven is reported with only the tag
/// taken.
pub open spec fn spec_read_constant_pool_entry(s: Seq<u8>) -> Parsed<ConstantPoolEntryView> {
    if s.len() == 0 {
        truncated()
    } else {
        let tag = s[0];
        let body = s.skip(1);
        if tag == CONSTANT_METHODREF || tag == CONSTANT_FIELDREF || tag == CONSTANT_NAME_AND_TYPE {
            if body.len() < 4 {
                truncated()
            } else {
                (Ok(pair_entry(tag, u16_at(body, 0), u16_at(body, 2))), body.skip(4))
            }
        } else if tag == CONSTANT_CLASS || tag == CONSTANT_STRING {
            if body.len() < 2 {
                truncated()
            } else {
                (Ok(single_entry(tag, u16_at(body, 0))), body.skip(2))
            }
        } else if tag == CONSTANT_UTF8 {
            if body.len() < 2 {
                truncated()
            } else {
                let text = spec_read_utf8(body.skip(2), u16_at(body, 0) as nat);
                match text.0 {
                    Ok(chars) => (Ok(ConstantPoolEntryView::Utf8(chars)), text.1),
                    Err(e) => (Err(e), text.1),
                }
            }
        } else if tag == CONSTANT_INTEGER {
            if body.len() < 4 {
                truncated()
            } else {
                (Ok(ConstantPoolEntryView::Integer { bytes: u32_at(body, 0) }), body.skip(4))
            }
        } else {
            (Err(ClassReaderErrorView::InvalidConstantTag(tag)), body)
        }
    }
}

/// `length` constant pool entries in a row, stopping at the first failure.
pub open spec fn spec_read_constant_pool_entries(s: Seq<u8>, length: nat) -> Parsed<
    Seq<ConstantPoolEntryView>,
>
    decreases length,
{
    if length == 0 {
        (Ok(Seq::empty()), s)
    } else {
        let first = spec_read_constant_pool_entry(s);
        match first.0 {
            Ok(entry) => prepend(
                seq![entry],
                spec_read_constant_pool_entries(first.1, (length - 1) as nat),
            ),
            Err(e) => (Err(e), first.1),
        }
    }
}

/// The verification type that a tag without operand stands for.
pub open spec fn plain_verification_type(tag: u8) -> VerificationTypeInfo {
    if tag == 0 {
        VerificationTypeInfo::Top
    } else if tag == 1 {
        VerificationTypeInfo::Integer
    } else if tag == 2 {
        VerificationTypeInfo::Float
    } else if tag == 3 {
        VerificationTypeInfo::Double
    } else if tag == 4 {
        VerificationTypeInfo::Long
    } else if tag == 5 {
        VerificationTypeInfo::Null
    } else {
        VerificationTypeInfo::UninitializedThis
    }
}

/// One verification type: a tag byte from 0 to 8; tags 7 and 8 are followed
/// by one 16-bit operand.
pub open spec fn spec_read_verification_type_info(s: Seq<u8>) -> Parsed<VerificationTypeInfo> {
    if s.len() == 0 {
        truncated()
    } else {
        let tag = s[0];
        let body = s.skip(1);
        if tag <= 6 {
            (Ok(plain_verification_type(tag)), body)
        } else if tag == 7 || tag == 8 {
            if body.len() < 2 {
                truncated()
            } else if tag == 7 {
                (Ok(VerificationTypeInfo::Object(u16_at(body, 0))), body.skip(2))
            } else {
                (Ok(VerificationTypeInfo::Uninitialized(u16_at(body, 0))), body.skip(2))
            }
        } else {
            (Err(ClassReaderErrorView::InvalidVerificationTypeInfo(tag)), body)
        }
    }
}

/// `length` verification types in a row, stopping at the first failure.
pub open spec fn spec_read_verification_type_infos(s: Seq<u8>, length: nat) -> Parsed<
    Seq<VerificationTypeInfo>,
>
    decreases length,
{
    if length == 0 {
        (Ok(Seq::empty()), s)
    } else {
        let first = spec_read_verification_type_info(s);
        match first.0 {
            Ok(info) => prepend(
                seq![info],
                spec_read_verification_type_infos(first.1, (length - 1) as nat),
            ),
            Err(e) => (Err(e), first.1),
        }
    }
}

/// The body of a full frame, after its offset: a counted list of locals,
/// then a counted list of stack items.
pub open spec fn spec_read_full_frame(offset_delta: u16, s: Seq<u8>) -> Parsed<StackMapFrameView> {
    if s.len() < 2 {
        truncated()
    } else {
        let locals = spec_read_verification_type_infos(s.skip(2), u16_at(s, 0) as nat);
        match locals.0 {
            Err(e) => (Err(e), locals.1),
            Ok(local_types) => if locals.1.len() < 2 {
                truncated()
            } else {
                let stack = spec_read_verification_type_infos(
                    locals.1.skip(2),
                    u16_at(locals.1, 0) as nat,
                );
                match stack.0 {
                    Err(e) => (Err(e), stack.1),
                    Ok(stack_types) => (
                        Ok(
                            StackMapFrameView::FullFrame {
                                offset_delta,
                                locals: local_types,
                                stack: stack_types,
                            },
                        ),
                        stack.1,
                    ),
                }
            },
        }
    }
}

/// One stack map frame. The type byte selects the kind by range: same frame
/// (0 to 63), one stack item (64 to 127, and 247), chop (248 to 250), same
/// frame extended (251), append (252 to 254, with `type - 251` locals) and
/// full frame (255). The bytes 128 to 246 are reserved and refused.
pub open spec fn spec_read_stack_map_frame(s: Seq<u8>) -> Parsed<StackMapFrameView> {
    if s.len() == 0 {
        truncated()
    } else {
        let kind = s[0];
        let body = s.skip(1);
        if kind <= 63 {
            (Ok(StackMapFrameView::SameFrame), body)
        } else if kind <= 127 || kind == 247 {
            let item = spec_read_verification_type_info(body);
            match item.0 {
                Err(e) => (Err(e), item.1),
                Ok(info) => if kind == 247 {
                    (Ok(StackMapFrameView::SameLocals1StackItemFrameExtended { info }), item.1)
                } else {
                    (Ok(StackMapFrameView::SameLocals1StackItemFrame { info }), item.1)
                },
            }
        } else if kind <= 246 {
            (Err(ClassReaderErrorView::InvalidStackMapFrame(kind)), body)
        } else if body.len() < 2 {
            truncated()
        } else {
            let offset_delta = u16_at(body, 0);
            let after = body.skip(2);
            if kind <= 250 {
                (Ok(StackMapFrameView::ChopFrame { offset_delta }), after)
            } else if kind == 251 {
                (Ok(StackMapFrameView::SameFrameExtended { offset_delta }), after)
            } else if kind <= 254 {
                let locals = spec_read_verification_type_infos(after, (kind - 251) as nat);
                match locals.0 {
                    Err(e) => (Err(e), locals.1),
                    Ok(local_types) => (
                        Ok(StackMapFrameView::AppendFrame { offset_delta, locals: local_types }),
                        locals.1,
                    ),
                }
            } else {
                spec_read_full_frame(offset_delta, after)
            }
        }
    }
}

/// `length` stack map frames in a row, stopping at the first failure.
pub open spec fn spec_read_stack_map_frames(s: Seq<u8>, length: nat) -> Parsed<
    Seq<StackMapFrameView>,
>
    decreases length,
{
    if length == 0 {
        (Ok(Seq::empty()), s)
    } else {
        let first = spec_read_stack_map_frame(s);
        match first.0 {
            Ok(frame) => prepend(
                seq![frame],
                spec_read_stack_map_frames(first.1, (length - 1) as nat),
            ),
            Err(e) => (Err(e), first.1),
        }
    }
}

/// One row of a line number table: two 16-bit numbers.
pub open spec fn spec_read_line_number_table_entry(s: Seq<u8>) -> Parsed<LineNumberTableEntry> {
    if s.len() >= 4 {
        (
            Ok(LineNumberTableEntry { start_pc: u16_at(s, 0), line_number: u16_at(s, 2) }),
            s.skip(4),
        )
    } else {
        truncated()
    }
}

/// `length` rows of a line number table.
pub open spec fn spec_read_line_number_table_entries(s: Seq<u8>, length: nat) -> Parsed<
    Seq<LineNumberTableEntry>,
> {
    if s.len() >= 4 * length {
        (
            Ok(
                Seq::new(
                    length,
                    |i: int|
                        LineNumberTableEntry {
                            start_pc: u16_at(s, 4 * i),
                            line_number: u16_at(s, 4 * i + 2),
                        },
                ),
            ),
            s.skip(4 * length as int),
        )
    } else {
        truncated()
    }
}

/// Whether `name` is one of the six attribute names that are decoded.
pub open spec fn is_recognized_attribute_name(name: Seq<char>) -> bool {
    name == "Code"@ || name == "StackMapTable"@ || name == "LineNumberTable"@ || name
        == "SourceFile"@ || name == "Signature"@ || name == "Exceptions"@
}

/// The body of a `Code` attribute: two capacities, the counted code bytes,
/// the exception table's length (its rows are not read) and a counted list
/// of nested attributes.
pub open spec fn spec_read_code(body: Seq<u8>, pool: Seq<ConstantPoolEntryView>) -> Parsed<
    AttributeView,
>
    decreases body.len(), 1nat,
{
    if body.len() < 8 {
        truncated()
    } else {
        let code_length = u32_at(body, 4) as int;
        let after = body.skip(8);
        if after.len() < code_length {
            (Err(ClassReaderErrorView::EndOfStream), after)
        } else {
            let tail = after.skip(code_length);
            if tail.len() < 4 {
                truncated()
            } else {
                let nested = spec_read_attributes(tail.skip(4), u16_at(tail, 2) as nat, pool);
                match nested.0 {
                    Err(e) => (Err(e), nested.1),
                    Ok(attributes) => (
                        Ok(
                            AttributeView::Code {
                                max_stack: u16_at(body, 0),
                                max_locals: u16_at(body, 2),
                                code: after.take(code_length),
                                exceptions: Seq::empty(),
                                attributes,
                            },
                        ),
                        nested.1,
                    ),
                }
            }
        }
    }
}

/// A body that is one 16-bit index: a `Signature` attribute where
/// `signature` holds, a `SourceFile` attribute where it does not.
pub open spec fn spec_read_index_body(body: Seq<u8>, signature: bool) -> Parsed<AttributeView> {
    if body.len() < 2 {
        truncated()
    } else if signature {
        (Ok(AttributeView::Signature { index: u16_at(body, 0) }), body.skip(2))
    } else {
        (Ok(AttributeView::SourceFile { index: u16_at(body, 0) }), body.skip(2))
    }
}

/// The body of a `StackMapTable` attribute: a counted list of frames.
pub open spec fn spec_read_stack_map_table(body: Seq<u8>) -> Parsed<AttributeView> {
    if body.len() < 2 {
        truncated()
    } else {
        let frames = spec_read_stack_map_frames(body.skip(2), u16_at(body, 0) as nat);
        match frames.0 {
            Err(e) => (Err(e), frames.1),
            Ok(entries) => (Ok(AttributeView::StackMapTable { entries }), frames.1),
        }
    }
}

/// The body of a `LineNumberTable` attribute: a counted list of rows.
pub open spec fn spec_read_line_number_table(body: Seq<u8>) -> Parsed<AttributeView> {
    if body.len() < 2 {
        truncated()
    } else {
        let rows = spec_read_line_number_table_entries(body.skip(2), u16_at(body, 0) as nat);
        match rows.0 {
            Err(e) => (Err(e), rows.1),
            Ok(entries) => (Ok(AttributeView::LineNumberTable(entries)), rows.1),
        }
    }
}

/// The body of an `Exceptions` attribute: a counted list of class indices.
pub open spec fn spec_read_exceptions(body: Seq<u8>) -> Parsed<AttributeView> {
    if body.len() < 2 {
        truncated()
    } else {
        let indices = spec_read_u16_array(body.skip(2), u16_at(body, 0) as nat);
        match indices.0 {
            Err(e) => (Err(e), indices.1),
            Ok(exception_index) => (Ok(AttributeView::Exceptions { exception_index }), indices.1),
        }
    }
}

/// An attribute body decoded under its name. The name must be one of the
/// recognized six, and decoding must use up the body to its last byte.
pub open spec fn spec_attribute_body(
    name: Seq<char>,
    body: Seq<u8>,
    pool: Seq<ConstantPoolEntryView>,
) -> Result<AttributeView, ClassReaderErrorView>
    decreases body.len(), 2nat,
{
    if !is_recognized_attribute_name(name) {
        Err(ClassReaderErrorView::InvalidAttributeName(name))
    } else {
        let decoded = if name == "Code"@ {
            spec_read_code(body, pool)
        } else if name == "StackMapTable"@ {
            spec_read_stack_map_table(body)
        } else if name == "LineNumberTable"@ {
            spec_read_line_number_table(body)
        } else if name == "SourceFile"@ {
            spec_read_index_body(body, false)
        } else if name == "Signature"@ {
            spec_read_index_body(body, true)
        } else {
            spec_read_exceptions(body)
        };
        match decoded.0 {
            Err(e) => Err(e),
            Ok(attribute) => if decoded.1.len() > 0 {
                Err(ClassReaderErrorView::RemainingBytes)
            } else {
                Ok(attribute)
            },
        }
    }
}

/// The bytes that are left after one attribute. The six-byte header decides
/// this alone: a body that is all there is taken whole, whatever it holds.
pub open spec fn spec_attribute_rest(s: Seq<u8>) -> Seq<u8> {
    if s.len() < 6 {
        Seq::empty()
    } else if s.len() - 6 < u32_at(s, 2) {
        s.skip(6)
    } else {
        s.skip(6 + u32_at(s, 2))
    }
}

/// The attribute at the front of `s`: a name index, a 32-bit length and a
/// body of that length, decoded under the name that the index resolves to.
pub open spec fn spec_attribute_outcome(s: Seq<u8>, pool: Seq<ConstantPoolEntryView>) -> Result<
    AttributeView,
    ClassReaderErrorView,
>
    decreases s.len(), 0nat,
{
    if s.len() < 6 || s.len() - 6 < u32_at(s, 2) {
        Err(ClassReaderErrorView::EndOfStream)
    } else {
        match pool_utf8(pool, u16_at(s, 0)) {
            Err(_) => Err(ClassReaderErrorView::ExpectedAttributeName),
            Ok(name) => spec_attribute_body(name, s.subrange(6, 6 + u32_at(s, 2)), pool),
        }
    }
}

/// One attribute: what it is, and what is left after it.
pub open spec fn spec_read_attribute(s: Seq<u8>, pool: Seq<ConstantPoolEntryView>) -> Parsed<
    AttributeView,
> {
    (spec_attribute_outcome(s, pool), spec_attribute_rest(s))
}

/// `length` attributes in a row, stopping at the first failure.
pub open spec fn spec_read_attributes(
    s: Seq<u8>,
    length: nat,
    pool: Seq<ConstantPoolEntryView>,
) -> Parsed<Seq<AttributeView>>
    decreases s.len(), length + 1,
{
    if length == 0 {
        (Ok(Seq::empty()), s)
    } else {
        match spec_attribute_outcome(s, pool) {
            Ok(attribute) => prepend(
                seq![attribute],
                spec_read_attributes(spec_attribute_rest(s), (length - 1) as nat, pool),
            ),
            Err(e) => (Err(e), spec_attribute_rest(s)),
        }
    }
}

/// A 16-bit count, then that many attributes.
pub open spec fn spec_read_counted_attributes(
    s: Seq<u8>,
    pool: Seq<ConstantPoolEntryView>,
) -> Parsed<Seq<AttributeView>> {
    if s.len() < 2 {
        truncated()
    } else {
        spec_read_attributes(s.skip(2), u16_at(s, 0) as nat, pool)
    }
}

/// One field: flags, name index, descriptor index and counted attributes.
pub open spec fn spec_read_field(s: Seq<u8>, pool: Seq<ConstantPoolEntryView>) -> Parsed<
    FieldView,
> {
    if s.len() < 6 {
        truncated()
    } else {
        let attributes = spec_read_counted_attributes(s.skip(6), pool);
        match attributes.0 {
            Err(e) => (Err(e), attributes.1),
            Ok(list) => (
                Ok(
                    FieldView {
                        access_flags: u16_at(s, 0),
                        name_index: u16_at(s, 2),
                        descriptor_index: u16_at(s, 4),
                        attributes: list,
                    },
                ),
                attributes.1,
            ),
        }
    }
}

/// `length` fields in a row, stopping at the first failure.
pub open spec fn spec_read_fields(
    s: Seq<u8>,
    length: nat,
    pool: Seq<ConstantPoolEntryView>,
) -> Parsed<Seq<FieldView>>
    decreases length,
{
    if length == 0 {
        (Ok(Seq::empty()), s)
    } else {
        let first = spec_read_field(s, pool);
        match first.0 {
            Ok(field) => prepend(seq![field], spec_read_fields(first.1, (length - 1) as nat, pool)),
            Err(e) => (Err(e), first.1),
        }
    }
}

/// One method: flags, name index, descriptor index and counted attributes.
pub open spec fn spec_read_method(s: Seq<u8>, pool: Seq<ConstantPoolEntryView>) -> Parsed<
    MethodView,
> {
    if s.len() < 6 {
        truncated()
    } else {
        let attributes = spec_read_counted_attributes(s.skip(6), pool);
        match attributes.0 {
            Err(e) => (Err(e), attributes.1),
            Ok(list) => (
                Ok(
                    MethodView {
                        access_flags: u16_at(s, 0),
                        name_index: u16_at(s, 2),
                        descriptor_index: u16_at(s, 4),
                        attributes: list,
                    },
                ),
                attributes.1,
            ),
        }
    }
}

/// `length` methods in a row, stopping at the first failure.
pub open spec fn spec_read_methods(
    s: Seq<u8>,
    length: nat,
    pool: Seq<ConstantPoolEntryView>,
) -> Parsed<Seq<MethodView>>
    decreases length,
{
    if length == 0 {
        (Ok(Seq::empty()), s)
    } else {
        let first = spec_read_method(s, pool);
        match first.0 {
            Ok(method) => prepend(
                seq![method],
                spec_read_methods(first.1, (length - 1) as nat, pool),
            ),
            Err(e) => (Err(e), first.1),
        }
    }
}

/// The number of constant pool entries that a declared count stands for:
/// one less than the count, in 16-bit arithmetic.
pub open spec fn pool_length(count: u16) -> nat {
    if count == 0 {
        65535
    } else {
        (count - 1) as nat
    }
}

/// A 16-bit count, then that many fields.
pub open spec fn spec_read_counted_fields(s: Seq<u8>, pool: Seq<ConstantPoolEntryView>) -> Parsed<
    Seq<FieldView>,
> {
    if s.len() < 2 {
        truncated()
    } else {
        spec_read_fields(s.skip(2), u16_at(s, 0) as nat, pool)
    }
}

/// A 16-bit count, then that many methods.
pub open spec fn spec_read_counted_methods(s: Seq<u8>, pool: Seq<ConstantPoolEntryView>) -> Parsed<
    Seq<MethodView>,
> {
    if s.len() < 2 {
        truncated()
    } else {
        spec_read_methods(s.skip(2), u16_at(s, 0) as nat, pool)
    }
}

/// The last step of reading a class: `s` is what the top-level attributes
/// left, and it must be empty.
pub open spec fn spec_finish_class(class: ClassFileView, s: Seq<u8>) -> Parsed<ClassFileView> {
    if s.len() == 0 {
        (Ok(class), s)
    } else {
        (Err(ClassReaderErrorView::RemainingBytes), s)
    }
}

/// The members of a class, read after its interfaces: counted fields,
/// counted methods and counted attributes, with nothing left after them.
/// `class` carries what was read before; its three lists are replaced.
pub open spec fn spec_read_members(class: ClassFileView, s: Seq<u8>) -> Parsed<ClassFileView> {
    let fields = spec_read_counted_fields(s, class.constant_pool);
    match fields.0 {
        Err(e) => (Err(e), fields.1),
        Ok(field_list) => {
            let methods = spec_read_counted_methods(fields.1, class.constant_pool);
            match methods.0 {
                Err(e) => (Err(e), methods.1),
                Ok(method_list) => {
                    let attributes = spec_read_counted_attributes(methods.1, class.constant_pool);
                    match attributes.0 {
                        Err(e) => (Err(e), attributes.1),
                        Ok(attribute_list) => spec_finish_class(
                            ClassFileView {
                                fields: field_list,
                                methods: method_list,
                                attributes: attribute_list,
                                ..class
                            },
                            attributes.1,
                        ),
                    }
                },
            }
        },
    }
}

/// A class after its constant pool: access flags, this class, super class,
/// the counted interface indices, then the members.
pub open spec fn spec_read_class_body(
    magic: u32,
    minor_version: u16,
    major_version: u16,
    pool: Seq<ConstantPoolEntryView>,
    s: Seq<u8>,
) -> Parsed<ClassFileView> {
    if s.len() < 8 {
        truncated()
    } else {
        let interfaces = spec_read_u16_array(s.skip(8), u16_at(s, 6) as nat);
        match interfaces.0 {
            Err(e) => (Err(e), interfaces.1),
            Ok(interface_list) => spec_read_members(
                ClassFileView {
                    magic,
                    minor_version,
                    major_version,
                    constant_pool: pool,
                    access_flags: u16_at(s, 0),
                    this_class: u16_at(s, 2),
                    super_class: u16_at(s, 4),
                    interfaces: interface_list,
                    fields: Seq::empty(),
                    methods: Seq::empty(),
                    attributes: Seq::empty(),
                },
                interfaces.1,
            ),
        }
    }
}

/// A whole class file: the sentinel, the two version numbers, the constant
/// pool under its declared count, and the class body. The input must end
/// where the class ends.
pub open spec fn spec_read_class_file(s: Seq<u8>) -> Parsed<ClassFileView> {
    let magic = spec_read_magic(s);
    match magic.0 {
        Err(e) => (Err(e), magic.1),
        Ok(sentinel) => {
            let header = magic.1;
            if header.len() < 6 {
                truncated()
            } else {
                let pool = spec_read_constant_pool_entries(
                    header.skip(6),
                    pool_length(u16_at(header, 4)),
                );
                match pool.0 {
                    Err(e) => (Err(e), pool.1),
                    Ok(entries) => spec_read_class_body(
                        sentinel,
                        u16_at(header, 0),
                        u16_at(header, 2),
                        entries,
                        pool.1,
                    ),
                }
            }
        },
    }
}

} // verus!
