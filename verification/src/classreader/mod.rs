//! Reading a class file from bytes. Every reader takes what it reads off
//! the front of the buffer, one byte at a time, and leaves the rest.

use vstd::prelude::*;
use vstd::utf8::{decode_utf8, valid_utf8};

pub mod error;
pub mod grammar;
pub mod laws;

use crate::class::{ClassFile, ClassFileView, Field, Method, fields_view, methods_view};
use crate::class::attribute::{
    Attribute,
    ExceptionTableEntry,
    LineNumberTableEntry,
    StackMapFrame,
    VerificationTypeInfo,
    attributes_view,
    frames_view,
};
use crate::class::pool::{ConstantPool, ConstantPoolEntry, entries_view};
use crate::classreader::error::{
    ClassReaderError,
    ClassReaderErrorView,
    lemma_prepend_empty,
    lemma_prepend_empty_front,
    lemma_prepend_push,
    lift,
    lift_view,
    prepend,
};
use crate::classreader::grammar::{
    CONSTANT_CLASS,
    CONSTANT_FIELDREF,
    CONSTANT_INTEGER,
    CONSTANT_METHODREF,
    CONSTANT_NAME_AND_TYPE,
    CONSTANT_STRING,
    CONSTANT_UTF8,
    MAGIC_NUMBER,
    pool_length,
    spec_attribute_outcome,
    spec_attribute_rest,
    spec_read_attributes,
    spec_read_bytes,
    spec_read_class_file,
    spec_read_code,
    spec_read_constant_pool_entries,
    spec_read_constant_pool_entry,
    spec_read_exceptions,
    spec_read_field,
    spec_read_fields,
    spec_read_index_body,
    spec_read_line_number_table,
    spec_read_line_number_table_entries,
    spec_read_line_number_table_entry,
    spec_read_magic,
    spec_read_method,
    spec_read_methods,
    spec_read_stack_map_frame,
    spec_read_stack_map_frames,
    spec_read_stack_map_table,
    spec_read_u16,
    spec_read_u16_array,
    spec_read_u32,
    spec_read_u8,
    spec_read_utf8,
    spec_read_verification_type_info,
    spec_read_verification_type_infos,
    u16_at,
    u32_at,
};
use crate::classreader::laws::lemma_class_pool_count;

verus! {

/// Takes one byte off the front of the buffer.
pub fn read_u8(buffer: &mut Vec<u8>) -> (r: Result<u8, ClassReaderError>)
    ensures
        lift(r) == spec_read_u8(old(buffer)@).0,
        final(buffer)@ =~= spec_read_u8(old(buffer)@).1,
{
    if buffer.len() == 0 {
        Err(ClassReaderError::EndOfStream)
    } else {
        let byte = buffer.remove(0);
        Ok(byte)
    }
}

/// Takes a big-endian 16-bit number off the front of the buffer.
pub fn read_u16(buffer: &mut Vec<u8>) -> (r: Result<u16, ClassReaderError>)
    ensures
        lift(r) == spec_read_u16(old(buffer)@).0,
        final(buffer)@ =~= spec_read_u16(old(buffer)@).1,
{
    let b1 = read_u8(buffer)?;
    let b2 = read_u8(buffer)?;
    Ok((b1 as u16) * 256 + (b2 as u16))
}

/// Takes a big-endian 32-bit number off the front of the buffer.
pub fn read_u32(buffer: &mut Vec<u8>) -> (r: Result<u32, ClassReaderError>)
    ensures
        lift(r) == spec_read_u32(old(buffer)@).0,
        final(buffer)@ =~= spec_read_u32(old(buffer)@).1,
{
    let b1 = read_u8(buffer)?;
    let b2 = read_u8(buffer)?;
    let b3 = read_u8(buffer)?;
    let b4 = read_u8(buffer)?;
    Ok((b1 as u32) * 16777216 + (b2 as u32) * 65536 + (b3 as u32) * 256 + (b4 as u32))
}

/// Takes the next `length` bytes off the front of the buffer, or nothing
/// where fewer are left.
pub fn read_bytes(buffer: &mut Vec<u8>, length: usize) -> (r: Result<Vec<u8>, ClassReaderError>)
    ensures
        lift_view(r) =~~= spec_read_bytes(old(buffer)@, length as nat).0,
        final(buffer)@ =~= spec_read_bytes(old(buffer)@, length as nat).1,
{
    if buffer.len() < length {
        Err(ClassReaderError::EndOfStream)
    } else {
        let mut bytes: Vec<u8> = Vec::new();
        let mut index: usize = 0;
        while index < length
            invariant
                index <= length <= old(buffer)@.len(),
                bytes@ =~= old(buffer)@.take(index as int),
                buffer@ =~= old(buffer)@.skip(index as int),
            decreases length - index,
        {
            let b = read_u8(buffer)?;
            bytes.push(b);
            index += 1;
        }
        Ok(bytes)
    }
}

/// `String::from_utf8`: the bytes as text where they are valid UTF-8, and
/// nothing where they are not. The text is the one that the bytes encode.
#[verifier::external_body]
fn string_from_utf8(bytes: Vec<u8>) -> (r: Option<String>)
    ensures
        r.is_some() == valid_utf8(bytes@),
        r.is_some() ==> r.unwrap()@ == decode_utf8(bytes@),
{
    match String::from_utf8(bytes) {
        Ok(text) => Some(text),
        Err(_) => None,
    }
}

/// Takes the next `length` bytes off the front of the buffer as text.
pub fn read_utf8(buffer: &mut Vec<u8>, length: usize) -> (r: Result<String, ClassReaderError>)
    ensures
        lift_view(r) == spec_read_utf8(old(buffer)@, length as nat).0,
        final(buffer)@ =~= spec_read_utf8(old(buffer)@, length as nat).1,
{
    let bytes = read_bytes(buffer, length)?;
    match string_from_utf8(bytes) {
        Some(text) => Ok(text),
        None => Err(ClassReaderError::InvalidUtf8),
    }
}

/// Takes `length` big-endian 16-bit numbers off the front of the buffer.
pub fn read_u16_array(buffer: &mut Vec<u8>, length: u16) -> (r: Result<Vec<u16>, ClassReaderError>)
    ensures
        lift_view(r) =~~= spec_read_u16_array(old(buffer)@, length as nat).0,
        final(buffer)@ =~= spec_read_u16_array(old(buffer)@, length as nat).1,
{
    let mut entries: Vec<u16> = Vec::new();
    let mut index: u16 = 0;
    while index < length
        invariant
            index <= length,
            old(buffer)@.len() >= 2 * index,
            buffer@ =~= old(buffer)@.skip(2 * index),
            entries@.len() == index,
            forall|i: int| 0 <= i < index ==> entries@[i] == u16_at(old(buffer)@, 2 * i),
        decreases length - index,
    {
        let entry = read_u16(buffer)?;
        entries.push(entry);
        index += 1;
    }
    assert(entries@ =~= Seq::new(length as nat, |i: int| u16_at(old(buffer)@, 2 * i)));
    Ok(entries)
}

/// Takes the four-byte sentinel off the front of the buffer and checks it.
pub fn read_magic(buffer: &mut Vec<u8>) -> (r: Result<u32, ClassReaderError>)
    ensures
        lift(r) == spec_read_magic(old(buffer)@).0,
        final(buffer)@ =~= spec_read_magic(old(buffer)@).1,
        r is Ok ==> r.unwrap() == MAGIC_NUMBER,
{
    let magic = read_u32(buffer)?;
    if magic == MAGIC_NUMBER {
        Ok(magic)
    } else {
        Err(ClassReaderError::InvalidMagic(magic))
    }
}

/// Reads one constant pool entry: its tag, then the body that the tag calls
/// for.
pub fn read_constant_pool_entry(buffer: &mut Vec<u8>) -> (r: Result<
    ConstantPoolEntry,
    ClassReaderError,
>)
    ensures
        lift_view(r) == spec_read_constant_pool_entry(old(buffer)@).0,
        final(buffer)@ =~= spec_read_constant_pool_entry(old(buffer)@).1,
{
    let tag = read_u8(buffer)?;
    if tag == CONSTANT_METHODREF {
        let class_index = read_u16(buffer)?;
        let name_and_type_index = read_u16(buffer)?;
        Ok(ConstantPoolEntry::Methodref { class_index, name_and_type_index })
    } else if tag == CONSTANT_FIELDREF {
        let class_index = read_u16(buffer)?;
        let name_and_type_index = read_u16(buffer)?;
        Ok(ConstantPoolEntry::Fieldref { class_index, name_and_type_index })
    } else if tag == CONSTANT_CLASS {
        let name_index = read_u16(buffer)?;
        Ok(ConstantPoolEntry::Class { name_index })
    } else if tag == CONSTANT_UTF8 {
        let length = read_u16(buffer)?;
        let text = read_utf8(buffer, length as usize)?;
        Ok(ConstantPoolEntry::Utf8(text))
    } else if tag == CONSTANT_NAME_AND_TYPE {
        let name_index = read_u16(buffer)?;
        let descriptor_index = read_u16(buffer)?;
        Ok(ConstantPoolEntry::NameAndType { name_index, descriptor_index })
    } else if tag == CONSTANT_STRING {
        let string_index = read_u16(buffer)?;
        Ok(ConstantPoolEntry::String { string_index })
    } else if tag == CONSTANT_INTEGER {
        let bytes = read_u32(buffer)?;
        Ok(ConstantPoolEntry::Integer { bytes })
    } else {
        Err(ClassReaderError::InvalidConstantTag(tag))
    }
}

/// Reads `length` constant pool entries, in order, and stops at the first
/// that fails.
pub fn read_constant_pool_entries(buffer: &mut Vec<u8>, length: u16) -> (r: Result<
    Vec<ConstantPoolEntry>,
    ClassReaderError,
>)
    ensures
        match r {
            Ok(entries) => Ok::<_, _>(entries_view(entries@)),
            Err(e) => Err(e@),
        } == spec_read_constant_pool_entries(old(buffer)@, length as nat).0,
        final(buffer)@ == spec_read_constant_pool_entries(old(buffer)@, length as nat).1,
        r is Ok ==> r.unwrap().len() == length,
{
    let mut entries: Vec<ConstantPoolEntry> = Vec::new();
    let mut index: u16 = 0;
    proof {
        assert(entries_view(entries@) =~= Seq::empty());
        lemma_prepend_empty_front(spec_read_constant_pool_entries(buffer@, length as nat));
    }
    while index < length
        invariant
            index <= length,
            entries@.len() == index,
            prepend(
                entries_view(entries@),
                spec_read_constant_pool_entries(buffer@, (length - index) as nat),
            ) == spec_read_constant_pool_entries(old(buffer)@, length as nat),
        decreases length - index,
    {
        let ghost seen = entries_view(entries@);
        let entry = read_constant_pool_entry(buffer)?;
        proof {
            lemma_prepend_push(
                seen,
                entry@,
                spec_read_constant_pool_entries(buffer@, (length - index - 1) as nat),
            );
        }
        entries.push(entry);
        assert(entries_view(entries@) =~= seen.push(entry@));
        index += 1;
    }
    proof {
        lemma_prepend_empty(entries_view(entries@), buffer@);
    }
    Ok(entries)
}

/// Reads one verification type.
pub fn read_verification_type_info(buffer: &mut Vec<u8>) -> (r: Result<
    VerificationTypeInfo,
    ClassReaderError,
>)
    ensures
        lift(r) == spec_read_verification_type_info(old(buffer)@).0,
        final(buffer)@ =~= spec_read_verification_type_info(old(buffer)@).1,
{
    let tag = read_u8(buffer)?;
    if tag == 0 {
        Ok(VerificationTypeInfo::Top)
    } else if tag == 1 {
        Ok(VerificationTypeInfo::Integer)
    } else if tag == 2 {
        Ok(VerificationTypeInfo::Float)
    } else if tag == 3 {
        Ok(VerificationTypeInfo::Double)
    } else if tag == 4 {
        Ok(VerificationTypeInfo::Long)
    } else if tag == 5 {
        Ok(VerificationTypeInfo::Null)
    } else if tag == 6 {
        Ok(VerificationTypeInfo::UninitializedThis)
    } else if tag == 7 {
        let cpool_index = read_u16(buffer)?;
        Ok(VerificationTypeInfo::Object(cpool_index))
    } else if tag == 8 {
        let offset = read_u16(buffer)?;
        Ok(VerificationTypeInfo::Uninitialized(offset))
    } else {
        Err(ClassReaderError::InvalidVerificationTypeInfo(tag))
    }
}

/// Reads `length` verification types, in order, and stops at the first that
/// fails.
pub fn read_verification_type_infos(buffer: &mut Vec<u8>, length: u16) -> (r: Result<
    Vec<VerificationTypeInfo>,
    ClassReaderError,
>)
    ensures
        lift_view(r) == spec_read_verification_type_infos(old(buffer)@, length as nat).0,
        final(buffer)@ == spec_read_verification_type_infos(old(buffer)@, length as nat).1,
{
    let mut entries: Vec<VerificationTypeInfo> = Vec::new();
    let mut index: u16 = 0;
    proof {
        lemma_prepend_empty_front(spec_read_verification_type_infos(buffer@, length as nat));
    }
    while index < length
        invariant
            index <= length,
            prepend(
                entries@,
                spec_read_verification_type_infos(buffer@, (length - index) as nat),
            ) == spec_read_verification_type_infos(old(buffer)@, length as nat),
        decreases length - index,
    {
        let ghost seen = entries@;
        let entry = read_verification_type_info(buffer)?;
        proof {
            lemma_prepend_push(
                seen,
                entry,
                spec_read_verification_type_infos(buffer@, (length - index - 1) as nat),
            );
        }
        entries.push(entry);
        index += 1;
    }
    proof {
        lemma_prepend_empty(entries@, buffer@);
    }
    Ok(entries)
}

/// Reads one stack map frame; its first byte selects the kind.
pub fn read_stack_map_frame(buffer: &mut Vec<u8>) -> (r: Result<StackMapFrame, ClassReaderError>)
    ensures
        lift_view(r) == spec_read_stack_map_frame(old(buffer)@).0,
        final(buffer)@ =~= spec_read_stack_map_frame(old(buffer)@).1,
{
    let frame_type = read_u8(buffer)?;
    if frame_type <= 63 {
        Ok(StackMapFrame::SameFrame)
    } else if frame_type <= 127 {
        let info = read_verification_type_info(buffer)?;
        Ok(StackMapFrame::SameLocals1StackItemFrame { info })
    } else if frame_type == 247 {
        let info = read_verification_type_info(buffer)?;
        Ok(StackMapFrame::SameLocals1StackItemFrameExtended { info })
    } else if frame_type <= 246 {
        Err(ClassReaderError::InvalidStackMapFrame(frame_type))
    } else if frame_type <= 250 {
        let offset_delta = read_u16(buffer)?;
        Ok(StackMapFrame::ChopFrame { offset_delta })
    } else if frame_type == 251 {
        let offset_delta = read_u16(buffer)?;
        Ok(StackMapFrame::SameFrameExtended { offset_delta })
    } else if frame_type <= 254 {
        let offset_delta = read_u16(buffer)?;
        let count: u16 = (frame_type - 251) as u16;
        let locals = read_verification_type_infos(buffer, count)?;
        Ok(StackMapFrame::AppendFrame { offset_delta, locals })
    } else {
        let offset_delta = read_u16(buffer)?;
        let number_of_locals = read_u16(buffer)?;
        let locals = read_verification_type_infos(buffer, number_of_locals)?;
        let number_of_stack_items = read_u16(buffer)?;
        let stack = read_verification_type_infos(buffer, number_of_stack_items)?;
        Ok(StackMapFrame::FullFrame { offset_delta, locals, stack })
    }
}

/// Reads `length` stack map frames, in order, and stops at the first that
/// fails.
pub fn read_stack_map_frames(buffer: &mut Vec<u8>, length: u16) -> (r: Result<
    Vec<StackMapFrame>,
    ClassReaderError,
>)
    ensures
        match r {
            Ok(frames) => Ok::<_, _>(frames_view(frames@)),
            Err(e) => Err(e@),
        } == spec_read_stack_map_frames(old(buffer)@, length as nat).0,
        final(buffer)@ == spec_read_stack_map_frames(old(buffer)@, length as nat).1,
{
    let mut entries: Vec<StackMapFrame> = Vec::new();
    let mut index: u16 = 0;
    proof {
        assert(frames_view(entries@) =~= Seq::empty());
        lemma_prepend_empty_front(spec_read_stack_map_frames(buffer@, length as nat));
    }
    while index < length
        invariant
            index <= length,
            prepend(
                frames_view(entries@),
                spec_read_stack_map_frames(buffer@, (length - index) as nat),
            ) == spec_read_stack_map_frames(old(buffer)@, length as nat),
        decreases length - index,
    {
        let ghost seen = frames_view(entries@);
        let entry = read_stack_map_frame(buffer)?;
        proof {
            lemma_prepend_push(
                seen,
                entry@,
                spec_read_stack_map_frames(buffer@, (length - index - 1) as nat),
            );
        }
        entries.push(entry);
        assert(frames_view(entries@) =~= seen.push(entry@));
        index += 1;
    }
    proof {
        lemma_prepend_empty(frames_view(entries@), buffer@);
    }
    Ok(entries)
}

/// Reads one row of a line number table.
pub fn read_line_number_table_entry(buffer: &mut Vec<u8>) -> (r: Result<
    LineNumberTableEntry,
    ClassReaderError,
>)
    ensures
        lift(r) == spec_read_line_number_table_entry(old(buffer)@).0,
        final(buffer)@ =~= spec_read_line_number_table_entry(old(buffer)@).1,
{
    let start_pc = read_u16(buffer)?;
    let line_number = read_u16(buffer)?;
    Ok(LineNumberTableEntry { start_pc, line_number })
}

/// Reads `length` rows of a line number table.
pub fn read_line_number_table_entries(buffer: &mut Vec<u8>, length: u16) -> (r: Result<
    Vec<LineNumberTableEntry>,
    ClassReaderError,
>)
    ensures
        lift_view(r) =~~= spec_read_line_number_table_entries(old(buffer)@, length as nat).0,
        final(buffer)@ =~= spec_read_line_number_table_entries(old(buffer)@, length as nat).1,
{
    let mut entries: Vec<LineNumberTableEntry> = Vec::new();
    let mut index: u16 = 0;
    while index < length
        invariant
            index <= length,
            old(buffer)@.len() >= 4 * index,
            buffer@ =~= old(buffer)@.skip(4 * index),
            entries@.len() == index,
            forall|i: int|
                0 <= i < index ==> entries@[i] == (LineNumberTableEntry {
                    start_pc: u16_at(old(buffer)@, 4 * i),
                    line_number: u16_at(old(buffer)@, 4 * i + 2),
                }),
        decreases length - index,
    {
        let entry = read_line_number_table_entry(buffer)?;
        entries.push(entry);
        index += 1;
    }
    assert(entries@ =~= Seq::new(
        length as nat,
        |i: int|
            LineNumberTableEntry {
                start_pc: u16_at(old(buffer)@, 4 * i),
                line_number: u16_at(old(buffer)@, 4 * i + 2),
            },
    ));
    Ok(entries)
}

/// Whether `name` is the text `literal`.
fn is_name(name: &String, literal: &str) -> (r: bool)
    ensures
        r == (name@ == literal@),
{
    let other = literal.to_owned();
    *name == other
}

/// Reads the body of a `Code` attribute. The exception table's length is
/// read and its rows are not: the table of the result is empty.
pub fn read_code(buffer: &mut Vec<u8>, cp: &ConstantPool) -> (r: Result<
    Attribute,
    ClassReaderError,
>)
    ensures
        lift_view(r) == spec_read_code(old(buffer)@, cp@).0,
        final(buffer)@ =~= spec_read_code(old(buffer)@, cp@).1,
    decreases old(buffer)@.len(), 1nat,
{
    let max_stack = read_u16(buffer)?;
    let max_locals = read_u16(buffer)?;
    let code_length = read_u32(buffer)?;
    assert(buffer@ =~= old(buffer)@.skip(8));
    let code = read_bytes(buffer, code_length as usize)?;
    let ghost tail = buffer@;
    let _exception_table_length = read_u16(buffer)?;
    let exceptions: Vec<ExceptionTableEntry> = Vec::new();
    let attributes_count = read_u16(buffer)?;
    assert(buffer@ =~= tail.skip(4));
    let attributes = read_attributes(buffer, attributes_count, cp)?;
    Ok(Attribute::Code { max_stack, max_locals, code, exceptions, attributes })
}

/// Reads the body of a `StackMapTable` attribute.
pub fn read_stack_map_table(buffer: &mut Vec<u8>) -> (r: Result<Attribute, ClassReaderError>)
    ensures
        lift_view(r) == spec_read_stack_map_table(old(buffer)@).0,
        final(buffer)@ =~= spec_read_stack_map_table(old(buffer)@).1,
{
    let number_of_entries = read_u16(buffer)?;
    let entries = read_stack_map_frames(buffer, number_of_entries)?;
    Ok(Attribute::StackMapTable { entries })
}

/// Reads the body of a `LineNumberTable` attribute.
pub fn read_line_number_table(buffer: &mut Vec<u8>) -> (r: Result<Attribute, ClassReaderError>)
    ensures
        lift_view(r) == spec_read_line_number_table(old(buffer)@).0,
        final(buffer)@ =~= spec_read_line_number_table(old(buffer)@).1,
{
    let line_number_table_length = read_u16(buffer)?;
    let entries = read_line_number_table_entries(buffer, line_number_table_length)?;
    Ok(Attribute::LineNumberTable(entries))
}

/// Reads the body of an `Exceptions` attribute.
pub fn read_exceptions(buffer: &mut Vec<u8>) -> (r: Result<Attribute, ClassReaderError>)
    ensures
        lift_view(r) == spec_read_exceptions(old(buffer)@).0,
        final(buffer)@ =~= spec_read_exceptions(old(buffer)@).1,
{
    let number_of_exceptions = read_u16(buffer)?;
    let exception_index = read_u16_array(buffer, number_of_exceptions)?;
    Ok(Attribute::Exceptions { exception_index })
}

/// Reads a body that is one index: of a `Signature` attribute where
/// `signature` holds, of a `SourceFile` attribute where it does not.
pub fn read_index_body(buffer: &mut Vec<u8>, signature: bool) -> (r: Result<
    Attribute,
    ClassReaderError,
>)
    ensures
        lift_view(r) == spec_read_index_body(old(buffer)@, signature).0,
        final(buffer)@ =~= spec_read_index_body(old(buffer)@, signature).1,
{
    let index = read_u16(buffer)?;
    if signature {
        Ok(Attribute::Signature { index })
    } else {
        Ok(Attribute::SourceFile { index })
    }
}

/// Reads one attribute: its name index, its length and a body of that
/// length, which is decoded on its own under the name that the index
/// resolves to. The body must be used up to its last byte.
pub fn read_attribute(buffer: &mut Vec<u8>, cp: &ConstantPool) -> (r: Result<
    Attribute,
    ClassReaderError,
>)
    ensures
        lift_view(r) == spec_attribute_outcome(old(buffer)@, cp@),
        final(buffer)@ =~= spec_attribute_rest(old(buffer)@),
    decreases old(buffer)@.len(), 0nat,
{
    let attribute_name_index = read_u16(buffer)?;
    let attribute_length = read_u32(buffer)?;
    assert(buffer@ =~= old(buffer)@.skip(6));
    let mut attribute_buffer = read_bytes(buffer, attribute_length as usize)?;
    assert(attribute_buffer@ =~= old(buffer)@.subrange(6, 6 + attribute_length));
    assert(buffer@ =~= old(buffer)@.skip(6 + attribute_length));
    let attribute_name = match cp.get_utf8(attribute_name_index) {
        Ok(name) => name,
        Err(_) => {
            return Err(ClassReaderError::ExpectedAttributeName);
        },
    };
    let decoded = if is_name(&attribute_name, "Code") {
        read_code(&mut attribute_buffer, cp)
    } else if is_name(&attribute_name, "StackMapTable") {
        read_stack_map_table(&mut attribute_buffer)
    } else if is_name(&attribute_name, "LineNumberTable") {
        read_line_number_table(&mut attribute_buffer)
    } else if is_name(&attribute_name, "SourceFile") {
        read_index_body(&mut attribute_buffer, false)
    } else if is_name(&attribute_name, "Signature") {
        read_index_body(&mut attribute_buffer, true)
    } else if is_name(&attribute_name, "Exceptions") {
        read_exceptions(&mut attribute_buffer)
    } else {
        return Err(ClassReaderError::InvalidAttributeName(attribute_name));
    };
    let attribute = decoded?;
    if attribute_buffer.len() > 0 {
        Err(ClassReaderError::RemainingBytes)
    } else {
        Ok(attribute)
    }
}

/// Reads `length` attributes, in order, and stops at the first that fails.
pub fn read_attributes(buffer: &mut Vec<u8>, length: u16, cp: &ConstantPool) -> (r: Result<
    Vec<Attribute>,
    ClassReaderError,
>)
    ensures
        match r {
            Ok(list) => Ok::<_, _>(attributes_view(list@)),
            Err(e) => Err(e@),
        } == spec_read_attributes(old(buffer)@, length as nat, cp@).0,
        final(buffer)@ == spec_read_attributes(old(buffer)@, length as nat, cp@).1,
    decreases old(buffer)@.len(), length + 1,
{
    let mut entries: Vec<Attribute> = Vec::new();
    let mut index: u16 = 0;
    proof {
        assert(attributes_view(entries@) =~= Seq::empty());
        lemma_prepend_empty_front(spec_read_attributes(buffer@, length as nat, cp@));
    }
    while index < length
        invariant
            index <= length,
            buffer@.len() <= old(buffer)@.len(),
            prepend(
                attributes_view(entries@),
                spec_read_attributes(buffer@, (length - index) as nat, cp@),
            ) == spec_read_attributes(old(buffer)@, length as nat, cp@),
        decreases length - index,
    {
        let ghost seen = attributes_view(entries@);
        let entry = read_attribute(buffer, cp)?;
        proof {
            lemma_prepend_push(
                seen,
                entry@,
                spec_read_attributes(buffer@, (length - index - 1) as nat, cp@),
            );
        }
        entries.push(entry);
        assert(attributes_view(entries@) =~= seen.push(entry@));
        index += 1;
    }
    proof {
        lemma_prepend_empty(attributes_view(entries@), buffer@);
    }
    Ok(entries)
}

/// Reads one field.
pub fn read_field(buffer: &mut Vec<u8>, cp: &ConstantPool) -> (r: Result<Field, ClassReaderError>)
    ensures
        lift_view(r) == spec_read_field(old(buffer)@, cp@).0,
        final(buffer)@ =~= spec_read_field(old(buffer)@, cp@).1,
{
    let access_flags = read_u16(buffer)?;
    let name_index = read_u16(buffer)?;
    let descriptor_index = read_u16(buffer)?;
    assert(buffer@ =~= old(buffer)@.skip(6));
    let attributes_count = read_u16(buffer)?;
    assert(buffer@ =~= old(buffer)@.skip(6).skip(2));
    let attributes = read_attributes(buffer, attributes_count, cp)?;
    Ok(Field { access_flags, name_index, descriptor_index, attributes })
}

/// Reads `length` fields, in order, and stops at the first that fails.
pub fn read_fields(buffer: &mut Vec<u8>, length: u16, cp: &ConstantPool) -> (r: Result<
    Vec<Field>,
    ClassReaderError,
>)
    ensures
        match r {
            Ok(list) => Ok::<_, _>(fields_view(list@)),
            Err(e) => Err(e@),
        } == spec_read_fields(old(buffer)@, length as nat, cp@).0,
        final(buffer)@ == spec_read_fields(old(buffer)@, length as nat, cp@).1,
{
    let mut entries: Vec<Field> = Vec::new();
    let mut index: u16 = 0;
    proof {
        assert(fields_view(entries@) =~= Seq::empty());
        lemma_prepend_empty_front(spec_read_fields(buffer@, length as nat, cp@));
    }
    while index < length
        invariant
            index <= length,
            prepend(
                fields_view(entries@),
                spec_read_fields(buffer@, (length - index) as nat, cp@),
            ) == spec_read_fields(old(buffer)@, length as nat, cp@),
        decreases length - index,
    {
        let ghost seen = fields_view(entries@);
        let entry = read_field(buffer, cp)?;
        proof {
            lemma_prepend_push(
                seen,
                entry@,
                spec_read_fields(buffer@, (length - index - 1) as nat, cp@),
            );
        }
        entries.push(entry);
        assert(fields_view(entries@) =~= seen.push(entry@));
        index += 1;
    }
    proof {
        lemma_prepend_empty(fields_view(entries@), buffer@);
    }
    Ok(entries)
}

/// Reads one method.
pub fn read_method(buffer: &mut Vec<u8>, cp: &ConstantPool) -> (r: Result<Method, ClassReaderError>)
    ensures
        lift_view(r) == spec_read_method(old(buffer)@, cp@).0,
        final(buffer)@ =~= spec_read_method(old(buffer)@, cp@).1,
{
    let access_flags = read_u16(buffer)?;
    let name_index = read_u16(buffer)?;
    let descriptor_index = read_u16(buffer)?;
    assert(buffer@ =~= old(buffer)@.skip(6));
    let attributes_count = read_u16(buffer)?;
    assert(buffer@ =~= old(buffer)@.skip(6).skip(2));
    let attributes = read_attributes(buffer, attributes_count, cp)?;
    Ok(Method { access_flags, name_index, descriptor_index, attributes })
}

/// Reads `length` methods, in order, and stops at the first that fails.
pub fn read_methods(buffer: &mut Vec<u8>, length: u16, cp: &ConstantPool) -> (r: Result<
    Vec<Method>,
    ClassReaderError,
>)
    ensures
        match r {
            Ok(list) => Ok::<_, _>(methods_view(list@)),
            Err(e) => Err(e@),
        } == spec_read_methods(old(buffer)@, length as nat, cp@).0,
        final(buffer)@ == spec_read_methods(old(buffer)@, length as nat, cp@).1,
{
    let mut entries: Vec<Method> = Vec::new();
    let mut index: u16 = 0;
    proof {
        assert(methods_view(entries@) =~= Seq::empty());
        lemma_prepend_empty_front(spec_read_methods(buffer@, length as nat, cp@));
    }
    while index < length
        invariant
            index <= length,
            prepend(
                methods_view(entries@),
                spec_read_methods(buffer@, (length - index) as nat, cp@),
            ) == spec_read_methods(old(buffer)@, length as nat, cp@),
        decreases length - index,
    {
        let ghost seen = methods_view(entries@);
        let entry = read_method(buffer, cp)?;
        proof {
            lemma_prepend_push(
                seen,
                entry@,
                spec_read_methods(buffer@, (length - index - 1) as nat, cp@),
            );
        }
        entries.push(entry);
        assert(methods_view(entries@) =~= seen.push(entry@));
        index += 1;
    }
    proof {
        lemma_prepend_empty(methods_view(entries@), buffer@);
    }
    Ok(entries)
}

/// Reads a whole class file off the buffer. It succeeds exactly on the
/// inputs that the format admits, and then the buffer is left empty; on
/// failure the buffer holds what had not been taken when reading stopped.
pub fn read_class_file(buffer: &mut Vec<u8>) -> (r: Result<ClassFile, ClassReaderError>)
    ensures
        lift_view(r) == spec_read_class_file(old(buffer)@).0,
        final(buffer)@ =~= spec_read_class_file(old(buffer)@).1,
        r is Ok ==> final(buffer)@.len() == 0,
        r is Ok ==> old(buffer)@.len() >= 10 && r.unwrap().constant_pool@.len() == pool_length(
            u16_at(old(buffer)@, 8),
        ),
        old(buffer)@.len() >= 4 && u32_at(old(buffer)@, 0) != MAGIC_NUMBER ==> lift_view(r) == Err::<
            ClassFileView,
            _,
        >(ClassReaderErrorView::InvalidMagic(u32_at(old(buffer)@, 0))) && final(buffer)@
            == old(buffer)@.skip(4),
{
    proof {
        lemma_class_pool_count(buffer@);
    }
    let magic = read_magic(buffer)?;
    let ghost header = buffer@;
    let minor_version = read_u16(buffer)?;
    let major_version = read_u16(buffer)?;
    let cp_count = read_u16(buffer)?;
    assert(buffer@ =~= header.skip(6));
    let cp_length: u16 = if cp_count == 0 {
        65535
    } else {
        cp_count - 1
    };
    let cp_entries = read_constant_pool_entries(buffer, cp_length)?;
    let constant_pool = ConstantPool { entries: cp_entries };
    let ghost body = buffer@;
    let access_flags = read_u16(buffer)?;
    let this_class = read_u16(buffer)?;
    let super_class = read_u16(buffer)?;
    let interfaces_count = read_u16(buffer)?;
    assert(buffer@ =~= body.skip(8));
    let interfaces = read_u16_array(buffer, interfaces_count)?;
    let fields_count = read_u16(buffer)?;
    let fields = read_fields(buffer, fields_count, &constant_pool)?;
    let methods_count = read_u16(buffer)?;
    let methods = read_methods(buffer, methods_count, &constant_pool)?;
    let attributes_count = read_u16(buffer)?;
    let attributes = read_attributes(buffer, attributes_count, &constant_pool)?;
    let class_file = ClassFile {
        magic,
        minor_version,
        major_version,
        constant_pool,
        access_flags,
        this_class,
        super_class,
        interfaces,
        fields,
        methods,
        attributes,
    };
    if buffer.len() == 0 {
        Ok(class_file)
    } else {
        Err(ClassReaderError::RemainingBytes)
    }
}

} // verus!
