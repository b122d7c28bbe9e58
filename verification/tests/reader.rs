use ironjdk::class::attribute::{
    Attribute, LineNumberTableEntry, StackMapFrame, VerificationTypeInfo,
};
use ironjdk::class::pool::{ConstantPool, ConstantPoolEntry};
use ironjdk::class::ClassFile;
use ironjdk::classreader::error::ClassReaderError;
use ironjdk::classreader::{
    read_attribute, read_attributes, read_bytes, read_class_file, read_constant_pool_entries,
    read_constant_pool_entry, read_field, read_line_number_table_entries, read_magic,
    read_method, read_stack_map_frame, read_stack_map_frames, read_u16, read_u16_array,
    read_u32, read_u8, read_utf8, read_verification_type_info, read_verification_type_infos,
};

fn utf8_entry(text: &str) -> Vec<u8> {
    let mut bytes = vec![1, (text.len() >> 8) as u8, text.len() as u8];
    bytes.extend_from_slice(text.as_bytes());
    bytes
}

fn attribute(name_index: u16, body: &[u8]) -> Vec<u8> {
    let mut bytes = vec![(name_index >> 8) as u8, name_index as u8];
    bytes.extend_from_slice(&(body.len() as u32).to_be_bytes());
    bytes.extend_from_slice(body);
    bytes
}

/// The names that attributes go by, at indices 1 to 7 of the pool.
fn names_pool() -> ConstantPool {
    let mut pool = ConstantPool::new();
    for name in ["Code", "StackMapTable", "LineNumberTable", "SourceFile", "Signature", "Exceptions", "Deprecated"] {
        pool.entries.push(ConstantPoolEntry::Utf8(String::from(name)));
    }
    pool.entries.push(ConstantPoolEntry::Class { name_index: 1 });
    pool
}

/// A class `Main` with one field, one method with code, and a source file.
fn sample_class() -> Vec<u8> {
    let mut bytes = vec![0xca, 0xfe, 0xba, 0xbe, 0x00, 0x03, 0x00, 0x34];
    bytes.extend_from_slice(&[0x00, 0x0c]); // eleven entries
    bytes.extend(utf8_entry("Main")); // 1
    bytes.extend_from_slice(&[7, 0, 1]); // 2: class Main
    bytes.extend(utf8_entry("java/lang/Object")); // 3
    bytes.extend_from_slice(&[7, 0, 3]); // 4: class Object
    bytes.extend(utf8_entry("Code")); // 5
    bytes.extend(utf8_entry("SourceFile")); // 6
    bytes.extend(utf8_entry("Main.java")); // 7
    bytes.extend(utf8_entry("run")); // 8
    bytes.extend(utf8_entry("()V")); // 9
    bytes.extend_from_slice(&[12, 0, 8, 0, 9]); // 10: run ()V
    bytes.extend_from_slice(&[10, 0, 4, 0, 10]); // 11: Object.run ()V
    bytes.extend_from_slice(&[0x00, 0x21]); // access flags
    bytes.extend_from_slice(&[0x00, 0x02]); // this class
    bytes.extend_from_slice(&[0x00, 0x04]); // super class
    bytes.extend_from_slice(&[0x00, 0x01, 0x00, 0x04]); // one interface
    bytes.extend_from_slice(&[0x00, 0x01]); // one field
    bytes.extend_from_slice(&[0x00, 0x02, 0x00, 0x08, 0x00, 0x09, 0x00, 0x00]);
    bytes.extend_from_slice(&[0x00, 0x01]); // one method
    bytes.extend_from_slice(&[0x00, 0x01, 0x00, 0x08, 0x00, 0x09, 0x00, 0x01]);
    // its code: max_stack 2, max_locals 1, four code bytes, no table, no
    // nested attribute
    bytes.extend(attribute(
        5,
        &[0x00, 0x02, 0x00, 0x01, 0x00, 0x00, 0x00, 0x04, 0x05, 0x06, 0x60, 0xb1, 0x00, 0x00, 0x00, 0x00],
    ));
    bytes.extend_from_slice(&[0x00, 0x01]); // one class attribute
    bytes.extend(attribute(6, &[0x00, 0x07]));
    bytes
}

fn parse(bytes: &[u8]) -> (Result<ClassFile, ClassReaderError>, Vec<u8>) {
    let mut buffer = bytes.to_vec();
    let result = read_class_file(&mut buffer);
    (result, buffer)
}

#[test]
fn read_u8_takes_one_byte() {
    let mut buffer = vec![0xab, 0xcd];
    assert!(matches!(read_u8(&mut buffer), Ok(0xab)));
    assert_eq!(buffer, vec![0xcd]);
    assert!(matches!(read_u8(&mut buffer), Ok(0xcd)));
    assert!(matches!(read_u8(&mut buffer), Err(ClassReaderError::EndOfStream)));
    assert!(buffer.is_empty());
}

#[test]
fn read_u16_is_big_endian() {
    let mut buffer = vec![0x12, 0x34, 0xff, 0xff, 0x01];
    assert!(matches!(read_u16(&mut buffer), Ok(0x1234)));
    assert!(matches!(read_u16(&mut buffer), Ok(0xffff)));
    assert_eq!(buffer, vec![0x01]);
}

#[test]
fn read_u16_cut_short_takes_what_is_left() {
    let mut buffer = vec![0x12];
    assert!(matches!(read_u16(&mut buffer), Err(ClassReaderError::EndOfStream)));
    assert!(buffer.is_empty());
}

#[test]
fn read_u32_is_big_endian() {
    let mut buffer = vec![0xde, 0xad, 0xbe, 0xef, 0x00];
    assert!(matches!(read_u32(&mut buffer), Ok(0xdeadbeef)));
    assert_eq!(buffer, vec![0x00]);
    let mut buffer = vec![0x00, 0x00, 0x01, 0x00];
    assert!(matches!(read_u32(&mut buffer), Ok(256)));
    let mut buffer = vec![1, 2, 3];
    assert!(matches!(read_u32(&mut buffer), Err(ClassReaderError::EndOfStream)));
    assert!(buffer.is_empty());
}

#[test]
fn read_bytes_takes_all_or_nothing() {
    let mut buffer = vec![1, 2, 3, 4, 5];
    assert_eq!(read_bytes(&mut buffer, 3).unwrap(), vec![1, 2, 3]);
    assert_eq!(buffer, vec![4, 5]);
    assert!(matches!(read_bytes(&mut buffer, 3), Err(ClassReaderError::EndOfStream)));
    assert_eq!(buffer, vec![4, 5]);
    assert_eq!(read_bytes(&mut buffer, 0).unwrap(), Vec::<u8>::new());
    assert_eq!(read_bytes(&mut buffer, 2).unwrap(), vec![4, 5]);
    assert!(buffer.is_empty());
}

#[test]
fn read_utf8_decodes_text() {
    let mut buffer = "héllo!".as_bytes().to_vec();
    assert_eq!(read_utf8(&mut buffer, 6).unwrap(), "héllo");
    assert_eq!(buffer, vec![b'!']);
}

#[test]
fn read_utf8_refuses_bytes_that_are_not_text() {
    let mut buffer = vec![b'a', 0xff, b'b', b'c'];
    assert!(matches!(read_utf8(&mut buffer, 3), Err(ClassReaderError::InvalidUtf8)));
    assert_eq!(buffer, vec![b'c']);
    // a character cut in the middle
    let mut buffer = vec![0xc3];
    assert!(matches!(read_utf8(&mut buffer, 1), Err(ClassReaderError::InvalidUtf8)));
    let mut buffer = vec![b'a'];
    assert!(matches!(read_utf8(&mut buffer, 2), Err(ClassReaderError::EndOfStream)));
    assert_eq!(buffer, vec![b'a']);
}

#[test]
fn read_u16_array_reads_in_order() {
    let mut buffer = vec![0, 1, 0, 2, 1, 0, 9];
    assert_eq!(read_u16_array(&mut buffer, 3).unwrap(), vec![1, 2, 256]);
    assert_eq!(buffer, vec![9]);
    assert_eq!(read_u16_array(&mut buffer, 0).unwrap(), Vec::<u16>::new());
    assert!(matches!(read_u16_array(&mut buffer, 1), Err(ClassReaderError::EndOfStream)));
    assert!(buffer.is_empty());
}

#[test]
fn magic_is_accepted() {
    let mut buffer = vec![0xca, 0xfe, 0xba, 0xbe, 0x00];
    assert!(matches!(read_magic(&mut buffer), Ok(0xcafebabe)));
    assert_eq!(buffer, vec![0x00]);
}

#[test]
fn bad_magic_carries_the_value_and_reads_no_further() {
    let mut buffer = vec![0xca, 0xfe, 0xba, 0xbf, 0x00, 0x00, 0x00, 0x34, 0x00];
    assert!(matches!(read_class_file(&mut buffer), Err(ClassReaderError::InvalidMagic(0xcafebabf))));
    assert_eq!(buffer, vec![0x00, 0x00, 0x00, 0x34, 0x00]);
    let mut buffer = vec![0x00, 0x00, 0x00, 0x00];
    assert!(matches!(read_class_file(&mut buffer), Err(ClassReaderError::InvalidMagic(0))));
    assert!(buffer.is_empty());
    let mut buffer = vec![0xca, 0xfe, 0xba];
    assert!(matches!(read_class_file(&mut buffer), Err(ClassReaderError::EndOfStream)));
}

#[test]
fn pool_entries_of_every_supported_tag() {
    let mut buffer = Vec::new();
    buffer.extend_from_slice(&[10, 0, 1, 0, 2]);
    buffer.extend_from_slice(&[9, 0, 3, 0, 4]);
    buffer.extend_from_slice(&[7, 0, 5]);
    buffer.extend(utf8_entry("hi"));
    buffer.extend_from_slice(&[12, 0, 6, 0, 7]);
    buffer.extend_from_slice(&[8, 0, 8]);
    buffer.extend_from_slice(&[3, 0xff, 0xff, 0xff, 0xfe]);
    buffer.push(0x77);
    let entries = read_constant_pool_entries(&mut buffer, 7).unwrap();
    assert_eq!(entries.len(), 7);
    assert!(matches!(entries[0], ConstantPoolEntry::Methodref { class_index: 1, name_and_type_index: 2 }));
    assert!(matches!(entries[1], ConstantPoolEntry::Fieldref { class_index: 3, name_and_type_index: 4 }));
    assert!(matches!(entries[2], ConstantPoolEntry::Class { name_index: 5 }));
    assert!(matches!(&entries[3], ConstantPoolEntry::Utf8(text) if text == "hi"));
    assert!(matches!(entries[4], ConstantPoolEntry::NameAndType { name_index: 6, descriptor_index: 7 }));
    assert!(matches!(entries[5], ConstantPoolEntry::String { string_index: 8 }));
    assert!(matches!(entries[6], ConstantPoolEntry::Integer { bytes: 0xfffffffe }));
    assert_eq!(buffer, vec![0x77]);
}

#[test]
fn an_unsupported_tag_carries_the_byte() {
    // 5 is the tag of a long
    let mut buffer = vec![5, 0, 0, 0, 0, 0, 0, 0, 1];
    assert!(matches!(read_constant_pool_entry(&mut buffer), Err(ClassReaderError::InvalidConstantTag(5))));
    assert_eq!(buffer.len(), 8);
    let mut buffer = vec![7, 0, 1, 0];
    assert!(matches!(read_constant_pool_entries(&mut buffer, 2), Err(ClassReaderError::InvalidConstantTag(0))));
}

#[test]
fn a_pool_entry_cut_short() {
    let mut buffer = vec![10, 0, 1, 0];
    assert!(matches!(read_constant_pool_entry(&mut buffer), Err(ClassReaderError::EndOfStream)));
    let mut buffer = vec![1, 0, 5, b'a'];
    assert!(matches!(read_constant_pool_entry(&mut buffer), Err(ClassReaderError::EndOfStream)));
    let mut buffer = vec![];
    assert!(matches!(read_constant_pool_entry(&mut buffer), Err(ClassReaderError::EndOfStream)));
    let mut buffer = vec![1, 0, 1, 0x80];
    assert!(matches!(read_constant_pool_entry(&mut buffer), Err(ClassReaderError::InvalidUtf8)));
}

#[test]
fn verification_types() {
    let mut buffer = vec![0, 1, 2, 3, 4, 5, 6, 7, 0x01, 0x02, 8, 0x00, 0x09];
    let infos = read_verification_type_infos(&mut buffer, 9).unwrap();
    assert_eq!(
        infos,
        vec![
            VerificationTypeInfo::Top,
            VerificationTypeInfo::Integer,
            VerificationTypeInfo::Float,
            VerificationTypeInfo::Double,
            VerificationTypeInfo::Long,
            VerificationTypeInfo::Null,
            VerificationTypeInfo::UninitializedThis,
            VerificationTypeInfo::Object(0x0102),
            VerificationTypeInfo::Uninitialized(9),
        ]
    );
    assert!(buffer.is_empty());
    let mut buffer = vec![9];
    assert!(matches!(
        read_verification_type_info(&mut buffer),
        Err(ClassReaderError::InvalidVerificationTypeInfo(9))
    ));
    let mut buffer = vec![7, 0];
    assert!(matches!(read_verification_type_info(&mut buffer), Err(ClassReaderError::EndOfStream)));
}

#[test]
fn stack_map_frames_by_type_byte() {
    let mut buffer = vec![0];
    assert!(matches!(read_stack_map_frame(&mut buffer), Ok(StackMapFrame::SameFrame)));
    let mut buffer = vec![63];
    assert!(matches!(read_stack_map_frame(&mut buffer), Ok(StackMapFrame::SameFrame)));
    let mut buffer = vec![64, 1];
    assert!(matches!(
        read_stack_map_frame(&mut buffer),
        Ok(StackMapFrame::SameLocals1StackItemFrame { info: VerificationTypeInfo::Integer })
    ));
    let mut buffer = vec![127, 7, 0, 3];
    assert!(matches!(
        read_stack_map_frame(&mut buffer),
        Ok(StackMapFrame::SameLocals1StackItemFrame { info: VerificationTypeInfo::Object(3) })
    ));
    let mut buffer = vec![247, 4];
    assert!(matches!(
        read_stack_map_frame(&mut buffer),
        Ok(StackMapFrame::SameLocals1StackItemFrameExtended { info: VerificationTypeInfo::Long })
    ));
    let mut buffer = vec![248, 0, 5];
    assert!(matches!(read_stack_map_frame(&mut buffer), Ok(StackMapFrame::ChopFrame { offset_delta: 5 })));
    let mut buffer = vec![250, 1, 0];
    assert!(matches!(read_stack_map_frame(&mut buffer), Ok(StackMapFrame::ChopFrame { offset_delta: 256 })));
    let mut buffer = vec![251, 0, 7];
    assert!(matches!(
        read_stack_map_frame(&mut buffer),
        Ok(StackMapFrame::SameFrameExtended { offset_delta: 7 })
    ));
}

#[test]
fn append_frame_has_type_minus_251_locals() {
    let mut buffer = vec![253, 0, 9, 1, 2, 0xee];
    match read_stack_map_frame(&mut buffer) {
        Ok(StackMapFrame::AppendFrame { offset_delta, locals }) => {
            assert_eq!(offset_delta, 9);
            assert_eq!(locals, vec![VerificationTypeInfo::Integer, VerificationTypeInfo::Float]);
        }
        other => panic!("{:?}", other),
    }
    assert_eq!(buffer, vec![0xee]);
    let mut buffer = vec![254, 0, 0, 1, 1];
    assert!(matches!(read_stack_map_frame(&mut buffer), Err(ClassReaderError::EndOfStream)));
}

#[test]
fn full_frame_has_counted_locals_and_stack() {
    let mut buffer = vec![255, 0, 4, 0, 2, 1, 7, 0, 8, 0, 1, 5];
    match read_stack_map_frame(&mut buffer) {
        Ok(StackMapFrame::FullFrame { offset_delta, locals, stack }) => {
            assert_eq!(offset_delta, 4);
            assert_eq!(locals, vec![VerificationTypeInfo::Integer, VerificationTypeInfo::Object(8)]);
            assert_eq!(stack, vec![VerificationTypeInfo::Null]);
        }
        other => panic!("{:?}", other),
    }
    assert!(buffer.is_empty());
}

#[test]
fn reserved_frame_types_are_refused() {
    for kind in [128u8, 200, 246] {
        let mut buffer = vec![kind, 0, 0];
        match read_stack_map_frame(&mut buffer) {
            Err(ClassReaderError::InvalidStackMapFrame(byte)) => assert_eq!(byte, kind),
            other => panic!("{:?}", other),
        }
    }
    let mut buffer = vec![0, 130];
    assert!(matches!(
        read_stack_map_frames(&mut buffer, 2),
        Err(ClassReaderError::InvalidStackMapFrame(130))
    ));
}

#[test]
fn line_number_rows() {
    let mut buffer = vec![0, 0, 0, 3, 0, 4, 1, 0, 0xaa];
    assert_eq!(
        read_line_number_table_entries(&mut buffer, 2).unwrap(),
        vec![
            LineNumberTableEntry { start_pc: 0, line_number: 3 },
            LineNumberTableEntry { start_pc: 4, line_number: 256 },
        ]
    );
    assert_eq!(buffer, vec![0xaa]);
    assert!(matches!(
        read_line_number_table_entries(&mut buffer, 1),
        Err(ClassReaderError::EndOfStream)
    ));
}

#[test]
fn source_file_and_signature_attributes() {
    let pool = names_pool();
    let mut buffer = attribute(4, &[0x00, 0x2a]);
    buffer.push(0x99);
    assert!(matches!(read_attribute(&mut buffer, &pool), Ok(Attribute::SourceFile { index: 42 })));
    assert_eq!(buffer, vec![0x99]);
    let mut buffer = attribute(5, &[0x01, 0x00]);
    assert!(matches!(read_attribute(&mut buffer, &pool), Ok(Attribute::Signature { index: 256 })));
}

#[test]
fn exceptions_attribute() {
    let pool = names_pool();
    let mut buffer = attribute(6, &[0, 2, 0, 8, 0, 9]);
    match read_attribute(&mut buffer, &pool) {
        Ok(Attribute::Exceptions { exception_index }) => assert_eq!(exception_index, vec![8, 9]),
        other => panic!("{:?}", other),
    }
}

#[test]
fn line_number_table_attribute() {
    let pool = names_pool();
    let mut buffer = attribute(3, &[0, 1, 0, 0, 0, 7]);
    match read_attribute(&mut buffer, &pool) {
        Ok(Attribute::LineNumberTable(rows)) => {
            assert_eq!(rows, vec![LineNumberTableEntry { start_pc: 0, line_number: 7 }])
        }
        other => panic!("{:?}", other),
    }
}

#[test]
fn stack_map_table_attribute() {
    let pool = names_pool();
    let mut buffer = attribute(2, &[0, 2, 10, 251, 0, 3]);
    match read_attribute(&mut buffer, &pool) {
        Ok(Attribute::StackMapTable { entries }) => {
            assert_eq!(entries.len(), 2);
            assert!(matches!(entries[0], StackMapFrame::SameFrame));
            assert!(matches!(entries[1], StackMapFrame::SameFrameExtended { offset_delta: 3 }));
        }
        other => panic!("{:?}", other),
    }
}

#[test]
fn code_attribute_with_a_nested_attribute() {
    let pool = names_pool();
    let mut body = vec![0, 3, 0, 2, 0, 0, 0, 2, 0x03, 0xb1, 0, 0, 0, 1];
    body.extend(attribute(3, &[0, 1, 0, 0, 0, 5]));
    let mut buffer = attribute(1, &body);
    match read_attribute(&mut buffer, &pool) {
        Ok(Attribute::Code { max_stack, max_locals, code, exceptions, attributes }) => {
            assert_eq!(max_stack, 3);
            assert_eq!(max_locals, 2);
            assert_eq!(code, vec![0x03, 0xb1]);
            assert!(exceptions.is_empty());
            assert_eq!(attributes.len(), 1);
            assert!(matches!(&attributes[0], Attribute::LineNumberTable(rows) if rows.len() == 1));
        }
        other => panic!("{:?}", other),
    }
    assert!(buffer.is_empty());
}

#[test]
fn code_longer_than_its_body_is_cut_short() {
    let pool = names_pool();
    let mut buffer = attribute(1, &[0, 1, 0, 1, 0, 0, 0, 9, 0xb1, 0, 0, 0, 0]);
    assert!(matches!(read_attribute(&mut buffer, &pool), Err(ClassReaderError::EndOfStream)));
    // the attribute was taken whole all the same
    assert!(buffer.is_empty());
}

#[test]
fn an_unrecognized_attribute_name_is_refused_with_the_name() {
    let pool = names_pool();
    let mut buffer = attribute(7, &[]);
    buffer.extend_from_slice(&[1, 2, 3]);
    match read_attribute(&mut buffer, &pool) {
        Err(ClassReaderError::InvalidAttributeName(name)) => assert_eq!(name, "Deprecated"),
        other => panic!("{:?}", other),
    }
    assert_eq!(buffer, vec![1, 2, 3]);
}

#[test]
fn an_attribute_name_that_is_not_text_is_refused() {
    let pool = names_pool();
    let mut buffer = attribute(8, &[0, 1]);
    assert!(matches!(read_attribute(&mut buffer, &pool), Err(ClassReaderError::ExpectedAttributeName)));
    let mut buffer = attribute(0, &[0, 1]);
    assert!(matches!(read_attribute(&mut buffer, &pool), Err(ClassReaderError::ExpectedAttributeName)));
    let mut buffer = attribute(300, &[0, 1]);
    assert!(matches!(read_attribute(&mut buffer, &pool), Err(ClassReaderError::ExpectedAttributeName)));
}

#[test]
fn an_attribute_body_must_be_used_up() {
    let pool = names_pool();
    let mut buffer = attribute(4, &[0, 1, 0]);
    assert!(matches!(read_attribute(&mut buffer, &pool), Err(ClassReaderError::RemainingBytes)));
    assert!(buffer.is_empty());
    let mut buffer = attribute(4, &[0]);
    assert!(matches!(read_attribute(&mut buffer, &pool), Err(ClassReaderError::EndOfStream)));
}

#[test]
fn an_attribute_longer_than_the_input_takes_only_its_header() {
    let pool = names_pool();
    let mut buffer = vec![0, 4, 0, 0, 0, 5, 1, 2];
    assert!(matches!(read_attribute(&mut buffer, &pool), Err(ClassReaderError::EndOfStream)));
    assert_eq!(buffer, vec![1, 2]);
}

#[test]
fn attributes_in_a_row() {
    let pool = names_pool();
    let mut buffer = attribute(4, &[0, 1]);
    buffer.extend(attribute(5, &[0, 2]));
    buffer.push(0x55);
    let list = read_attributes(&mut buffer, 2, &pool).unwrap();
    assert_eq!(list.len(), 2);
    assert!(matches!(list[0], Attribute::SourceFile { index: 1 }));
    assert!(matches!(list[1], Attribute::Signature { index: 2 }));
    assert_eq!(buffer, vec![0x55]);
}

#[test]
fn field_and_method() {
    let pool = names_pool();
    let mut bytes = vec![0x00, 0x19, 0x00, 0x02, 0x00, 0x03, 0x00, 0x01];
    bytes.extend(attribute(5, &[0, 9]));
    let mut buffer = bytes.clone();
    let field = read_field(&mut buffer, &pool).unwrap();
    assert_eq!(field.access_flags, 0x19);
    assert_eq!(field.name_index, 2);
    assert_eq!(field.descriptor_index, 3);
    assert!(matches!(field.attributes[..], [Attribute::Signature { index: 9 }]));
    assert!(buffer.is_empty());
    let mut buffer = bytes.clone();
    let method = read_method(&mut buffer, &pool).unwrap();
    assert_eq!(method.access_flags, 0x19);
    assert_eq!(method.name_index, 2);
    assert_eq!(method.descriptor_index, 3);
    assert_eq!(method.attributes.len(), 1);
    let mut buffer = vec![0, 1, 0, 2, 0, 3, 0];
    assert!(matches!(read_field(&mut buffer, &pool), Err(ClassReaderError::EndOfStream)));
}

#[test]
fn a_whole_class() {
    let (result, rest) = parse(&sample_class());
    let class = result.unwrap();
    assert!(rest.is_empty());
    assert_eq!(class.magic, 0xcafebabe);
    assert_eq!(class.minor_version, 3);
    assert_eq!(class.major_version, 52);
    assert_eq!(class.access_flags, 0x21);
    assert_eq!(class.this_class, 2);
    assert_eq!(class.super_class, 4);
    assert!(!class.is_java_lang_object());
    assert_eq!(class.interfaces, vec![4]);
    assert_eq!(class.fields.len(), 1);
    assert_eq!(class.fields[0].access_flags, 2);
    assert_eq!(class.fields[0].name_index, 8);
    assert!(class.fields[0].attributes.is_empty());
    assert_eq!(class.methods.len(), 1);
    assert_eq!(class.methods[0].access_flags, 1);
    match &class.methods[0].attributes[..] {
        [Attribute::Code { max_stack, max_locals, code, exceptions, attributes }] => {
            assert_eq!(*max_stack, 2);
            assert_eq!(*max_locals, 1);
            assert_eq!(*code, vec![0x05, 0x06, 0x60, 0xb1]);
            assert!(exceptions.is_empty());
            assert!(attributes.is_empty());
        }
        other => panic!("{:?}", other),
    }
    assert!(matches!(class.attributes[..], [Attribute::SourceFile { index: 7 }]));
    assert_eq!(class.constant_pool.get_class_name(class.this_class), Ok(String::from("Main")));
    assert_eq!(class.constant_pool.get_utf8(7), Ok(String::from("Main.java")));
    let method = class.constant_pool.get_method_ref(11).unwrap();
    assert_eq!(method.class_name, "java/lang/Object");
    assert_eq!(method.name_and_type.name, "run");
    assert_eq!(method.name_and_type.descriptor, "()V");
}

#[test]
fn the_pool_holds_one_entry_less_than_the_declared_count() {
    let (result, _) = parse(&sample_class());
    let class = result.unwrap();
    assert_eq!(class.constant_pool.size(), 11);
    assert!(matches!(class.constant_pool.get(1), Some(ConstantPoolEntry::Utf8(text)) if text == "Main"));
    assert!(matches!(class.constant_pool.get(11), Some(ConstantPoolEntry::Methodref { .. })));
    assert!(class.constant_pool.get(12).is_none());
    // a count of one declares an empty pool
    let bytes = [
        0xca, 0xfe, 0xba, 0xbe, 0, 0, 0, 52, 0, 1, 0, 0x21, 0, 0, 0, 0, 0, 0, 0, 0, 0, 0, 0, 0,
    ];
    let (result, rest) = parse(&bytes);
    let class = result.unwrap();
    assert_eq!(class.constant_pool.size(), 0);
    assert!(class.is_java_lang_object());
    assert!(rest.is_empty());
}

#[test]
fn one_trailing_byte_is_refused() {
    let mut bytes = sample_class();
    bytes.push(0x00);
    let (result, rest) = parse(&bytes);
    assert!(matches!(result, Err(ClassReaderError::RemainingBytes)));
    assert_eq!(rest, vec![0x00]);
}

#[test]
fn every_shorter_input_is_cut_short() {
    let bytes = sample_class();
    for length in 0..bytes.len() {
        let (result, _) = parse(&bytes[..length]);
        assert!(matches!(result, Err(ClassReaderError::EndOfStream)), "length {}", length);
    }
}

#[test]
fn an_unrecognized_class_attribute_fails_the_class() {
    let mut bytes = sample_class();
    // the class attribute's name index is the one before the last six bytes
    let at = bytes.len() - 8;
    assert_eq!(bytes[at..at + 2], [0x00, 0x06]);
    bytes[at + 1] = 0x07; // "Main.java"
    let (result, rest) = parse(&bytes);
    match result {
        Err(ClassReaderError::InvalidAttributeName(name)) => assert_eq!(name, "Main.java"),
        other => panic!("{:?}", other.map(|_| ())),
    }
    assert!(rest.is_empty());
}

#[test]
fn an_unknown_tag_fails_the_class() {
    let mut bytes = sample_class();
    bytes[10] = 5;
    let (result, _) = parse(&bytes);
    assert!(matches!(result, Err(ClassReaderError::InvalidConstantTag(5))));
}
