use ironjdk::class::pool::{ConstantPool, ConstantPoolEntry};

fn sample_pool() -> ConstantPool {
    let mut pool = ConstantPool::new();
    // 1: the class name
    pool.entries.push(ConstantPoolEntry::Utf8(String::from("java/lang/Object")));
    // 2: the class
    pool.entries.push(ConstantPoolEntry::Class { name_index: 1 });
    // 3, 4: a name and a descriptor
    pool.entries.push(ConstantPoolEntry::Utf8(String::from("<init>")));
    pool.entries.push(ConstantPoolEntry::Utf8(String::from("()V")));
    // 5: the name and type
    pool.entries.push(ConstantPoolEntry::NameAndType { name_index: 3, descriptor_index: 4 });
    // 6: a method reference, 7: a field reference
    pool.entries.push(ConstantPoolEntry::Methodref { class_index: 2, name_and_type_index: 5 });
    pool.entries.push(ConstantPoolEntry::Fieldref { class_index: 2, name_and_type_index: 5 });
    // 8: a class whose name index names a class, not text
    pool.entries.push(ConstantPoolEntry::Class { name_index: 2 });
    // 9: a name and type whose descriptor is missing
    pool.entries.push(ConstantPoolEntry::NameAndType { name_index: 3, descriptor_index: 40 });
    // 10: a method reference whose class is broken
    pool.entries.push(ConstantPoolEntry::Methodref { class_index: 8, name_and_type_index: 5 });
    pool.entries.push(ConstantPoolEntry::Integer { bytes: 7 });
    pool
}

#[test]
fn new_pool_is_empty() {
    let pool = ConstantPool::new();
    assert_eq!(pool.size(), 0);
    assert!(pool.get(1).is_none());
}

#[test]
fn get_counts_from_one() {
    let pool = sample_pool();
    assert_eq!(pool.size(), 11);
    assert!(pool.get(0).is_none());
    assert!(matches!(pool.get(1), Some(ConstantPoolEntry::Utf8(text)) if text == "java/lang/Object"));
    assert!(matches!(pool.get(2), Some(ConstantPoolEntry::Class { name_index: 1 })));
    assert!(matches!(pool.get(11), Some(ConstantPoolEntry::Integer { bytes: 7 })));
    assert!(pool.get(12).is_none());
    assert!(pool.get(65535).is_none());
}

#[test]
fn get_entry_reports_out_of_bounds() {
    let pool = sample_pool();
    assert!(pool.get_entry(11).is_ok());
    assert_eq!(pool.get_entry(0).unwrap_err(), "Constant pool index out of bounds");
    assert_eq!(pool.get_entry(12).unwrap_err(), "Constant pool index out of bounds");
}

#[test]
fn utf8_resolves() {
    let pool = sample_pool();
    assert_eq!(pool.get_utf8(1), Ok(String::from("java/lang/Object")));
    assert_eq!(pool.get_utf8(4), Ok(String::from("()V")));
}

#[test]
fn utf8_of_wrong_kind_fails() {
    let pool = sample_pool();
    assert_eq!(pool.get_utf8(2), Err(String::from("Expected Utf8 attribute")));
    assert_eq!(pool.get_utf8(0), Err(String::from("Constant pool index out of bounds")));
    assert_eq!(pool.get_utf8(99), Err(String::from("Constant pool index out of bounds")));
}

#[test]
fn class_name_resolves_through_utf8() {
    let pool = sample_pool();
    assert_eq!(pool.get_class_name(2), Ok(String::from("java/lang/Object")));
}

#[test]
fn class_name_of_wrong_kind_fails() {
    let pool = sample_pool();
    assert_eq!(pool.get_class_name(1), Err(String::from("Expected Class attribute")));
    // the class entry is there, its name is not text
    assert_eq!(pool.get_class_name(8), Err(String::from("Expected Utf8 attribute")));
    assert_eq!(pool.get_class_name(12), Err(String::from("Constant pool index out of bounds")));
}

#[test]
fn name_and_type_resolves() {
    let pool = sample_pool();
    let resolved = pool.get_name_and_type(5).unwrap();
    assert_eq!(resolved.name, "<init>");
    assert_eq!(resolved.descriptor, "()V");
}

#[test]
fn name_and_type_failures() {
    let pool = sample_pool();
    assert_eq!(pool.get_name_and_type(2).unwrap_err(), "Expected Class attribute");
    assert_eq!(pool.get_name_and_type(9).unwrap_err(), "Constant pool index out of bounds");
    assert_eq!(pool.get_name_and_type(0).unwrap_err(), "Constant pool index out of bounds");
}

#[test]
fn method_ref_resolves_recursively() {
    let pool = sample_pool();
    let resolved = pool.get_method_ref(6).unwrap();
    assert_eq!(resolved.class_name, "java/lang/Object");
    assert_eq!(resolved.name_and_type.name, "<init>");
    assert_eq!(resolved.name_and_type.descriptor, "()V");
}

#[test]
fn method_ref_failures() {
    let pool = sample_pool();
    // a field reference is not a method reference
    assert_eq!(pool.get_method_ref(7).unwrap_err(), "Expected Class attribute");
    // the class of entry 10 does not resolve
    assert_eq!(pool.get_method_ref(10).unwrap_err(), "Expected Utf8 attribute");
    assert_eq!(pool.get_method_ref(200).unwrap_err(), "Constant pool index out of bounds");
}

#[test]
fn field_ref_resolves_recursively() {
    let pool = sample_pool();
    let resolved = pool.get_field_ref(7).unwrap();
    assert_eq!(resolved.class_name, "java/lang/Object");
    assert_eq!(resolved.name_and_type.name, "<init>");
    assert_eq!(resolved.name_and_type.descriptor, "()V");
}

#[test]
fn field_ref_failures() {
    let pool = sample_pool();
    assert_eq!(pool.get_field_ref(6).unwrap_err(), "Expected Class attribute");
    assert_eq!(pool.get_field_ref(1).unwrap_err(), "Expected Class attribute");
    assert_eq!(pool.get_field_ref(0).unwrap_err(), "Constant pool index out of bounds");
}
