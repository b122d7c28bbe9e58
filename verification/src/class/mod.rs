//! The in-memory shape of a class file, with the mathematical view of each
//! part. Contracts elsewhere in the crate speak of these views.

use vstd::prelude::*;

pub mod attribute;
pub mod method;
pub mod pool;

use crate::class::attribute::{Attribute, AttributeView, attributes_view, clone_attributes};
use crate::class::pool::{ConstantPool, ConstantPoolEntryView};

verus! {

/// A field of a class: flags, two pool indices and its attributes.
#[derive(Debug)]
pub struct Field {
    pub access_flags: u16,
    pub name_index: u16,
    pub descriptor_index: u16,
    pub attributes: Vec<Attribute>,
}

/// The mathematical value of a [`Field`].
pub ghost struct FieldView {
    pub access_flags: u16,
    pub name_index: u16,
    pub descriptor_index: u16,
    pub attributes: Seq<AttributeView>,
}

impl View for Field {
    type V = FieldView;

    open spec fn view(&self) -> FieldView {
        FieldView {
            access_flags: self.access_flags,
            name_index: self.name_index,
            descriptor_index: self.descriptor_index,
            attributes: attributes_view(self.attributes@),
        }
    }
}

/// A method of a class: flags, two pool indices and its attributes.
#[derive(Debug)]
pub struct Method {
    pub access_flags: u16,
    pub name_index: u16,
    pub descriptor_index: u16,
    pub attributes: Vec<Attribute>,
}

/// The mathematical value of a [`Method`].
pub ghost struct MethodView {
    pub access_flags: u16,
    pub name_index: u16,
    pub descriptor_index: u16,
    pub attributes: Seq<AttributeView>,
}

impl View for Method {
    type V = MethodView;

    open spec fn view(&self) -> MethodView {
        MethodView {
            access_flags: self.access_flags,
            name_index: self.name_index,
            descriptor_index: self.descriptor_index,
            attributes: attributes_view(self.attributes@),
        }
    }
}

impl Clone for Field {
    /// A copy with the same value.
    fn clone(&self) -> (r: Field)
        ensures
            r@ == self@,
    {
        Field {
            access_flags: self.access_flags,
            name_index: self.name_index,
            descriptor_index: self.descriptor_index,
            attributes: clone_attributes(&self.attributes),
        }
    }
}

impl Clone for Method {
    /// A copy with the same value.
    fn clone(&self) -> (r: Method)
        ensures
            r@ == self@,
    {
        Method {
            access_flags: self.access_flags,
            name_index: self.name_index,
            descriptor_index: self.descriptor_index,
            attributes: clone_attributes(&self.attributes),
        }
    }
}

/// The views of a list of fields, in order.
pub open spec fn fields_view(fields: Seq<Field>) -> Seq<FieldView> {
    fields.map_values(|f: Field| f@)
}

/// The views of a list of methods, in order.
pub open spec fn methods_view(methods: Seq<Method>) -> Seq<MethodView> {
    methods.map_values(|m: Method| m@)
}

/// A parsed class file. Built once and never changed afterwards.
pub struct ClassFile {
    pub magic: u32,
    pub minor_version: u16,
    pub major_version: u16,
    pub constant_pool: ConstantPool,
    pub access_flags: u16,
    pub this_class: u16,
    pub super_class: u16,
    pub interfaces: Vec<u16>,
    pub fields: Vec<Field>,
    pub methods: Vec<Method>,
    pub attributes: Vec<Attribute>,
}

/// The mathematical value of a [`ClassFile`].
pub ghost struct ClassFileView {
    pub magic: u32,
    pub minor_version: u16,
    pub major_version: u16,
    pub constant_pool: Seq<ConstantPoolEntryView>,
    pub access_flags: u16,
    pub this_class: u16,
    pub super_class: u16,
    pub interfaces: Seq<u16>,
    pub fields: Seq<FieldView>,
    pub methods: Seq<MethodView>,
    pub attributes: Seq<AttributeView>,
}

impl View for ClassFile {
    type V = ClassFileView;

    open spec fn view(&self) -> ClassFileView {
        ClassFileView {
            magic: self.magic,
            minor_version: self.minor_version,
            major_version: self.major_version,
            constant_pool: self.constant_pool@,
            access_flags: self.access_flags,
            this_class: self.this_class,
            super_class: self.super_class,
            interfaces: self.interfaces@,
            fields: fields_view(self.fields@),
            methods: methods_view(self.methods@),
            attributes: attributes_view(self.attributes@),
        }
    }
}

impl ClassFile {
    /// Whether the class names no superclass, which only the root class of
    /// the hierarchy does: its superclass index is zero.
    pub fn is_java_lang_object(&self) -> (r: bool)
        ensures
            r == (self@.super_class == 0),
    {
        self.super_class == 0
    }
}

} // verus!
