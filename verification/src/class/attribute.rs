//! Attributes and the tables they carry.

use vstd::prelude::*;

verus! {

/// The static type of one local or stack slot, as a stack map records it.
#[derive(Clone, Copy, Debug, PartialEq, Eq, Structural)]
pub enum VerificationTypeInfo {
    Top,
    Integer,
    Float,
    Null,
    UninitializedThis,
    Object(u16),
    Uninitialized(u16),
    Long,
    Double,
}

/// One frame of a stack map table.
#[derive(Debug)]
pub enum StackMapFrame {
    SameFrame,
    SameLocals1StackItemFrame { info: VerificationTypeInfo },
    SameLocals1StackItemFrameExtended { info: VerificationTypeInfo },
    ChopFrame { offset_delta: u16 },
    SameFrameExtended { offset_delta: u16 },
    AppendFrame { offset_delta: u16, locals: Vec<VerificationTypeInfo> },
    FullFrame { offset_delta: u16, locals: Vec<VerificationTypeInfo>, stack: Vec<VerificationTypeInfo> },
}

/// The mathematical value of a [`StackMapFrame`].
pub ghost enum StackMapFrameView {
    SameFrame,
    SameLocals1StackItemFrame { info: VerificationTypeInfo },
    SameLocals1StackItemFrameExtended { info: VerificationTypeInfo },
    ChopFrame { offset_delta: u16 },
    SameFrameExtended { offset_delta: u16 },
    AppendFrame { offset_delta: u16, locals: Seq<VerificationTypeInfo> },
    FullFrame { offset_delta: u16, locals: Seq<VerificationTypeInfo>, stack: Seq<VerificationTypeInfo> },
}

impl View for StackMapFrame {
    type V = StackMapFrameView;

    open spec fn view(&self) -> StackMapFrameView {
        match self {
            StackMapFrame::SameFrame => StackMapFrameView::SameFrame,
            StackMapFrame::SameLocals1StackItemFrame { info } => StackMapFrameView::SameLocals1StackItemFrame {
                info: *info,
            },
            StackMapFrame::SameLocals1StackItemFrameExtended {
                info,
            } => StackMapFrameView::SameLocals1StackItemFrameExtended { info: *info },
            StackMapFrame::ChopFrame { offset_delta } => StackMapFrameView::ChopFrame {
                offset_delta: *offset_delta,
            },
            StackMapFrame::SameFrameExtended { offset_delta } => StackMapFrameView::SameFrameExtended {
                offset_delta: *offset_delta,
            },
            StackMapFrame::AppendFrame { offset_delta, locals } => StackMapFrameView::AppendFrame {
                offset_delta: *offset_delta,
                locals: locals@,
            },
            StackMapFrame::FullFrame { offset_delta, locals, stack } => StackMapFrameView::FullFrame {
                offset_delta: *offset_delta,
                locals: locals@,
                stack: stack@,
            },
        }
    }
}

/// The views of a list of stack map frames, in order.
pub open spec fn frames_view(frames: Seq<StackMapFrame>) -> Seq<StackMapFrameView> {
    frames.map_values(|f: StackMapFrame| f@)
}

/// One row of a code block's exception table.
#[derive(Clone, Copy, Debug, PartialEq, Eq, Structural)]
pub struct ExceptionTableEntry {
    pub start_pc: u16,
    pub end_pc: u16,
    pub handler_pc: u16,
    pub catch_type: u16,
}

/// One row of an inner-classes table.
#[derive(Clone, Copy, Debug, PartialEq, Eq, Structural)]
pub struct InnerClassTableEntry {
    pub inner_class_info_index: u16,
    pub outer_class_info_index: u16,
    pub inner_name_index: u16,
    pub inner_class_access_flags: u16,
}

/// One row of a line number table: a code offset and its source line.
#[derive(Clone, Copy, Debug, PartialEq, Eq, Structural)]
pub struct LineNumberTableEntry {
    pub start_pc: u16,
    pub line_number: u16,
}

/// An attribute as it lies in the file: its name index and undecoded body.
#[derive(Debug)]
pub struct AttributeInfo {
    pub attribute_name_index: u16,
    pub bytes: Vec<u8>,
}

/// The mathematical value of an [`AttributeInfo`].
pub ghost struct AttributeInfoView {
    pub attribute_name_index: u16,
    pub bytes: Seq<u8>,
}

impl View for AttributeInfo {
    type V = AttributeInfoView;

    open spec fn view(&self) -> AttributeInfoView {
        AttributeInfoView { attribute_name_index: self.attribute_name_index, bytes: self.bytes@ }
    }
}

/// An annotation: its type and its named element values.
#[derive(Debug)]
pub struct Annotation {
    pub type_index: u16,
    pub elements: Vec<AnnotationElementPair>,
}

/// One named element of an annotation.
#[derive(Debug)]
pub struct AnnotationElementPair {
    pub element_name_index: u16,
    pub element_value: AnnotationElementValue,
}

/// The value of an annotation element.
#[derive(Debug)]
pub enum AnnotationElementValue {
    Const(u16),
    EnumConst { type_name_index: u16, const_name_index: u16 },
    ClassInfo(u16),
    Annotation(Annotation),
    Array(Vec<AnnotationElementValue>),
}

/// The mathematical value of an [`Annotation`].
pub ghost struct AnnotationView {
    pub type_index: u16,
    pub elements: Seq<AnnotationElementPairView>,
}

/// The mathematical value of an [`AnnotationElementPair`].
pub ghost struct AnnotationElementPairView {
    pub element_name_index: u16,
    pub element_value: AnnotationElementValueView,
}

/// The mathematical value of an [`AnnotationElementValue`].
pub ghost enum AnnotationElementValueView {
    Const(u16),
    EnumConst { type_name_index: u16, const_name_index: u16 },
    ClassInfo(u16),
    Annotation(AnnotationView),
    Array(Seq<AnnotationElementValueView>),
}

/// The view of an annotation, element by element.
pub open spec fn annotation_view(a: Annotation) -> AnnotationView
    decreases a,
{
    AnnotationView {
        type_index: a.type_index,
        elements: Seq::new(
            a.elements.len() as nat,
            |i: int|
                if 0 <= i < a.elements.len() {
                    annotation_pair_view(a.elements[i])
                } else {
                    arbitrary()
                },
        ),
    }
}

/// The view of one named element.
pub open spec fn annotation_pair_view(p: AnnotationElementPair) -> AnnotationElementPairView
    decreases p,
{
    AnnotationElementPairView {
        element_name_index: p.element_name_index,
        element_value: annotation_value_view(p.element_value),
    }
}

/// The view of an element value; nested annotations and arrays are viewed
/// in turn.
pub open spec fn annotation_value_view(v: AnnotationElementValue) -> AnnotationElementValueView
    decreases v,
{
    match v {
        AnnotationElementValue::Const(index) => AnnotationElementValueView::Const(index),
        AnnotationElementValue::EnumConst {
            type_name_index,
            const_name_index,
        } => AnnotationElementValueView::EnumConst { type_name_index, const_name_index },
        AnnotationElementValue::ClassInfo(index) => AnnotationElementValueView::ClassInfo(index),
        AnnotationElementValue::Annotation(inner) => AnnotationElementValueView::Annotation(
            annotation_view(inner),
        ),
        AnnotationElementValue::Array(items) => AnnotationElementValueView::Array(
            Seq::new(
                items.len() as nat,
                |i: int|
                    if 0 <= i < items.len() {
                        annotation_value_view(items[i])
                    } else {
                        arbitrary()
                    },
            ),
        ),
    }
}

impl View for Annotation {
    type V = AnnotationView;

    open spec fn view(&self) -> AnnotationView {
        annotation_view(*self)
    }
}

impl View for AnnotationElementPair {
    type V = AnnotationElementPairView;

    open spec fn view(&self) -> AnnotationElementPairView {
        annotation_pair_view(*self)
    }
}

impl View for AnnotationElementValue {
    type V = AnnotationElementValueView;

    open spec fn view(&self) -> AnnotationElementValueView {
        annotation_value_view(*self)
    }
}

/// One attribute of a class, field, method or code block. The set of kinds
/// is closed; a code block carries attributes of its own.
#[derive(Debug)]
pub enum Attribute {
    ConstantValue { index: u16 },
    Code {
        max_stack: u16,
        max_locals: u16,
        code: Vec<u8>,
        exceptions: Vec<ExceptionTableEntry>,
        attributes: Vec<Attribute>,
    },
    StackMapTable { entries: Vec<StackMapFrame> },
    Exceptions { exception_index: Vec<u16> },
    InnerClasses { classes: Vec<InnerClassTableEntry> },
    EnclosingMethod {  },
    Synthetic {  },
    Signature { index: u16 },
    SourceFile { index: u16 },
    SourceDebugExtension {  },
    LineNumberTable(Vec<LineNumberTableEntry>),
    LocalVariableTable {  },
    LocalVariableTypeTable {  },
    Deprecated,
    RuntimeVisibleAnnotations { annotations: Vec<Annotation> },
    ElementValue {  },
    RuntimeInvisibleAnnotations {  },
    RuntimeVisibleParameterAnnotations {  },
    RuntimeInvisibleParameterAnnotations {  },
    AnnotationDefault {  },
    BootstrapMethods {  },
}

/// The mathematical value of an [`Attribute`].
pub ghost enum AttributeView {
    ConstantValue { index: u16 },
    Code {
        max_stack: u16,
        max_locals: u16,
        code: Seq<u8>,
        exceptions: Seq<ExceptionTableEntry>,
        attributes: Seq<AttributeView>,
    },
    StackMapTable { entries: Seq<StackMapFrameView> },
    Exceptions { exception_index: Seq<u16> },
    InnerClasses { classes: Seq<InnerClassTableEntry> },
    EnclosingMethod,
    Synthetic,
    Signature { index: u16 },
    SourceFile { index: u16 },
    SourceDebugExtension,
    LineNumberTable(Seq<LineNumberTableEntry>),
    LocalVariableTable,
    LocalVariableTypeTable,
    Deprecated,
    RuntimeVisibleAnnotations { annotations: Seq<AnnotationView> },
    ElementValue,
    RuntimeInvisibleAnnotations,
    RuntimeVisibleParameterAnnotations,
    RuntimeInvisibleParameterAnnotations,
    AnnotationDefault,
    BootstrapMethods,
}

/// The view of an attribute; the attributes nested in a code block are
/// viewed in turn.
pub open spec fn attribute_view(a: Attribute) -> AttributeView
    decreases a,
{
    match a {
        Attribute::ConstantValue { index } => AttributeView::ConstantValue { index },
        Attribute::Code { max_stack, max_locals, code, exceptions, attributes } => AttributeView::Code {
            max_stack,
            max_locals,
            code: code@,
            exceptions: exceptions@,
            attributes: attributes_view(attributes@),
        },
        Attribute::StackMapTable { entries } => AttributeView::StackMapTable {
            entries: frames_view(entries@),
        },
        Attribute::Exceptions { exception_index } => AttributeView::Exceptions {
            exception_index: exception_index@,
        },
        Attribute::InnerClasses { classes } => AttributeView::InnerClasses { classes: classes@ },
        Attribute::EnclosingMethod {  } => AttributeView::EnclosingMethod,
        Attribute::Synthetic {  } => AttributeView::Synthetic,
        Attribute::Signature { index } => AttributeView::Signature { index },
        Attribute::SourceFile { index } => AttributeView::SourceFile { index },
        Attribute::SourceDebugExtension {  } => AttributeView::SourceDebugExtension,
        Attribute::LineNumberTable(entries) => AttributeView::LineNumberTable(entries@),
        Attribute::LocalVariableTable {  } => AttributeView::LocalVariableTable,
        Attribute::LocalVariableTypeTable {  } => AttributeView::LocalVariableTypeTable,
        Attribute::Deprecated => AttributeView::Deprecated,
        Attribute::RuntimeVisibleAnnotations { annotations } => AttributeView::RuntimeVisibleAnnotations {
            annotations: annotations_view(annotations@),
        },
        Attribute::ElementValue {  } => AttributeView::ElementValue,
        Attribute::RuntimeInvisibleAnnotations {  } => AttributeView::RuntimeInvisibleAnnotations,
        Attribute::RuntimeVisibleParameterAnnotations {
        } => AttributeView::RuntimeVisibleParameterAnnotations,
        Attribute::RuntimeInvisibleParameterAnnotations {
        } => AttributeView::RuntimeInvisibleParameterAnnotations,
        Attribute::AnnotationDefault {  } => AttributeView::AnnotationDefault,
        Attribute::BootstrapMethods {  } => AttributeView::BootstrapMethods,
    }
}

/// The views of a list of attributes, in order.
pub open spec fn attributes_view(list: Seq<Attribute>) -> Seq<AttributeView>
    decreases list,
{
    Seq::new(
        list.len(),
        |i: int|
            if 0 <= i < list.len() {
                attribute_view(list[i])
            } else {
                arbitrary()
            },
    )
}

impl View for Attribute {
    type V = AttributeView;

    open spec fn view(&self) -> AttributeView {
        attribute_view(*self)
    }
}

impl Clone for StackMapFrame {
    /// A copy with the same value.
    fn clone(&self) -> (r: StackMapFrame)
        ensures
            r@ == self@,
    {
        match self {
            StackMapFrame::SameFrame => StackMapFrame::SameFrame,
            StackMapFrame::SameLocals1StackItemFrame { info } => StackMapFrame::SameLocals1StackItemFrame {
                info: *info,
            },
            StackMapFrame::SameLocals1StackItemFrameExtended {
                info,
            } => StackMapFrame::SameLocals1StackItemFrameExtended { info: *info },
            StackMapFrame::ChopFrame { offset_delta } => StackMapFrame::ChopFrame {
                offset_delta: *offset_delta,
            },
            StackMapFrame::SameFrameExtended { offset_delta } => StackMapFrame::SameFrameExtended {
                offset_delta: *offset_delta,
            },
            StackMapFrame::AppendFrame { offset_delta, locals } => {
                let r = StackMapFrame::AppendFrame {
                    offset_delta: *offset_delta,
                    locals: locals.clone(),
                };
                assert(r@ =~~= self@);
                r
            },
            StackMapFrame::FullFrame { offset_delta, locals, stack } => {
                let r = StackMapFrame::FullFrame {
                    offset_delta: *offset_delta,
                    locals: locals.clone(),
                    stack: stack.clone(),
                };
                assert(r@ =~~= self@);
                r
            },
        }
    }
}

/// A copy of a list of stack map frames, frame by frame.
pub fn clone_frames(list: &Vec<StackMapFrame>) -> (r: Vec<StackMapFrame>)
    ensures
        frames_view(r@) == frames_view(list@),
{
    let mut copies: Vec<StackMapFrame> = Vec::new();
    let mut index: usize = 0;
    while index < list.len()
        invariant
            index <= list.len(),
            copies@.len() == index,
            forall|i: int| 0 <= i < index ==> copies@[i]@ == list@[i]@,
        decreases list.len() - index,
    {
        let copy = list[index].clone();
        copies.push(copy);
        index += 1;
    }
    assert(frames_view(copies@) =~= frames_view(list@));
    copies
}

impl Clone for AttributeInfo {
    /// A copy with the same value.
    fn clone(&self) -> (r: AttributeInfo)
        ensures
            r@ == self@,
    {
        let r = AttributeInfo {
            attribute_name_index: self.attribute_name_index,
            bytes: self.bytes.clone(),
        };
        assert(r@ =~~= self@);
        r
    }
}

/// The views of a list of annotations, in order.
pub open spec fn annotations_view(list: Seq<Annotation>) -> Seq<AnnotationView> {
    list.map_values(|x: Annotation| annotation_view(x))
}

/// A copy of a list of element values, value by value.
pub fn clone_annotation_values(list: &Vec<AnnotationElementValue>) -> (r: Vec<
    AnnotationElementValue,
>)
    ensures
        r@.len() == list@.len(),
        forall|i: int|
            0 <= i < list@.len() ==> annotation_value_view(#[trigger] r@[i])
                == annotation_value_view(list@[i]),
    decreases list,
{
    let mut copies: Vec<AnnotationElementValue> = Vec::new();
    let mut index: usize = 0;
    while index < list.len()
        invariant
            index <= list.len(),
            copies@.len() == index,
            forall|i: int|
                0 <= i < index ==> annotation_value_view(#[trigger] copies@[i])
                    == annotation_value_view(list@[i]),
        decreases list.len() - index,
    {
        let copy = list[index].clone();
        copies.push(copy);
        index += 1;
    }
    copies
}

/// A copy of a list of named elements, element by element.
pub fn clone_annotation_pairs(list: &Vec<AnnotationElementPair>) -> (r: Vec<AnnotationElementPair>)
    ensures
        r@.len() == list@.len(),
        forall|i: int|
            0 <= i < list@.len() ==> annotation_pair_view(#[trigger] r@[i]) == annotation_pair_view(
                list@[i],
            ),
    decreases list,
{
    let mut copies: Vec<AnnotationElementPair> = Vec::new();
    let mut index: usize = 0;
    while index < list.len()
        invariant
            index <= list.len(),
            copies@.len() == index,
            forall|i: int|
                0 <= i < index ==> annotation_pair_view(#[trigger] copies@[i])
                    == annotation_pair_view(list@[i]),
        decreases list.len() - index,
    {
        let copy = list[index].clone();
        copies.push(copy);
        index += 1;
    }
    copies
}

/// A copy of a list of annotations, annotation by annotation.
pub fn clone_annotations(list: &Vec<Annotation>) -> (r: Vec<Annotation>)
    ensures
        annotations_view(r@) == annotations_view(list@),
{
    let mut copies: Vec<Annotation> = Vec::new();
    let mut index: usize = 0;
    while index < list.len()
        invariant
            index <= list.len(),
            copies@.len() == index,
            forall|i: int| 0 <= i < index ==> copies@[i]@ == list@[i]@,
        decreases list.len() - index,
    {
        let copy = list[index].clone();
        copies.push(copy);
        index += 1;
    }
    assert(annotations_view(copies@) =~= annotations_view(list@));
    copies
}

impl Clone for AnnotationElementValue {
    /// A copy with the same value, nested values included.
    fn clone(&self) -> (r: AnnotationElementValue)
        ensures
            r@ == self@,
        decreases self,
    {
        match self {
            AnnotationElementValue::Const(index) => AnnotationElementValue::Const(*index),
            AnnotationElementValue::EnumConst {
                type_name_index,
                const_name_index,
            } => AnnotationElementValue::EnumConst {
                type_name_index: *type_name_index,
                const_name_index: *const_name_index,
            },
            AnnotationElementValue::ClassInfo(index) => AnnotationElementValue::ClassInfo(*index),
            AnnotationElementValue::Annotation(inner) => AnnotationElementValue::Annotation(
                inner.clone(),
            ),
            AnnotationElementValue::Array(items) => {
                let copies = clone_annotation_values(items);
                proof {
                    assert forall|i: int| 0 <= i < items.len() implies annotation_value_view(
                        copies[i],
                    ) == annotation_value_view(items[i]) by {
                        assert(annotation_value_view(copies@[i]) == annotation_value_view(
                            items@[i],
                        ));
                    }
                    assert(annotation_value_view(AnnotationElementValue::Array(copies))->Array_0
                        =~= annotation_value_view(*self)->Array_0);
                }
                AnnotationElementValue::Array(copies)
            },
        }
    }
}

impl Clone for AnnotationElementPair {
    /// A copy with the same value.
    fn clone(&self) -> (r: AnnotationElementPair)
        ensures
            r@ == self@,
        decreases self,
    {
        AnnotationElementPair {
            element_name_index: self.element_name_index,
            element_value: self.element_value.clone(),
        }
    }
}

impl Clone for Annotation {
    /// A copy with the same value, elements included.
    fn clone(&self) -> (r: Annotation)
        ensures
            r@ == self@,
        decreases self,
    {
        let r = Annotation {
            type_index: self.type_index,
            elements: clone_annotation_pairs(&self.elements),
        };
        proof {
            assert forall|i: int| 0 <= i < self.elements.len() implies annotation_pair_view(
                r.elements[i],
            ) == annotation_pair_view(self.elements[i]) by {
                assert(annotation_pair_view(r.elements@[i]) == annotation_pair_view(
                    self.elements@[i],
                ));
            }
            assert(annotation_view(r).elements =~= annotation_view(*self).elements);
        }
        r
    }
}

/// A copy of a list of attributes, attribute by attribute.
pub fn clone_attributes(list: &Vec<Attribute>) -> (r: Vec<Attribute>)
    ensures
        attributes_view(r@) == attributes_view(list@),
    decreases list,
{
    let mut copies: Vec<Attribute> = Vec::new();
    let mut index: usize = 0;
    while index < list.len()
        invariant
            index <= list.len(),
            copies@.len() == index,
            forall|i: int| 0 <= i < index ==> attribute_view(copies@[i]) == attribute_view(list@[i]),
        decreases list.len() - index,
    {
        let copy = list[index].clone();
        copies.push(copy);
        index += 1;
    }
    assert(attributes_view(copies@) =~= attributes_view(list@));
    copies
}

impl Clone for Attribute {
    /// A copy with the same value, nested attributes included.
    fn clone(&self) -> (r: Attribute)
        ensures
            r@ == self@,
        decreases self,
    {
        match self {
            Attribute::ConstantValue { index } => Attribute::ConstantValue { index: *index },
            Attribute::Code { max_stack, max_locals, code, exceptions, attributes } => {
                let r = Attribute::Code {
                    max_stack: *max_stack,
                    max_locals: *max_locals,
                    code: code.clone(),
                    exceptions: exceptions.clone(),
                    attributes: clone_attributes(attributes),
                };
                assert(r@ =~~= self@);
                r
            },
            Attribute::StackMapTable { entries } => Attribute::StackMapTable {
                entries: clone_frames(entries),
            },
            Attribute::Exceptions { exception_index } => {
                let r = Attribute::Exceptions { exception_index: exception_index.clone() };
                assert(r@ =~~= self@);
                r
            },
            Attribute::InnerClasses { classes } => {
                let r = Attribute::InnerClasses { classes: classes.clone() };
                assert(r@ =~~= self@);
                r
            },
            Attribute::EnclosingMethod {  } => Attribute::EnclosingMethod {  },
            Attribute::Synthetic {  } => Attribute::Synthetic {  },
            Attribute::Signature { index } => Attribute::Signature { index: *index },
            Attribute::SourceFile { index } => Attribute::SourceFile { index: *index },
            Attribute::SourceDebugExtension {  } => Attribute::SourceDebugExtension {  },
            Attribute::LineNumberTable(entries) => {
                let r = Attribute::LineNumberTable(entries.clone());
                assert(r@ =~~= self@);
                r
            },
            Attribute::LocalVariableTable {  } => Attribute::LocalVariableTable {  },
            Attribute::LocalVariableTypeTable {  } => Attribute::LocalVariableTypeTable {  },
            Attribute::Deprecated => Attribute::Deprecated,
            Attribute::RuntimeVisibleAnnotations {
                annotations,
            } => Attribute::RuntimeVisibleAnnotations { annotations: clone_annotations(annotations) },
            Attribute::ElementValue {  } => Attribute::ElementValue {  },
            Attribute::RuntimeInvisibleAnnotations {  } => Attribute::RuntimeInvisibleAnnotations {  },
            Attribute::RuntimeVisibleParameterAnnotations {
            } => Attribute::RuntimeVisibleParameterAnnotations {  },
            Attribute::RuntimeInvisibleParameterAnnotations {
            } => Attribute::RuntimeInvisibleParameterAnnotations {  },
            Attribute::AnnotationDefault {  } => Attribute::AnnotationDefault {  },
            Attribute::BootstrapMethods {  } => Attribute::BootstrapMethods {  },
        }
    }
}

} // verus!
