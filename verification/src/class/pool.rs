//! The constant pool and the lookups that resolve its entries.

use vstd::prelude::*;

verus! {

/// The kinds of constant pool entry that the class-file format names.
pub enum ConstantPoolTag {
    Class,
    Fieldref,
    Methodref,
    InterfaceMethodref,
    String,
    Integer,
    Float,
    Long,
    Double,
    NameAndType,
    Utf8,
    MethodHandle,
    MethodType,
    InvokeDynamic,
}

/// One slot of the constant pool. `Placeholder` fills the slot after a
/// double-width entry.
#[derive(Debug)]
pub enum ConstantPoolEntry {
    Class { name_index: u16 },
    Fieldref { class_index: u16, name_and_type_index: u16 },
    Methodref { class_index: u16, name_and_type_index: u16 },
    InterfaceMethodref { class_index: u16, name_and_type_index: u16 },
    String { string_index: u16 },
    Integer { bytes: u32 },
    Float { bytes: u32 },
    Long { high_bytes: u32, low_bytes: u32 },
    Double { high_bytes: u32, low_bytes: u32 },
    NameAndType { name_index: u16, descriptor_index: u16 },
    Utf8(String),
    MethodHandle { reference_kind: u8, reference_index: u16 },
    MethodType { descriptor_index: u16 },
    InvokeDynamic { bootstrap_method_attr_index: u16, name_and_type_index: u16 },
    Placeholder,
}

/// The mathematical value of a [`ConstantPoolEntry`]: text is a sequence of
/// characters.
pub ghost enum ConstantPoolEntryView {
    Class { name_index: u16 },
    Fieldref { class_index: u16, name_and_type_index: u16 },
    Methodref { class_index: u16, name_and_type_index: u16 },
    InterfaceMethodref { class_index: u16, name_and_type_index: u16 },
    String { string_index: u16 },
    Integer { bytes: u32 },
    Float { bytes: u32 },
    Long { high_bytes: u32, low_bytes: u32 },
    Double { high_bytes: u32, low_bytes: u32 },
    NameAndType { name_index: u16, descriptor_index: u16 },
    Utf8(Seq<char>),
    MethodHandle { reference_kind: u8, reference_index: u16 },
    MethodType { descriptor_index: u16 },
    InvokeDynamic { bootstrap_method_attr_index: u16, name_and_type_index: u16 },
    Placeholder,
}

impl View for ConstantPoolEntry {
    type V = ConstantPoolEntryView;

    open spec fn view(&self) -> ConstantPoolEntryView {
        match self {
            ConstantPoolEntry::Class { name_index } => ConstantPoolEntryView::Class {
                name_index: *name_index,
            },
            ConstantPoolEntry::Fieldref { class_index, name_and_type_index } => ConstantPoolEntryView::Fieldref {
                class_index: *class_index,
                name_and_type_index: *name_and_type_index,
            },
            ConstantPoolEntry::Methodref {
                class_index,
                name_and_type_index,
            } => ConstantPoolEntryView::Methodref {
                class_index: *class_index,
                name_and_type_index: *name_and_type_index,
            },
            ConstantPoolEntry::InterfaceMethodref {
                class_index,
                name_and_type_index,
            } => ConstantPoolEntryView::InterfaceMethodref {
                class_index: *class_index,
                name_and_type_index: *name_and_type_index,
            },
            ConstantPoolEntry::String { string_index } => ConstantPoolEntryView::String {
                string_index: *string_index,
            },
            ConstantPoolEntry::Integer { bytes } => ConstantPoolEntryView::Integer { bytes: *bytes },
            ConstantPoolEntry::Float { bytes } => ConstantPoolEntryView::Float { bytes: *bytes },
            ConstantPoolEntry::Long { high_bytes, low_bytes } => ConstantPoolEntryView::Long {
                high_bytes: *high_bytes,
                low_bytes: *low_bytes,
            },
            ConstantPoolEntry::Double { high_bytes, low_bytes } => ConstantPoolEntryView::Double {
                high_bytes: *high_bytes,
                low_bytes: *low_bytes,
            },
            ConstantPoolEntry::NameAndType {
                name_index,
                descriptor_index,
            } => ConstantPoolEntryView::NameAndType {
                name_index: *name_index,
                descriptor_index: *descriptor_index,
            },
            ConstantPoolEntry::Utf8(text) => ConstantPoolEntryView::Utf8(text@),
            ConstantPoolEntry::MethodHandle {
                reference_kind,
                reference_index,
            } => ConstantPoolEntryView::MethodHandle {
                reference_kind: *reference_kind,
                reference_index: *reference_index,
            },
            ConstantPoolEntry::MethodType { descriptor_index } => ConstantPoolEntryView::MethodType {
                descriptor_index: *descriptor_index,
            },
            ConstantPoolEntry::InvokeDynamic {
                bootstrap_method_attr_index,
                name_and_type_index,
            } => ConstantPoolEntryView::InvokeDynamic {
                bootstrap_method_attr_index: *bootstrap_method_attr_index,
                name_and_type_index: *name_and_type_index,
            },
            ConstantPoolEntry::Placeholder => ConstantPoolEntryView::Placeholder,
        }
    }
}

impl Clone for ConstantPoolEntry {
    /// A copy with the same value.
    fn clone(&self) -> (r: ConstantPoolEntry)
        ensures
            r@ == self@,
    {
        match self {
            ConstantPoolEntry::Class { name_index } => ConstantPoolEntry::Class {
                name_index: *name_index,
            },
            ConstantPoolEntry::Fieldref { class_index, name_and_type_index } => ConstantPoolEntry::Fieldref {
                class_index: *class_index,
                name_and_type_index: *name_and_type_index,
            },
            ConstantPoolEntry::Methodref { class_index, name_and_type_index } => ConstantPoolEntry::Methodref {
                class_index: *class_index,
                name_and_type_index: *name_and_type_index,
            },
            ConstantPoolEntry::InterfaceMethodref {
                class_index,
                name_and_type_index,
            } => ConstantPoolEntry::InterfaceMethodref {
                class_index: *class_index,
                name_and_type_index: *name_and_type_index,
            },
            ConstantPoolEntry::String { string_index } => ConstantPoolEntry::String {
                string_index: *string_index,
            },
            ConstantPoolEntry::Integer { bytes } => ConstantPoolEntry::Integer { bytes: *bytes },
            ConstantPoolEntry::Float { bytes } => ConstantPoolEntry::Float { bytes: *bytes },
            ConstantPoolEntry::Long { high_bytes, low_bytes } => ConstantPoolEntry::Long {
                high_bytes: *high_bytes,
                low_bytes: *low_bytes,
            },
            ConstantPoolEntry::Double { high_bytes, low_bytes } => ConstantPoolEntry::Double {
                high_bytes: *high_bytes,
                low_bytes: *low_bytes,
            },
            ConstantPoolEntry::NameAndType { name_index, descriptor_index } => ConstantPoolEntry::NameAndType {
                name_index: *name_index,
                descriptor_index: *descriptor_index,
            },
            ConstantPoolEntry::Utf8(text) => ConstantPoolEntry::Utf8(text.clone()),
            ConstantPoolEntry::MethodHandle {
                reference_kind,
                reference_index,
            } => ConstantPoolEntry::MethodHandle {
                reference_kind: *reference_kind,
                reference_index: *reference_index,
            },
            ConstantPoolEntry::MethodType { descriptor_index } => ConstantPoolEntry::MethodType {
                descriptor_index: *descriptor_index,
            },
            ConstantPoolEntry::InvokeDynamic {
                bootstrap_method_attr_index,
                name_and_type_index,
            } => ConstantPoolEntry::InvokeDynamic {
                bootstrap_method_attr_index: *bootstrap_method_attr_index,
                name_and_type_index: *name_and_type_index,
            },
            ConstantPoolEntry::Placeholder => ConstantPoolEntry::Placeholder,
        }
    }
}

/// The views of a list of pool entries, in order.
pub open spec fn entries_view(entries: Seq<ConstantPoolEntry>) -> Seq<ConstantPoolEntryView> {
    entries.map_values(|e: ConstantPoolEntry| e@)
}

/// The constant pool of one class: its entries in file order. Entry `i` of
/// the file's numbering stands in slot `i - 1`.
#[derive(Debug)]
pub struct ConstantPool {
    pub entries: Vec<ConstantPoolEntry>,
}

impl View for ConstantPool {
    type V = Seq<ConstantPoolEntryView>;

    open spec fn view(&self) -> Seq<ConstantPoolEntryView> {
        entries_view(self.entries@)
    }
}

/// A name with its descriptor, both resolved to text.
#[derive(Debug)]
pub struct NameAndType {
    pub name: String,
    pub descriptor: String,
}

/// The mathematical value of a [`NameAndType`].
pub ghost struct NameAndTypeView {
    pub name: Seq<char>,
    pub descriptor: Seq<char>,
}

impl View for NameAndType {
    type V = NameAndTypeView;

    open spec fn view(&self) -> NameAndTypeView {
        NameAndTypeView { name: self.name@, descriptor: self.descriptor@ }
    }
}

/// A reference to a field, resolved: the owning class's name, then the
/// field's name and descriptor.
#[derive(Debug)]
pub struct Fieldref {
    pub class_name: String,
    pub name_and_type: NameAndType,
}

/// A reference to a method, resolved: the owning class's name, then the
/// method's name and descriptor.
#[derive(Debug)]
pub struct Methodref {
    pub class_name: String,
    pub name_and_type: NameAndType,
}

/// The mathematical value of a [`Fieldref`] or a [`Methodref`].
pub ghost struct MemberRefView {
    pub class_name: Seq<char>,
    pub name_and_type: NameAndTypeView,
}

impl View for Fieldref {
    type V = MemberRefView;

    open spec fn view(&self) -> MemberRefView {
        MemberRefView { class_name: self.class_name@, name_and_type: self.name_and_type@ }
    }
}

impl View for Methodref {
    type V = MemberRefView;

    open spec fn view(&self) -> MemberRefView {
        MemberRefView { class_name: self.class_name@, name_and_type: self.name_and_type@ }
    }
}

/// The message of a lookup whose index names no slot.
pub open spec fn out_of_bounds_message() -> Seq<char> {
    "Constant pool index out of bounds"@
}

/// The message of a lookup that wanted text and found another kind.
pub open spec fn expected_utf8_message() -> Seq<char> {
    "Expected Utf8 attribute"@
}

/// The message of every other lookup that found the wrong kind of entry.
pub open spec fn expected_class_message() -> Seq<char> {
    "Expected Class attribute"@
}

/// The entry that index `index` names: slot `index - 1`, if there is one.
/// Index zero names nothing.
pub open spec fn pool_entry(pool: Seq<ConstantPoolEntryView>, index: u16) -> Option<
    ConstantPoolEntryView,
> {
    if 1 <= index <= pool.len() {
        Some(pool[index - 1])
    } else {
        None
    }
}

/// The text at `index`, or the reason there is none.
pub open spec fn pool_utf8(pool: Seq<ConstantPoolEntryView>, index: u16) -> Result<
    Seq<char>,
    Seq<char>,
> {
    match pool_entry(pool, index) {
        None => Err(out_of_bounds_message()),
        Some(ConstantPoolEntryView::Utf8(text)) => Ok(text),
        Some(_) => Err(expected_utf8_message()),
    }
}

/// The name of the class at `index`: the text that its name index names.
pub open spec fn pool_class_name(pool: Seq<ConstantPoolEntryView>, index: u16) -> Result<
    Seq<char>,
    Seq<char>,
> {
    match pool_entry(pool, index) {
        None => Err(out_of_bounds_message()),
        Some(ConstantPoolEntryView::Class { name_index }) => pool_utf8(pool, name_index),
        Some(_) => Err(expected_class_message()),
    }
}

/// The name and descriptor at `index`. The name is resolved first, so its
/// failure is the one reported when both fail.
pub open spec fn pool_name_and_type(pool: Seq<ConstantPoolEntryView>, index: u16) -> Result<
    NameAndTypeView,
    Seq<char>,
> {
    match pool_entry(pool, index) {
        None => Err(out_of_bounds_message()),
        Some(ConstantPoolEntryView::NameAndType { name_index, descriptor_index }) => match (
            pool_utf8(pool, name_index),
            pool_utf8(pool, descriptor_index),
        ) {
            (Err(e), _) => Err(e),
            (Ok(_), Err(e)) => Err(e),
            (Ok(name), Ok(descriptor)) => Ok(NameAndTypeView { name, descriptor }),
        },
        Some(_) => Err(expected_class_message()),
    }
}

/// A class index and a name-and-type index resolved together. The class
/// is resolved first.
pub open spec fn pool_member(
    pool: Seq<ConstantPoolEntryView>,
    class_index: u16,
    name_and_type_index: u16,
) -> Result<MemberRefView, Seq<char>> {
    match (pool_class_name(pool, class_index), pool_name_and_type(pool, name_and_type_index)) {
        (Err(e), _) => Err(e),
        (Ok(_), Err(e)) => Err(e),
        (Ok(class_name), Ok(name_and_type)) => Ok(MemberRefView { class_name, name_and_type }),
    }
}

/// The method reference at `index`, resolved.
pub open spec fn pool_method_ref(pool: Seq<ConstantPoolEntryView>, index: u16) -> Result<
    MemberRefView,
    Seq<char>,
> {
    match pool_entry(pool, index) {
        None => Err(out_of_bounds_message()),
        Some(ConstantPoolEntryView::Methodref { class_index, name_and_type_index }) => pool_member(
            pool,
            class_index,
            name_and_type_index,
        ),
        Some(_) => Err(expected_class_message()),
    }
}

/// The field reference at `index`, resolved.
pub open spec fn pool_field_ref(pool: Seq<ConstantPoolEntryView>, index: u16) -> Result<
    MemberRefView,
    Seq<char>,
> {
    match pool_entry(pool, index) {
        None => Err(out_of_bounds_message()),
        Some(ConstantPoolEntryView::Fieldref { class_index, name_and_type_index }) => pool_member(
            pool,
            class_index,
            name_and_type_index,
        ),
        Some(_) => Err(expected_class_message()),
    }
}

impl Clone for ConstantPool {
    /// A copy with the same entries in the same order.
    fn clone(&self) -> (r: ConstantPool)
        ensures
            r@ == self@,
    {
        let mut entries: Vec<ConstantPoolEntry> = Vec::new();
        let mut index: usize = 0;
        while index < self.entries.len()
            invariant
                index <= self.entries.len(),
                entries@.len() == index,
                forall|i: int| 0 <= i < index ==> entries@[i]@ == self.entries@[i]@,
            decreases self.entries.len() - index,
        {
            let copy = self.entries[index].clone();
            entries.push(copy);
            index += 1;
        }
        let r = ConstantPool { entries };
        assert(r@ =~= self@);
        r
    }
}

impl ConstantPool {
    /// An empty pool.
    pub fn new() -> (r: ConstantPool)
        ensures
            r.entries@ == Seq::<ConstantPoolEntry>::empty(),
            r@ == Seq::<ConstantPoolEntryView>::empty(),
    {
        let r = ConstantPool { entries: Vec::new() };
        assert(r@ =~= Seq::<ConstantPoolEntryView>::empty());
        r
    }

    /// The entry that the file calls `index`, counting from one.
    pub fn get(&self, index: u16) -> (r: Option<&ConstantPoolEntry>)
        ensures
            match r {
                Some(e) => 1 <= index <= self.entries.len() && *e == self.entries[index - 1],
                None => index == 0 || index > self.entries.len(),
            },
            match r {
                Some(e) => pool_entry(self@, index) == Some(e@),
                None => pool_entry(self@, index).is_none(),
            },
    {
        if index == 0 {
            return None;
        }
        let slot: usize = (index - 1) as usize;
        if slot < self.entries.len() {
            Some(&self.entries[slot])
        } else {
            None
        }
    }

    /// The number of slots in the pool.
    pub fn size(&self) -> (r: usize)
        ensures
            r == self.entries.len(),
            r == self@.len(),
    {
        self.entries.len()
    }

    /// The entry at `index`, or the out-of-bounds message.
    pub fn get_entry(&self, index: u16) -> (r: Result<&ConstantPoolEntry, String>)
        ensures
            match r {
                Ok(e) => 1 <= index <= self.entries.len() && *e == self.entries[index - 1]
                    && pool_entry(self@, index) == Some(e@),
                Err(message) => pool_entry(self@, index).is_none() && message@
                    == out_of_bounds_message(),
            },
    {
        match self.get(index) {
            Some(e) => Ok(e),
            None => Err("Constant pool index out of bounds".to_owned()),
        }
    }

    /// The text at `index`.
    pub fn get_utf8(&self, index: u16) -> (r: Result<String, String>)
        ensures
            text_result_view(r) == pool_utf8(self@, index),
    {
        match self.get_entry(index) {
            Err(message) => Err(message),
            Ok(entry) => match entry {
                ConstantPoolEntry::Utf8(text) => Ok(text.clone()),
                _ => Err("Expected Utf8 attribute".to_owned()),
            },
        }
    }

    /// The name of the class at `index`.
    pub fn get_class_name(&self, index: u16) -> (r: Result<String, String>)
        ensures
            text_result_view(r) == pool_class_name(self@, index),
    {
        match self.get_entry(index) {
            Err(message) => Err(message),
            Ok(entry) => match entry {
                ConstantPoolEntry::Class { name_index } => self.get_utf8(*name_index),
                _ => Err("Expected Class attribute".to_owned()),
            },
        }
    }

    /// The name and descriptor at `index`, both resolved to text.
    pub fn get_name_and_type(&self, index: u16) -> (r: Result<NameAndType, String>)
        ensures
            match r {
                Ok(v) => pool_name_and_type(self@, index) == Ok::<NameAndTypeView, Seq<char>>(v@),
                Err(message) => pool_name_and_type(self@, index) == Err::<
                    NameAndTypeView,
                    Seq<char>,
                >(message@),
            },
    {
        match self.get_entry(index) {
            Err(message) => Err(message),
            Ok(entry) => match entry {
                ConstantPoolEntry::NameAndType { name_index, descriptor_index } => {
                    let name = match self.get_utf8(*name_index) {
                        Ok(name) => name,
                        Err(message) => {
                            return Err(message);
                        },
                    };
                    let descriptor = match self.get_utf8(*descriptor_index) {
                        Ok(descriptor) => descriptor,
                        Err(message) => {
                            return Err(message);
                        },
                    };
                    Ok(NameAndType { name, descriptor })
                },
                _ => Err("Expected Class attribute".to_owned()),
            },
        }
    }

    /// The method reference at `index`, resolved to text.
    pub fn get_method_ref(&self, index: u16) -> (r: Result<Methodref, String>)
        ensures
            match r {
                Ok(v) => pool_method_ref(self@, index) == Ok::<MemberRefView, Seq<char>>(v@),
                Err(message) => pool_method_ref(self@, index) == Err::<MemberRefView, Seq<char>>(
                    message@,
                ),
            },
    {
        match self.get_entry(index) {
            Err(message) => Err(message),
            Ok(entry) => match entry {
                ConstantPoolEntry::Methodref { class_index, name_and_type_index } => {
                    let class_name = match self.get_class_name(*class_index) {
                        Ok(class_name) => class_name,
                        Err(message) => {
                            return Err(message);
                        },
                    };
                    let name_and_type = match self.get_name_and_type(*name_and_type_index) {
                        Ok(name_and_type) => name_and_type,
                        Err(message) => {
                            return Err(message);
                        },
                    };
                    Ok(Methodref { class_name, name_and_type })
                },
                _ => Err("Expected Class attribute".to_owned()),
            },
        }
    }

    /// The field reference at `index`, resolved to text.
    pub fn get_field_ref(&self, index: u16) -> (r: Result<Fieldref, String>)
        ensures
            match r {
                Ok(v) => pool_field_ref(self@, index) == Ok::<MemberRefView, Seq<char>>(v@),
                Err(message) => pool_field_ref(self@, index) == Err::<MemberRefView, Seq<char>>(
                    message@,
                ),
            },
    {
        match self.get_entry(index) {
            Err(message) => Err(message),
            Ok(entry) => match entry {
                ConstantPoolEntry::Fieldref { class_index, name_and_type_index } => {
                    let class_name = match self.get_class_name(*class_index) {
                        Ok(class_name) => class_name,
                        Err(message) => {
                            return Err(message);
                        },
                    };
                    let name_and_type = match self.get_name_and_type(*name_and_type_index) {
                        Ok(name_and_type) => name_and_type,
                        Err(message) => {
                            return Err(message);
                        },
                    };
                    Ok(Fieldref { class_name, name_and_type })
                },
                _ => Err("Expected Class attribute".to_owned()),
            },
        }
    }
}

/// The view of a lookup that yields text: the text or the message, each as
/// a sequence of characters.
pub open spec fn text_result_view(r: Result<String, String>) -> Result<Seq<char>, Seq<char>> {
    match r {
        Ok(text) => Ok(text@),
        Err(message) => Err(message@),
    }
}

/// Whether `index` names text in the pool.
pub open spec fn names_text(pool: Seq<ConstantPoolEntryView>, index: u16) -> bool {
    pool_entry(pool, index) matches Some(ConstantPoolEntryView::Utf8(_))
}

/// Whether `index` names a class whose name index names text.
pub open spec fn names_class(pool: Seq<ConstantPoolEntryView>, index: u16) -> bool {
    pool_entry(pool, index) matches Some(ConstantPoolEntryView::Class { name_index })
        && names_text(pool, name_index)
}

/// Whether `index` names a name-and-type whose two indices name text.
pub open spec fn names_name_and_type(pool: Seq<ConstantPoolEntryView>, index: u16) -> bool {
    pool_entry(pool, index) matches Some(
        ConstantPoolEntryView::NameAndType { name_index, descriptor_index },
    ) && names_text(pool, name_index) && names_text(pool, descriptor_index)
}

/// Resolution succeeds wherever the pool is built as the format asks: text
/// resolves, a class over text resolves, a name-and-type over texts
/// resolves, and a method or field reference over a class and a
/// name-and-type that resolve resolves too.
pub proof fn lemma_resolution_succeeds(pool: Seq<ConstantPoolEntryView>, index: u16)
    ensures
        names_text(pool, index) ==> pool_utf8(pool, index) is Ok,
        names_class(pool, index) ==> pool_class_name(pool, index) is Ok,
        names_name_and_type(pool, index) ==> pool_name_and_type(pool, index) is Ok,
        forall|class_index: u16, name_and_type_index: u16|
            pool_entry(pool, index) == Some(
                ConstantPoolEntryView::Methodref { class_index, name_and_type_index },
            ) && names_class(pool, class_index) && names_name_and_type(pool, name_and_type_index)
                ==> pool_method_ref(pool, index) is Ok,
        forall|class_index: u16, name_and_type_index: u16|
            pool_entry(pool, index) == Some(
                ConstantPoolEntryView::Fieldref { class_index, name_and_type_index },
            ) && names_class(pool, class_index) && names_name_and_type(pool, name_and_type_index)
                ==> pool_field_ref(pool, index) is Ok,
{
    assert forall|class_index: u16, name_and_type_index: u16|
        names_class(pool, class_index) && names_name_and_type(
            pool,
            name_and_type_index,
        ) implies pool_member(pool, class_index, name_and_type_index) is Ok by {}
}

/// Resolving an entry of the wrong kind fails with the message of a type
/// mismatch, and an index that names no entry fails with the message of an
/// index out of bounds: no lookup gives a made-up value.
pub proof fn lemma_wrong_kind_fails(pool: Seq<ConstantPoolEntryView>, index: u16)
    ensures
        pool_entry(pool, index) is None ==> {
            &&& pool_utf8(pool, index) == Err::<Seq<char>, _>(out_of_bounds_message())
            &&& pool_class_name(pool, index) == Err::<Seq<char>, _>(out_of_bounds_message())
            &&& pool_name_and_type(pool, index) == Err::<NameAndTypeView, _>(
                out_of_bounds_message(),
            )
            &&& pool_method_ref(pool, index) == Err::<MemberRefView, _>(out_of_bounds_message())
            &&& pool_field_ref(pool, index) == Err::<MemberRefView, _>(out_of_bounds_message())
        },
        pool_entry(pool, index) is Some && !(pool_entry(pool, index) matches Some(
            ConstantPoolEntryView::Utf8(_),
        )) ==> pool_utf8(pool, index) == Err::<Seq<char>, _>(expected_utf8_message()),
        pool_entry(pool, index) is Some && !(pool_entry(pool, index) matches Some(
            ConstantPoolEntryView::Class { .. },
        )) ==> pool_class_name(pool, index) == Err::<Seq<char>, _>(expected_class_message()),
        pool_entry(pool, index) is Some && !(pool_entry(pool, index) matches Some(
            ConstantPoolEntryView::NameAndType { .. },
        )) ==> pool_name_and_type(pool, index) == Err::<NameAndTypeView, _>(
            expected_class_message(),
        ),
        pool_entry(pool, index) is Some && !(pool_entry(pool, index) matches Some(
            ConstantPoolEntryView::Methodref { .. },
        )) ==> pool_method_ref(pool, index) == Err::<MemberRefView, _>(expected_class_message()),
        pool_entry(pool, index) is Some && !(pool_entry(pool, index) matches Some(
            ConstantPoolEntryView::Fieldref { .. },
        )) ==> pool_field_ref(pool, index) == Err::<MemberRefView, _>(expected_class_message()),
{
}

} // verus!
