//! The ways in which reading a class file fails.

use vstd::prelude::*;

verus! {

/// Why a byte sequence is not a class file of the supported subset.
#[derive(Debug)]
pub enum ClassReaderError {
    /// The input ended inside a value.
    EndOfStream,
    /// The first four bytes are not the class-file sentinel; carries them.
    InvalidMagic(u32),
    /// A constant pool entry starts with an unsupported tag; carries it.
    InvalidConstantTag(u8),
    /// Bytes that should be text are not valid UTF-8.
    InvalidUtf8,
    /// Bytes are left over: after the class, or inside an attribute body.
    RemainingBytes,
    /// An attribute's name index does not name text in the pool.
    ExpectedAttributeName,
    /// An attribute's name is not one of the recognized names; carries it.
    InvalidAttributeName(String),
    /// A stack map frame starts with a reserved type byte; carries it.
    InvalidStackMapFrame(u8),
    /// A verification type starts with an unknown tag; carries it.
    InvalidVerificationTypeInfo(u8),
}

/// The mathematical value of a [`ClassReaderError`].
pub ghost enum ClassReaderErrorView {
    EndOfStream,
    InvalidMagic(u32),
    InvalidConstantTag(u8),
    InvalidUtf8,
    RemainingBytes,
    ExpectedAttributeName,
    InvalidAttributeName(Seq<char>),
    InvalidStackMapFrame(u8),
    InvalidVerificationTypeInfo(u8),
}

impl View for ClassReaderError {
    type V = ClassReaderErrorView;

    open spec fn view(&self) -> ClassReaderErrorView {
        match self {
            ClassReaderError::EndOfStream => ClassReaderErrorView::EndOfStream,
            ClassReaderError::InvalidMagic(magic) => ClassReaderErrorView::InvalidMagic(*magic),
            ClassReaderError::InvalidConstantTag(tag) => ClassReaderErrorView::InvalidConstantTag(
                *tag,
            ),
            ClassReaderError::InvalidUtf8 => ClassReaderErrorView::InvalidUtf8,
            ClassReaderError::RemainingBytes => ClassReaderErrorView::RemainingBytes,
            ClassReaderError::ExpectedAttributeName => ClassReaderErrorView::ExpectedAttributeName,
            ClassReaderError::InvalidAttributeName(name) => ClassReaderErrorView::InvalidAttributeName(
                name@,
            ),
            ClassReaderError::InvalidStackMapFrame(kind) => ClassReaderErrorView::InvalidStackMapFrame(
                *kind,
            ),
            ClassReaderError::InvalidVerificationTypeInfo(
                tag,
            ) => ClassReaderErrorView::InvalidVerificationTypeInfo(*tag),
        }
    }
}

/// What reading one value off the front of a byte sequence gives: the value
/// or the failure, and the bytes that are left in either case.
pub type Parsed<T> = (Result<T, ClassReaderErrorView>, Seq<u8>);

/// The outcome of a read whose value is its own mathematical value.
pub open spec fn lift<T>(r: Result<T, ClassReaderError>) -> Result<T, ClassReaderErrorView> {
    match r {
        Ok(v) => Ok(v),
        Err(e) => Err(e@),
    }
}

/// The outcome of a read, with the value taken by its view.
pub open spec fn lift_view<T: View>(r: Result<T, ClassReaderError>) -> Result<
    T::V,
    ClassReaderErrorView,
> {
    match r {
        Ok(v) => Ok(v@),
        Err(e) => Err(e@),
    }
}

/// A list outcome with `head` put in front of the list, where there is one.
/// Failures and the remaining bytes pass through.
pub open spec fn prepend<T>(head: Seq<T>, tail: Parsed<Seq<T>>) -> Parsed<Seq<T>> {
    match tail.0 {
        Ok(items) => (Ok(head + items), tail.1),
        Err(e) => (Err(e), tail.1),
    }
}

/// Putting `head` and then one more item in front is putting the longer
/// list in front.
pub proof fn lemma_prepend_push<T>(head: Seq<T>, item: T, tail: Parsed<Seq<T>>)
    ensures
        prepend(head, prepend(seq![item], tail)) == prepend(head.push(item), tail),
{
    if let Ok(items) = tail.0 {
        assert(head + (seq![item] + items) =~= head.push(item) + items);
    }
}

/// Putting a list in front of the empty list gives the list.
pub proof fn lemma_prepend_empty<T>(head: Seq<T>, rest: Seq<u8>)
    ensures
        prepend(head, (Ok(Seq::<T>::empty()), rest)) == (
            Ok::<Seq<T>, ClassReaderErrorView>(head),
            rest,
        ),
{
    assert(head + Seq::<T>::empty() =~= head);
}

/// Putting nothing in front changes nothing.
pub proof fn lemma_prepend_empty_front<T>(tail: Parsed<Seq<T>>)
    ensures
        prepend(Seq::<T>::empty(), tail) == tail,
{
    if let Ok(items) = tail.0 {
        assert(Seq::<T>::empty() + items =~= items);
    }
}

} // verus!
