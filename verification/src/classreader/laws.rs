//! What holds of the format as a whole: how many entries a pool has, that a
//! class file must end where the class ends, and how the sentinel and the
//! attribute names are judged.

use vstd::prelude::*;
use crate::class::ClassFileView;
use crate::class::attribute::AttributeView;
use crate::class::pool::{ConstantPoolEntryView, pool_utf8};
use crate::classreader::error::{ClassReaderErrorView, Parsed, prepend};
use crate::classreader::grammar::{
    MAGIC_NUMBER,
    is_recognized_attribute_name,
    pool_length,
    spec_attribute_outcome,
    spec_attribute_rest,
    spec_finish_class,
    spec_read_attribute,
    spec_read_attributes,
    spec_read_class_body,
    spec_read_class_file,
    spec_read_constant_pool_entries,
    spec_read_constant_pool_entry,
    spec_read_counted_attributes,
    spec_read_counted_fields,
    spec_read_counted_methods,
    spec_read_field,
    spec_read_fields,
    spec_read_magic,
    spec_read_members,
    spec_read_method,
    spec_read_methods,
    spec_read_u16_array,
    spec_read_utf8,
    u16_at,
    u32_at,
};

verus! {

/// Whether a read that succeeded on the short input gives, on the input
/// with `extra` after it, the same value and leaves `extra` more.
pub open spec fn carries_over<T>(short: Parsed<T>, long: Parsed<T>, extra: Seq<u8>) -> bool {
    short.0 is Ok ==> long == (short.0, short.1 + extra)
}

/// Skipping within the first part of a joined sequence skips in that part.
proof fn lemma_skip_joined(s: Seq<u8>, extra: Seq<u8>, k: int)
    requires
        0 <= k <= s.len(),
    ensures
        (s + extra).skip(k) == s.skip(k) + extra,
{
    assert((s + extra).skip(k) =~= s.skip(k) + extra);
}

/// Taking within the first part of a joined sequence takes from that part.
proof fn lemma_take_joined(s: Seq<u8>, extra: Seq<u8>, k: int)
    requires
        0 <= k <= s.len(),
    ensures
        (s + extra).take(k) == s.take(k),
{
    assert((s + extra).take(k) =~= s.take(k));
}

/// Text that reads from an input reads the same from a longer one.
proof fn lemma_utf8_carries_over(s: Seq<u8>, length: nat, extra: Seq<u8>)
    ensures
        carries_over(spec_read_utf8(s, length), spec_read_utf8(s + extra, length), extra),
{
    if s.len() >= length {
        lemma_skip_joined(s, extra, length as int);
        lemma_take_joined(s, extra, length as int);
    }
}

/// A pool entry that reads from an input reads the same from a longer one.
proof fn lemma_pool_entry_carries_over(s: Seq<u8>, extra: Seq<u8>)
    ensures
        carries_over(
            spec_read_constant_pool_entry(s),
            spec_read_constant_pool_entry(s + extra),
            extra,
        ),
{
    if s.len() > 0 {
        let body = s.skip(1);
        lemma_skip_joined(s, extra, 1);
        if body.len() >= 2 {
            lemma_skip_joined(body, extra, 2);
            lemma_utf8_carries_over(body.skip(2), u16_at(body, 0) as nat, extra);
        }
        if body.len() >= 4 {
            lemma_skip_joined(body, extra, 4);
        }
    }
}

/// A pool that reads from an input reads the same from a longer one.
proof fn lemma_pool_carries_over(s: Seq<u8>, length: nat, extra: Seq<u8>)
    ensures
        carries_over(
            spec_read_constant_pool_entries(s, length),
            spec_read_constant_pool_entries(s + extra, length),
            extra,
        ),
    decreases length,
{
    if length > 0 {
        lemma_pool_entry_carries_over(s, extra);
        let first = spec_read_constant_pool_entry(s);
        if first.0 is Ok {
            lemma_pool_carries_over(first.1, (length - 1) as nat, extra);
        }
    }
}

/// A pool that reads holds exactly as many entries as were asked for.
pub proof fn lemma_pool_entry_count(s: Seq<u8>, length: nat)
    ensures
        match spec_read_constant_pool_entries(s, length).0 {
            Ok(entries) => entries.len() == length,
            Err(_) => true,
        },
    decreases length,
{
    if length > 0 {
        let first = spec_read_constant_pool_entry(s);
        if first.0 is Ok {
            lemma_pool_entry_count(first.1, (length - 1) as nat);
        }
    }
}

/// In a pool that reads, entry `k` is the entry that stands where the
/// first `k` entries end: the entries are the ones in the file, in file
/// order, none left out and none read twice.
pub proof fn lemma_pool_entries_in_order(s: Seq<u8>, length: nat, k: nat)
    requires
        spec_read_constant_pool_entries(s, length).0 is Ok,
        k < length,
    ensures
        spec_read_constant_pool_entries(s, k).0 == Ok::<_, ClassReaderErrorView>(
            spec_read_constant_pool_entries(s, length).0->Ok_0.take(k as int),
        ),
        spec_read_constant_pool_entry(spec_read_constant_pool_entries(s, k).1).0 == Ok::<
            _,
            ClassReaderErrorView,
        >(spec_read_constant_pool_entries(s, length).0->Ok_0[k as int]),
    decreases k,
{
    let entries = spec_read_constant_pool_entries(s, length).0->Ok_0;
    let first = spec_read_constant_pool_entry(s);
    let tail = spec_read_constant_pool_entries(first.1, (length - 1) as nat).0->Ok_0;
    lemma_pool_entry_count(s, length);
    assert(entries == seq![first.0->Ok_0] + tail);
    if k == 0 {
        assert(entries.take(0) =~= Seq::empty());
    } else {
        lemma_pool_entries_in_order(first.1, (length - 1) as nat, (k - 1) as nat);
        assert(seq![first.0->Ok_0] + tail.take(k - 1) =~= entries.take(k as int));
        assert(entries[k as int] == tail[k - 1]);
    }
}

/// A list of indices that reads from an input reads the same from a longer
/// one.
proof fn lemma_u16_array_carries_over(s: Seq<u8>, length: nat, extra: Seq<u8>)
    ensures
        carries_over(
            spec_read_u16_array(s, length),
            spec_read_u16_array(s + extra, length),
            extra,
        ),
{
    if s.len() >= 2 * length {
        lemma_skip_joined(s, extra, 2 * length as int);
        assert(Seq::new(length, |i: int| u16_at(s, 2 * i)) =~= Seq::new(
            length,
            |i: int| u16_at(s + extra, 2 * i),
        ));
    }
}

/// An attribute that reads from an input reads the same from a longer one:
/// its body is the same bytes.
proof fn lemma_attribute_carries_over(
    s: Seq<u8>,
    pool: Seq<ConstantPoolEntryView>,
    extra: Seq<u8>,
)
    ensures
        carries_over(spec_read_attribute(s, pool), spec_read_attribute(s + extra, pool), extra),
{
    if s.len() >= 6 && s.len() - 6 >= u32_at(s, 2) {
        let end = 6 + u32_at(s, 2);
        lemma_skip_joined(s, extra, end);
        assert((s + extra).subrange(6, end) =~= s.subrange(6, end));
    }
}

/// A list of attributes that reads from an input reads the same from a
/// longer one.
proof fn lemma_attributes_carry_over(
    s: Seq<u8>,
    length: nat,
    pool: Seq<ConstantPoolEntryView>,
    extra: Seq<u8>,
)
    ensures
        carries_over(
            spec_read_attributes(s, length, pool),
            spec_read_attributes(s + extra, length, pool),
            extra,
        ),
    decreases length,
{
    if length > 0 {
        lemma_attribute_carries_over(s, pool, extra);
        if spec_attribute_outcome(s, pool) is Ok {
            lemma_attributes_carry_over(spec_attribute_rest(s), (length - 1) as nat, pool, extra);
        }
    }
}

/// A counted list of attributes carries over to a longer input.
proof fn lemma_counted_attributes_carry_over(
    s: Seq<u8>,
    pool: Seq<ConstantPoolEntryView>,
    extra: Seq<u8>,
)
    ensures
        carries_over(
            spec_read_counted_attributes(s, pool),
            spec_read_counted_attributes(s + extra, pool),
            extra,
        ),
{
    if s.len() >= 2 {
        lemma_skip_joined(s, extra, 2);
        lemma_attributes_carry_over(s.skip(2), u16_at(s, 0) as nat, pool, extra);
    }
}

/// A field that reads from an input reads the same from a longer one.
proof fn lemma_field_carries_over(s: Seq<u8>, pool: Seq<ConstantPoolEntryView>, extra: Seq<u8>)
    ensures
        carries_over(spec_read_field(s, pool), spec_read_field(s + extra, pool), extra),
{
    if s.len() >= 6 {
        lemma_skip_joined(s, extra, 6);
        lemma_counted_attributes_carry_over(s.skip(6), pool, extra);
    }
}

/// A list of fields that reads from an input reads the same from a longer
/// one.
proof fn lemma_fields_carry_over(
    s: Seq<u8>,
    length: nat,
    pool: Seq<ConstantPoolEntryView>,
    extra: Seq<u8>,
)
    ensures
        carries_over(
            spec_read_fields(s, length, pool),
            spec_read_fields(s + extra, length, pool),
            extra,
        ),
    decreases length,
{
    if length > 0 {
        lemma_field_carries_over(s, pool, extra);
        let first = spec_read_field(s, pool);
        if first.0 is Ok {
            lemma_fields_carry_over(first.1, (length - 1) as nat, pool, extra);
        }
    }
}

/// A method that reads from an input reads the same from a longer one.
proof fn lemma_method_carries_over(s: Seq<u8>, pool: Seq<ConstantPoolEntryView>, extra: Seq<u8>)
    ensures
        carries_over(spec_read_method(s, pool), spec_read_method(s + extra, pool), extra),
{
    if s.len() >= 6 {
        lemma_skip_joined(s, extra, 6);
        lemma_counted_attributes_carry_over(s.skip(6), pool, extra);
    }
}

/// A list of methods that reads from an input reads the same from a longer
/// one.
proof fn lemma_methods_carry_over(
    s: Seq<u8>,
    length: nat,
    pool: Seq<ConstantPoolEntryView>,
    extra: Seq<u8>,
)
    ensures
        carries_over(
            spec_read_methods(s, length, pool),
            spec_read_methods(s + extra, length, pool),
            extra,
        ),
    decreases length,
{
    if length > 0 {
        lemma_method_carries_over(s, pool, extra);
        let first = spec_read_method(s, pool);
        if first.0 is Ok {
            lemma_methods_carry_over(first.1, (length - 1) as nat, pool, extra);
        }
    }
}

/// Members that read as a whole class leave nothing, so with anything after
/// them they are refused for the bytes that remain, and those bytes are
/// what is left.
proof fn lemma_members_refuse_extra(class: ClassFileView, s: Seq<u8>, extra: Seq<u8>)
    requires
        spec_read_members(class, s).0 is Ok,
        extra.len() > 0,
    ensures
        spec_read_members(class, s).1.len() == 0,
        spec_read_members(class, s + extra) == (
            Err::<ClassFileView, _>(ClassReaderErrorView::RemainingBytes),
            extra,
        ),
{
    let pool = class.constant_pool;
    let fields = spec_read_counted_fields(s, pool);
    if s.len() >= 2 {
        lemma_skip_joined(s, extra, 2);
        lemma_fields_carry_over(s.skip(2), u16_at(s, 0) as nat, pool, extra);
    }
    assert(spec_read_counted_fields(s + extra, pool) == (fields.0, fields.1 + extra));
    let methods = spec_read_counted_methods(fields.1, pool);
    if fields.1.len() >= 2 {
        lemma_skip_joined(fields.1, extra, 2);
        lemma_methods_carry_over(fields.1.skip(2), u16_at(fields.1, 0) as nat, pool, extra);
    }
    assert(spec_read_counted_methods(fields.1 + extra, pool) == (methods.0, methods.1 + extra));
    let attributes = spec_read_counted_attributes(methods.1, pool);
    lemma_counted_attributes_carry_over(methods.1, pool, extra);
    assert(spec_read_counted_attributes(methods.1 + extra, pool) == (
        attributes.0,
        attributes.1 + extra,
    ));
    assert(attributes.1.len() == 0);
    assert(attributes.1 + extra =~= extra);
}

/// A class file reads only where the input ends with the class: on success
/// nothing is left, and the same bytes with anything after them are
/// refused for the bytes that remain, with no other error, and with exactly
/// the added bytes left.
pub proof fn lemma_trailing_bytes_refused(s: Seq<u8>, extra: Seq<u8>)
    requires
        spec_read_class_file(s).0 is Ok,
        extra.len() > 0,
    ensures
        spec_read_class_file(s).1.len() == 0,
        spec_read_class_file(s + extra) == (
            Err::<ClassFileView, _>(ClassReaderErrorView::RemainingBytes),
            extra,
        ),
{
    lemma_skip_joined(s, extra, 4);
    let header = spec_read_magic(s).1;
    assert(spec_read_magic(s + extra) == (spec_read_magic(s).0, header + extra));
    lemma_skip_joined(header, extra, 6);
    let count = pool_length(u16_at(header, 4));
    let pool = spec_read_constant_pool_entries(header.skip(6), count);
    lemma_pool_carries_over(header.skip(6), count, extra);
    let body = pool.1;
    let entries = pool.0->Ok_0;
    lemma_skip_joined(body, extra, 8);
    let interfaces = spec_read_u16_array(body.skip(8), u16_at(body, 6) as nat);
    lemma_u16_array_carries_over(body.skip(8), u16_at(body, 6) as nat, extra);
    let class = ClassFileView {
        magic: spec_read_magic(s).0->Ok_0,
        minor_version: u16_at(header, 0),
        major_version: u16_at(header, 2),
        constant_pool: entries,
        access_flags: u16_at(body, 0),
        this_class: u16_at(body, 2),
        super_class: u16_at(body, 4),
        interfaces: interfaces.0->Ok_0,
        fields: Seq::empty(),
        methods: Seq::empty(),
        attributes: Seq::empty(),
    };
    lemma_members_refuse_extra(class, interfaces.1, extra);
}

/// The entries of a class that reads are one fewer than the count that the
/// file declares at its ninth and tenth byte.
pub proof fn lemma_class_pool_count(s: Seq<u8>)
    ensures
        match spec_read_class_file(s).0 {
            Ok(class) => s.len() >= 10 && class.constant_pool.len() == pool_length(u16_at(s, 8)),
            Err(_) => true,
        },
{
    if s.len() >= 10 {
        let header = s.skip(4);
        lemma_pool_entry_count(header.skip(6), pool_length(u16_at(header, 4)));
    }
}

/// An input of four bytes or more that does not open with the sentinel is
/// refused for its first four bytes, whatever follows, and exactly those
/// four bytes are taken.
pub proof fn lemma_bad_magic_refused(s: Seq<u8>)
    requires
        s.len() >= 4,
        u32_at(s, 0) != MAGIC_NUMBER,
    ensures
        spec_read_class_file(s) == (
            Err::<ClassFileView, _>(ClassReaderErrorView::InvalidMagic(u32_at(s, 0))),
            s.skip(4),
        ),
{
}

/// An attribute whose body is all there and whose name index resolves to
/// text outside the recognized names is refused for that name, whatever its
/// body holds, and taken whole.
pub proof fn lemma_unrecognized_attribute_refused(s: Seq<u8>, pool: Seq<ConstantPoolEntryView>)
    requires
        s.len() >= 6,
        s.len() - 6 >= u32_at(s, 2),
        pool_utf8(pool, u16_at(s, 0)) is Ok,
        !is_recognized_attribute_name(pool_utf8(pool, u16_at(s, 0))->Ok_0),
    ensures
        spec_read_attribute(s, pool) == (
            Err::<AttributeView, _>(
                ClassReaderErrorView::InvalidAttributeName(pool_utf8(pool, u16_at(s, 0))->Ok_0),
            ),
            s.skip(6 + u32_at(s, 2)),
        ),
{
}

} // verus!
