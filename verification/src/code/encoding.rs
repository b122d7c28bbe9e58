//! How instructions lie in code bytes, and the law that decoding undoes
//! it: instructions laid end to end decode to themselves, each at the
//! offset where it was laid.

use vstd::prelude::*;
use crate::code::disassembler::{
    DecodedInstruction,
    DisassemblerError,
    spec_decode_at,
    spec_disassemble,
    spec_disassemble_from,
};
use crate::code::instruction::{Instruction, lemma_opcode_of_decoded, spec_operand_width};

verus! {

/// The byte that holds a signed 8-bit number in two's complement.
pub open spec fn unsigned8(v: i8) -> u8 {
    if v < 0 {
        (v + 256) as u8
    } else {
        v as u8
    }
}

/// The more significant byte of a number of 16 bits, signed numbers in
/// two's complement.
pub open spec fn high_byte(v: int) -> u8 {
    if v < 0 {
        ((v + 65536) / 256) as u8
    } else {
        (v / 256) as u8
    }
}

/// The less significant byte of a number of 16 bits, signed numbers in
/// two's complement.
pub open spec fn low_byte(v: int) -> u8 {
    if v < 0 {
        ((v + 65536) % 256) as u8
    } else {
        (v % 256) as u8
    }
}

/// The two bytes of a 16-bit operand, the more significant first.
pub open spec fn wide_operand(v: int) -> Seq<u8> {
    seq![high_byte(v), low_byte(v)]
}

/// The two bytes of a short immediate.
pub open spec fn immediate_operand(value: i32) -> Seq<u8> {
    wide_operand(value as int)
}

/// The two bytes of a branch offset.
pub open spec fn offset_operand(offset: i16) -> Seq<u8> {
    wide_operand(offset as int)
}

/// The two bytes of a wide index.
pub open spec fn index_operand(index: u16) -> Seq<u8> {
    wide_operand(index as int)
}

impl Instruction {
    /// The operand bytes that follow the instruction's opcode.
    pub open spec fn spec_operands(self) -> Seq<u8> {
        match self {
            Instruction::Bipush(value) => seq![unsigned8(value)],
            Instruction::Sipush(value) => immediate_operand(value),
            Instruction::Ldc { index }
            | Instruction::Iload { index }
            | Instruction::Aload { index } => seq![index],
            Instruction::Istore(index) | Instruction::Astore(index) => seq![index],
            Instruction::Newarray { atype } => seq![atype],
            Instruction::Iinc { index, constant } => seq![index, unsigned8(constant)],
            Instruction::Ifeq { offset }
            | Instruction::Ifne { offset }
            | Instruction::Iflt { offset }
            | Instruction::Ifge { offset }
            | Instruction::Ifgt { offset }
            | Instruction::Ifle { offset }
            | Instruction::IfIcmpeq { offset }
            | Instruction::IfIcmpne { offset }
            | Instruction::IfIcmplt { offset }
            | Instruction::IfIcmpge { offset }
            | Instruction::IfIcmpgt { offset }
            | Instruction::IfIcmple { offset }
            | Instruction::Goto { offset } => offset_operand(offset),
            Instruction::Getstatic { index }
            | Instruction::Putstatic { index }
            | Instruction::Getfield { index }
            | Instruction::Putfield { index }
            | Instruction::Invokevirtual { index }
            | Instruction::Invokespecial { index }
            | Instruction::Invokestatic { index }
            | Instruction::New { index }
            | Instruction::Anewarray { index } => index_operand(index),
            _ => Seq::empty(),
        }
    }

    /// The code bytes of the instruction: its opcode, then its operands.
    pub open spec fn encoding(self) -> Seq<u8> {
        seq![self.spec_opcode()] + self.spec_operands()
    }

    /// Whether the instruction's operands fit the bytes they have: a short
    /// immediate must be a 16-bit number. Every decoded instruction is
    /// encodable.
    pub open spec fn encodable(self) -> bool {
        match self {
            Instruction::Sipush(value) => -32768 <= value <= 32767,
            _ => true,
        }
    }
}

/// An instruction takes up as many bytes as its encoding has.
pub proof fn lemma_encoding_width(instruction: Instruction)
    ensures
        instruction.encoding().len() == instruction.spec_width(),
        1 <= instruction.spec_width() <= 3,
{
}

/// Where the bytes of an encodable instruction lie in the code, that
/// instruction is decoded.
pub proof fn lemma_decode_encoding(code: Seq<u8>, at: int, instruction: Instruction)
    requires
        instruction.encodable(),
        0 <= at,
        at + instruction.spec_width() <= code.len(),
        code.subrange(at, at + instruction.spec_width()) == instruction.encoding(),
    ensures
        spec_decode_at(code, at) == Ok::<_, DisassemblerError>(instruction),
{
    lemma_encoding_width(instruction);
    let bytes = instruction.encoding();
    let part = code.subrange(at, at + instruction.spec_width());
    assert(code[at] == part[0]);
    assert(bytes[0] == instruction.spec_opcode());
    if instruction.spec_width() >= 2 {
        assert(code[at + 1] == part[1]);
        assert(bytes[1] == instruction.spec_operands()[0]);
    }
    if instruction.spec_width() >= 3 {
        assert(code[at + 2] == part[2]);
        assert(bytes[2] == instruction.spec_operands()[1]);
    }
}

/// An instruction that is decoded at an offset is encodable, and its
/// encoding is the bytes that lie there.
pub proof fn lemma_encoding_of_decoded(code: Seq<u8>, at: int)
    requires
        0 <= at < code.len(),
        spec_decode_at(code, at) is Ok,
    ensures
        spec_decode_at(code, at)->Ok_0.encodable(),
        at + spec_decode_at(code, at)->Ok_0.spec_width() <= code.len(),
        code.subrange(at, at + spec_decode_at(code, at)->Ok_0.spec_width()) == spec_decode_at(
            code,
            at,
        )->Ok_0.encoding(),
{
    let instruction = spec_decode_at(code, at)->Ok_0;
    let operands = spec_operand_width(code[at]).unwrap();
    lemma_opcode_of_decoded(
        code[at],
        if operands >= 1 {
            code[at + 1]
        } else {
            0
        },
        if operands >= 2 {
            code[at + 2]
        } else {
            0
        },
    );
    lemma_encoding_width(instruction);
    assert(code.subrange(at, at + instruction.spec_width()) =~= instruction.encoding());
}

/// The code bytes of a list of instructions laid end to end.
pub open spec fn assemble(list: Seq<Instruction>) -> Seq<u8>
    decreases list.len(),
{
    if list.len() == 0 {
        Seq::empty()
    } else {
        assemble(list.drop_last()) + list.last().encoding()
    }
}

/// The offset at which instruction `k` of the list starts when the list is
/// laid end to end: the length of what lies before it.
pub open spec fn offset_of(list: Seq<Instruction>, k: int) -> int {
    assemble(list.take(k)).len() as int
}

/// The instructions of the list, each with the offset at which it lies.
pub open spec fn laid_out(list: Seq<Instruction>) -> Seq<DecodedInstruction> {
    Seq::new(
        list.len(),
        |k: int| DecodedInstruction { index: offset_of(list, k) as usize, instruction: list[k] },
    )
}

/// Whether every instruction of the list is encodable.
pub open spec fn all_encodable(list: Seq<Instruction>) -> bool {
    forall|k: int| 0 <= k < list.len() ==> (#[trigger] list[k]).encodable()
}

/// The first `k + 1` instructions laid out are the first `k` laid out,
/// followed by the encoding of instruction `k`. So each instruction starts
/// where the one before it ends, offsets grow strictly, and the list ends
/// where its code ends.
pub proof fn lemma_layout_offsets(list: Seq<Instruction>, k: int)
    requires
        0 <= k < list.len(),
    ensures
        assemble(list.take(k + 1)) == assemble(list.take(k)) + list[k].encoding(),
        offset_of(list, k + 1) == offset_of(list, k) + list[k].spec_width(),
        offset_of(list, k) < offset_of(list, k + 1),
        offset_of(list, 0) == 0,
        offset_of(list, list.len() as int) == assemble(list).len(),
{
    assert(list.take(k + 1).drop_last() =~= list.take(k));
    assert(list.take(k + 1).last() == list[k]);
    lemma_encoding_width(list[k]);
    assert(list.take(list.len() as int) =~= list);
    assert(list.take(0).len() == 0);
}

/// What lies before instruction `k` is the start of the whole code.
proof fn lemma_assemble_prefix(list: Seq<Instruction>, k: int)
    requires
        0 <= k <= list.len(),
    ensures
        offset_of(list, k) <= assemble(list).len(),
        assemble(list.take(k)) == assemble(list).take(offset_of(list, k)),
    decreases list.len() - k,
{
    let whole = assemble(list);
    if k == list.len() {
        assert(list.take(k) =~= list);
        assert(whole.take(whole.len() as int) =~= whole);
    } else {
        lemma_layout_offsets(list, k);
        lemma_assemble_prefix(list, k + 1);
        let longer = assemble(list.take(k + 1));
        let shorter = assemble(list.take(k));
        assert(longer == whole.take(offset_of(list, k + 1)));
        assert(shorter =~= longer.take(shorter.len() as int));
        assert(shorter =~= whole.take(offset_of(list, k)));
    }
}

/// Decoding the laid-out code from the offset of instruction `k` gives the
/// instructions from `k` on, each at its offset.
proof fn lemma_disassemble_from_offset(list: Seq<Instruction>, k: int)
    requires
        all_encodable(list),
        assemble(list).len() <= usize::MAX,
        0 <= k <= list.len(),
    ensures
        spec_disassemble_from(assemble(list), offset_of(list, k)) == Ok::<_, DisassemblerError>(
            laid_out(list).skip(k),
        ),
    decreases list.len() - k,
{
    let code = assemble(list);
    let at = offset_of(list, k);
    lemma_assemble_prefix(list, k);
    if k == list.len() {
        assert(list.take(k) =~= list);
        assert(laid_out(list).skip(k) =~= Seq::<DecodedInstruction>::empty());
    } else {
        let instruction = list[k];
        let next = offset_of(list, k + 1);
        lemma_layout_offsets(list, k);
        lemma_assemble_prefix(list, k + 1);
        assert(code.subrange(at, next) =~= instruction.encoding()) by {
            assert(code.take(next) == assemble(list.take(k)) + instruction.encoding());
            assert(code.take(at) == assemble(list.take(k)));
            assert forall|j: int| 0 <= j < next - at implies code.subrange(at, next)[j]
                == instruction.encoding()[j] by {
                assert(code.take(next)[at + j] == code[at + j]);
            }
        }
        lemma_decode_encoding(code, at, instruction);
        lemma_disassemble_from_offset(list, k + 1);
        assert(seq![DecodedInstruction { index: at as usize, instruction }] + laid_out(list).skip(
            k + 1,
        ) =~= laid_out(list).skip(k));
    }
}

/// Encodable instructions laid end to end decode to themselves: as many
/// instructions as were laid, in their order, each at the offset where it
/// was laid.
pub proof fn lemma_disassemble_assembled(list: Seq<Instruction>)
    requires
        all_encodable(list),
        assemble(list).len() <= usize::MAX,
    ensures
        spec_disassemble(assemble(list)) == Ok::<_, DisassemblerError>(laid_out(list)),
        laid_out(list).len() == list.len(),
{
    lemma_disassemble_from_offset(list, 0);
    assert(list.take(0).len() == 0);
    assert(laid_out(list).skip(0) =~= laid_out(list));
}

} // verus!
