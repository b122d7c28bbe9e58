//! Decoding a method's code bytes into instructions, each with the offset
//! of its first byte.

use vstd::prelude::*;
use crate::code::instruction::{
    Instruction,
    instruction_of,
    lemma_opcode_of_decoded,
    operand_width,
    spec_instruction_of,
    spec_operand_width,
};

verus! {

/// An instruction and the offset of its opcode in the code bytes.
#[derive(Clone, Copy, Debug, PartialEq, Eq, Structural)]
pub struct DecodedInstruction {
    pub index: usize,
    pub instruction: Instruction,
}

/// Why code bytes do not decode.
#[derive(Clone, Copy, Debug, PartialEq, Eq, Structural)]
pub enum DisassemblerError {
    /// A byte where an opcode should stand is not one that is decoded;
    /// carries the byte.
    InvalidOpcode(u8),
    /// The operands of the last opcode run past the end of the code.
    UnexpectedEndOfCode,
}

/// The instruction whose opcode stands at offset `at`. Its operand bytes
/// must all lie inside the code.
pub open spec fn spec_decode_at(code: Seq<u8>, at: int) -> Result<Instruction, DisassemblerError>
    recommends
        0 <= at < code.len(),
{
    match spec_operand_width(code[at]) {
        None => Err(DisassemblerError::InvalidOpcode(code[at])),
        Some(operands) => if at + operands >= code.len() {
            Err(DisassemblerError::UnexpectedEndOfCode)
        } else {
            Ok(
                spec_instruction_of(
                    code[at],
                    if operands >= 1 {
                        code[at + 1]
                    } else {
                        0
                    },
                    if operands >= 2 {
                        code[at + 2]
                    } else {
                        0
                    },
                ),
            )
        },
    }
}

/// The instructions from offset `at` to the end of the code, one after the
/// other with no byte between them, or the first failure on the way.
pub open spec fn spec_disassemble_from(code: Seq<u8>, at: int) -> Result<
    Seq<DecodedInstruction>,
    DisassemblerError,
>
    decreases code.len() - at,
{
    if at < 0 || at >= code.len() {
        Ok(Seq::empty())
    } else {
        match spec_decode_at(code, at) {
            Err(e) => Err(e),
            Ok(instruction) => match spec_disassemble_from(code, at + instruction.spec_width()) {
                Err(e) => Err(e),
                Ok(rest) => Ok(
                    seq![DecodedInstruction { index: at as usize, instruction }] + rest,
                ),
            },
        }
    }
}

/// The instructions of a whole method body.
pub open spec fn spec_disassemble(code: Seq<u8>) -> Result<
    Seq<DecodedInstruction>,
    DisassemblerError,
> {
    spec_disassemble_from(code, 0)
}

/// A decoding with `head` put in front of its instructions.
pub open spec fn after<E>(head: Seq<DecodedInstruction>, tail: Result<
    Seq<DecodedInstruction>,
    E,
>) -> Result<Seq<DecodedInstruction>, E> {
    match tail {
        Ok(rest) => Ok(head + rest),
        Err(e) => Err(e),
    }
}

/// Decodes a method's code bytes from the first to the last. Every byte
/// belongs to exactly one instruction of the result; an unknown opcode or
/// operands that run past the end fail the whole decoding.
pub fn disassemble_code(code: &Vec<u8>) -> (r: Result<Vec<DecodedInstruction>, DisassemblerError>)
    ensures
        match r {
            Ok(list) => spec_disassemble(code@) == Ok::<_, DisassemblerError>(list@),
            Err(e) => spec_disassemble(code@) == Err::<Seq<DecodedInstruction>, _>(e),
        },
        r is Ok ==> tiles(code@, 0, r.unwrap()@),
{
    proof {
        assert(code@.len() == code.len());
        lemma_disassembly_tiles(code@, 0);
    }
    let mut instructions: Vec<DecodedInstruction> = Vec::new();
    let mut at: usize = 0;
    proof {
        if let Ok(rest) = spec_disassemble_from(code@, 0) {
            assert(Seq::<DecodedInstruction>::empty() + rest =~= rest);
        }
    }
    while at < code.len()
        invariant
            at <= code.len(),
            after(instructions@, spec_disassemble_from(code@, at as int)) == spec_disassemble(
                code@,
            ),
        decreases code.len() - at,
    {
        let opcode = code[at];
        let operands = match operand_width(opcode) {
            Some(operands) => operands,
            None => {
                return Err(DisassemblerError::InvalidOpcode(opcode));
            },
        };
        if code.len() - at <= operands {
            return Err(DisassemblerError::UnexpectedEndOfCode);
        }
        let b1 = if operands >= 1 {
            code[at + 1]
        } else {
            0
        };
        let b2 = if operands >= 2 {
            code[at + 2]
        } else {
            0
        };
        let instruction = instruction_of(opcode, b1, b2);
        let decoded = DecodedInstruction { index: at, instruction };
        proof {
            lemma_opcode_of_decoded(opcode, b1, b2);
            let next = spec_disassemble_from(code@, at + 1 + operands);
            if let Ok(rest) = next {
                assert(instructions@ + (seq![decoded] + rest) =~= instructions@.push(decoded)
                    + rest);
            }
        }
        instructions.push(decoded);
        at = at + 1 + operands;
    }
    proof {
        assert(instructions@ + Seq::<DecodedInstruction>::empty() =~= instructions@);
    }
    Ok(instructions)
}

/// Whether `list` lays instructions end to end from offset `at` to the end
/// of `code`: the first starts at `at`, each next one starts where the one
/// before it ends, the last ends where the code ends, and each is the
/// instruction that the code holds at its offset.
pub open spec fn tiles(code: Seq<u8>, at: int, list: Seq<DecodedInstruction>) -> bool {
    &&& list.len() == 0 <==> at >= code.len()
    &&& list.len() > 0 ==> list[0].index == at
    &&& forall|i: int|
        0 <= i < list.len() - 1 ==> #[trigger] list[i + 1].index == list[i].index
            + list[i].instruction.spec_width()
    &&& list.len() > 0 ==> list.last().index + list.last().instruction.spec_width() == code.len()
    &&& forall|i: int|
        0 <= i < list.len() ==> spec_decode_at(code, list[i].index as int) == Ok::<
            _,
            DisassemblerError,
        >((#[trigger] list[i]).instruction)
}

/// A decoding that succeeds from offset `at` lays its instructions end to
/// end from `at` to the end of the code, with no gap and no overlap.
pub proof fn lemma_disassembly_tiles(code: Seq<u8>, at: int)
    requires
        0 <= at <= code.len() <= usize::MAX,
    ensures
        match spec_disassemble_from(code, at) {
            Ok(list) => tiles(code, at, list),
            Err(_) => true,
        },
    decreases code.len() - at,
{
    if at < code.len() {
        if let Ok(instruction) = spec_decode_at(code, at) {
            lemma_opcode_of_decoded(
                code[at],
                if spec_operand_width(code[at]).unwrap() >= 1 {
                    code[at + 1]
                } else {
                    0
                },
                if spec_operand_width(code[at]).unwrap() >= 2 {
                    code[at + 2]
                } else {
                    0
                },
            );
            let next = at + instruction.spec_width();
            lemma_disassembly_tiles(code, next);
            if let Ok(rest) = spec_disassemble_from(code, next) {
                let first = DecodedInstruction { index: at as usize, instruction };
                let list = seq![first] + rest;
                assert(list[0] == first);
                assert forall|i: int| 0 < i < list.len() implies list[i] == rest[i - 1] by {}
                assert forall|i: int| 0 <= i < list.len() - 1 implies #[trigger] list[i + 1].index
                    == list[i].index + list[i].instruction.spec_width() by {
                    if i > 0 {
                        assert(list[i] == rest[i - 1]);
                        assert(list[i + 1] == rest[i - 1 + 1]);
                    } else {
                        assert(list[1] == rest[0]);
                    }
                }
                if rest.len() > 0 {
                    assert(list.last() == rest.last());
                }
                assert(tiles(code, at, list));
            }
        }
    }
}

/// The offsets of a decoding grow strictly from one instruction to the
/// next, and every instruction lies inside the code.
pub proof fn lemma_offsets_increase(code: Seq<u8>, i: int, j: int)
    requires
        code.len() <= usize::MAX,
        spec_disassemble(code) is Ok,
        0 <= i < j < spec_disassemble(code)->Ok_0.len(),
    ensures
        spec_disassemble(code)->Ok_0[i].index < spec_disassemble(code)->Ok_0[j].index,
        spec_disassemble(code)->Ok_0[j].index < code.len(),
    decreases j - i,
{
    let list = spec_disassemble(code)->Ok_0;
    lemma_disassembly_tiles(code, 0);
    lemma_within_code(code, list, j);
    if i + 1 < j {
        lemma_offsets_increase(code, i, j - 1);
    }
    assert(list[(j - 1) + 1].index == list[j - 1].index + list[j - 1].instruction.spec_width());
}

/// Every instruction of a tiling starts inside the code.
proof fn lemma_within_code(code: Seq<u8>, list: Seq<DecodedInstruction>, j: int)
    requires
        tiles(code, 0, list),
        0 <= j < list.len(),
    ensures
        list[j].index < code.len(),
    decreases list.len() - j,
{
    if j < list.len() - 1 {
        lemma_within_code(code, list, j + 1);
        assert(list[j + 1].index == list[j].index + list[j].instruction.spec_width());
    }
}

} // verus!
