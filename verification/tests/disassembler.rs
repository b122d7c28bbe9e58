use ironjdk::code::disassembler::{disassemble_code, DecodedInstruction, DisassemblerError};
use ironjdk::code::instruction::{instruction_of, operand_width, Instruction};

fn at(index: usize, instruction: Instruction) -> DecodedInstruction {
    DecodedInstruction { index, instruction }
}

#[test]
fn empty_code_has_no_instructions() {
    assert_eq!(disassemble_code(&vec![]), Ok(vec![]));
}

#[test]
fn one_byte_instructions_back_to_back() {
    let code = vec![0x05, 0x06, 0x60, 0xb1];
    let decoded = disassemble_code(&code).unwrap();
    assert_eq!(
        decoded,
        vec![
            at(0, Instruction::Iconst2),
            at(1, Instruction::Iconst3),
            at(2, Instruction::Iadd),
            at(3, Instruction::Return),
        ]
    );
}

#[test]
fn offsets_follow_the_widths() {
    // sipush 300; istore 4; iload 4; bipush -2; iinc 4, -1; goto -9; return
    let code = vec![
        0x11, 0x01, 0x2c, 0x36, 0x04, 0x15, 0x04, 0x10, 0xfe, 0x84, 0x04, 0xff, 0xa7, 0xff, 0xf7,
        0xb1,
    ];
    let decoded = disassemble_code(&code).unwrap();
    assert_eq!(
        decoded,
        vec![
            at(0, Instruction::Sipush(300)),
            at(3, Instruction::Istore(4)),
            at(5, Instruction::Iload { index: 4 }),
            at(7, Instruction::Bipush(-2)),
            at(9, Instruction::Iinc { index: 4, constant: -1 }),
            at(12, Instruction::Goto { offset: -9 }),
            at(15, Instruction::Return),
        ]
    );
    // strictly increasing offsets, each the end of the one before, and the
    // last ends where the code ends
    assert_eq!(decoded.len(), 7);
    for pair in decoded.windows(2) {
        assert!(pair[0].index < pair[1].index);
        assert_eq!(pair[0].index + pair[0].instruction.width(), pair[1].index);
    }
    let last = decoded.last().unwrap();
    assert_eq!(last.index + last.instruction.width(), code.len());
}

#[test]
fn a_constructor_body() {
    // aload_0; invokespecial #1; return
    let code = vec![0x2a, 0xb7, 0x00, 0x01, 0xb1];
    assert_eq!(
        disassemble_code(&code),
        Ok(vec![
            at(0, Instruction::Aload0),
            at(1, Instruction::Invokespecial { index: 1 }),
            at(4, Instruction::Return),
        ])
    );
}

#[test]
fn short_immediate_is_signed_and_big_endian() {
    assert_eq!(disassemble_code(&vec![0x11, 0x7f, 0xff]), Ok(vec![at(0, Instruction::Sipush(32767))]));
    assert_eq!(disassemble_code(&vec![0x11, 0x80, 0x00]), Ok(vec![at(0, Instruction::Sipush(-32768))]));
    assert_eq!(disassemble_code(&vec![0x11, 0xff, 0xff]), Ok(vec![at(0, Instruction::Sipush(-1))]));
    assert_eq!(disassemble_code(&vec![0x11, 0x00, 0x02]), Ok(vec![at(0, Instruction::Sipush(2))]));
}

#[test]
fn wide_indices_are_unsigned() {
    assert_eq!(
        disassemble_code(&vec![0xb2, 0xff, 0xfe, 0xbb, 0x01, 0x00]),
        Ok(vec![
            at(0, Instruction::Getstatic { index: 65534 }),
            at(3, Instruction::New { index: 256 }),
        ])
    );
}

#[test]
fn new_array_carries_its_element_type() {
    assert_eq!(
        disassemble_code(&vec![0x08, 0xbc, 0x0a, 0x4c]),
        Ok(vec![
            at(0, Instruction::Iconst5),
            at(1, Instruction::Newarray { atype: 10 }),
            at(3, Instruction::Astore1),
        ])
    );
}

#[test]
fn an_unknown_opcode_fails_the_whole_body() {
    assert_eq!(disassemble_code(&vec![0x03, 0xca, 0xb1]), Err(DisassemblerError::InvalidOpcode(0xca)));
    assert_eq!(disassemble_code(&vec![0xff]), Err(DisassemblerError::InvalidOpcode(0xff)));
}

#[test]
fn operands_past_the_end_fail() {
    assert_eq!(disassemble_code(&vec![0x11, 0x01]), Err(DisassemblerError::UnexpectedEndOfCode));
    assert_eq!(disassemble_code(&vec![0x03, 0x10]), Err(DisassemblerError::UnexpectedEndOfCode));
    assert_eq!(disassemble_code(&vec![0xb6]), Err(DisassemblerError::UnexpectedEndOfCode));
}

#[test]
fn an_operand_is_not_taken_for_an_opcode() {
    // 0xca is no opcode, but here it is the operand of bipush
    assert_eq!(
        disassemble_code(&vec![0x10, 0xca, 0xb1]),
        Ok(vec![at(0, Instruction::Bipush(-54)), at(2, Instruction::Return)])
    );
}

#[test]
fn operand_widths_by_opcode() {
    assert_eq!(operand_width(0x00), Some(0));
    assert_eq!(operand_width(0x60), Some(0));
    assert_eq!(operand_width(0x10), Some(1));
    assert_eq!(operand_width(0x15), Some(1));
    assert_eq!(operand_width(0xbc), Some(1));
    assert_eq!(operand_width(0x11), Some(2));
    assert_eq!(operand_width(0x84), Some(2));
    assert_eq!(operand_width(0xa7), Some(2));
    assert_eq!(operand_width(0xb6), Some(2));
    assert_eq!(operand_width(0xc4), None);
    assert_eq!(operand_width(0x09), None);
}

#[test]
fn opcode_and_width_of_an_instruction() {
    assert_eq!(Instruction::Iadd.opcode(), 0x60);
    assert_eq!(Instruction::Iadd.width(), 1);
    assert_eq!(Instruction::Istore(7).opcode(), 0x36);
    assert_eq!(Instruction::Istore(7).width(), 2);
    assert_eq!(Instruction::IfIcmpge { offset: 12 }.opcode(), 0xa2);
    assert_eq!(Instruction::IfIcmpge { offset: 12 }.width(), 3);
    assert_eq!(instruction_of(0xa2, 0x00, 0x0c), Instruction::IfIcmpge { offset: 12 });
    assert_eq!(instruction_of(0x2e, 0x55, 0x66), Instruction::Iaload);
}

#[test]
fn every_decoded_opcode_round_trips() {
    for opcode in 0..=255u8 {
        if let Some(operands) = operand_width(opcode) {
            let instruction = instruction_of(opcode, 0x12, 0x34);
            assert_eq!(instruction.opcode(), opcode);
            assert_eq!(instruction.width(), 1 + operands);
            let mut code = vec![opcode, 0x12, 0x34];
            code.truncate(1 + operands);
            assert_eq!(disassemble_code(&code), Ok(vec![at(0, instruction)]));
        } else {
            assert_eq!(disassemble_code(&vec![opcode]), Err(DisassemblerError::InvalidOpcode(opcode)));
        }
    }
}
