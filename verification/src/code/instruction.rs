//! The instructions that the disassembler decodes, and the table that says
//! how many operand bytes follow each opcode.

use vstd::prelude::*;

verus! {

/// One decoded instruction with the operands it needs to run. Signed
/// operands are sign-extended; indices are as the code bytes give them.
#[derive(Clone, Copy, Debug, PartialEq, Eq, Structural)]
#[allow(inconsistent_fields)]
pub enum Instruction {
    Nop,
    AconstNull,
    IconstM1,
    Iconst0,
    Iconst1,
    Iconst2,
    Iconst3,
    Iconst4,
    Iconst5,
    Bipush(i8),
    Sipush(i32),
    Ldc { index: u8 },
    Iload { index: u8 },
    Aload { index: u8 },
    Iload0,
    Iload1,
    Iload2,
    Iload3,
    Aload0,
    Aload1,
    Aload2,
    Aload3,
    Iaload,
    Aaload,
    Istore(u8),
    Astore(u8),
    Istore0,
    Istore1,
    Istore2,
    Istore3,
    Astore0,
    Astore1,
    Astore2,
    Astore3,
    Iastore,
    Aastore,
    Pop,
    Dup,
    Iadd,
    Isub,
    Imul,
    Idiv,
    Irem,
    Ineg,
    Iinc { index: u8, constant: i8 },
    Ifeq { offset: i16 },
    Ifne { offset: i16 },
    Iflt { offset: i16 },
    Ifge { offset: i16 },
    Ifgt { offset: i16 },
    Ifle { offset: i16 },
    IfIcmpeq { offset: i16 },
    IfIcmpne { offset: i16 },
    IfIcmplt { offset: i16 },
    IfIcmpge { offset: i16 },
    IfIcmpgt { offset: i16 },
    IfIcmple { offset: i16 },
    Goto { offset: i16 },
    Ireturn,
    Areturn,
    Return,
    Getstatic { index: u16 },
    Putstatic { index: u16 },
    Getfield { index: u16 },
    Putfield { index: u16 },
    Invokevirtual { index: u16 },
    Invokespecial { index: u16 },
    Invokestatic { index: u16 },
    New { index: u16 },
    Newarray { atype: u8 },
    Anewarray { index: u16 },
    Arraylength,
    Athrow,
}

/// A byte read as a signed number in two's complement.
pub open spec fn signed8(b: u8) -> i8 {
    if b >= 128 {
        (b - 256) as i8
    } else {
        b as i8
    }
}

/// Two bytes read as one unsigned number, the first the more significant.
pub open spec fn unsigned16(hi: u8, lo: u8) -> u16 {
    (hi * 256 + lo) as u16
}

/// Two bytes read as one signed number in two's complement, the first the
/// more significant.
pub open spec fn signed16(hi: u8, lo: u8) -> i16 {
    if hi >= 128 {
        (hi * 256 + lo - 65536) as i16
    } else {
        (hi * 256 + lo) as i16
    }
}

/// Two bytes read as a signed 16-bit number and widened to 32 bits.
pub open spec fn short_value(hi: u8, lo: u8) -> i32 {
    signed16(hi, lo) as i32
}

/// The number of operand bytes that follow `opcode`, or nothing where the
/// opcode is not one that is decoded. The width is fixed per opcode.
pub open spec fn spec_operand_width(opcode: u8) -> Option<nat> {
    match opcode {
        0x00 | 0x01 | 0x02 | 0x03 | 0x04 | 0x05 | 0x06 | 0x07 | 0x08 | 0x1a | 0x1b | 0x1c |
        0x1d | 0x2a | 0x2b | 0x2c | 0x2d | 0x2e | 0x32 | 0x3b | 0x3c | 0x3d | 0x3e | 0x4b |
        0x4c | 0x4d | 0x4e | 0x4f | 0x53 | 0x57 | 0x59 | 0x60 | 0x64 | 0x68 | 0x6c | 0x70 |
        0x74 | 0xac | 0xb0 | 0xb1 | 0xbe | 0xbf => Some(0nat),
        0x10 | 0x12 | 0x15 | 0x19 | 0x36 | 0x3a | 0xbc => Some(1nat),
        0x11 | 0x84 | 0x99 | 0x9a | 0x9b | 0x9c | 0x9d | 0x9e | 0x9f | 0xa0 | 0xa1 | 0xa2 |
        0xa3 | 0xa4 | 0xa7 | 0xb2 | 0xb3 | 0xb4 | 0xb5 | 0xb6 | 0xb7 | 0xb8 | 0xbb | 0xbd => Some(2nat),
        _ => None,
    }
}

/// The instruction that `opcode` stands for with operand bytes `b1` and
/// `b2`; an opcode with fewer operands ignores the bytes it has no use
/// for. It is `Nop` for an opcode that is not decoded.
pub open spec fn spec_instruction_of(opcode: u8, b1: u8, b2: u8) -> Instruction {
    match opcode {
        0x01 => Instruction::AconstNull,
        0x02 => Instruction::IconstM1,
        0x03 => Instruction::Iconst0,
        0x04 => Instruction::Iconst1,
        0x05 => Instruction::Iconst2,
        0x06 => Instruction::Iconst3,
        0x07 => Instruction::Iconst4,
        0x08 => Instruction::Iconst5,
        0x10 => Instruction::Bipush(signed8(b1)),
        0x11 => Instruction::Sipush(short_value(b1, b2)),
        0x12 => Instruction::Ldc { index: b1 },
        0x15 => Instruction::Iload { index: b1 },
        0x19 => Instruction::Aload { index: b1 },
        0x1a => Instruction::Iload0,
        0x1b => Instruction::Iload1,
        0x1c => Instruction::Iload2,
        0x1d => Instruction::Iload3,
        0x2a => Instruction::Aload0,
        0x2b => Instruction::Aload1,
        0x2c => Instruction::Aload2,
        0x2d => Instruction::Aload3,
        0x2e => Instruction::Iaload,
        0x32 => Instruction::Aaload,
        0x36 => Instruction::Istore(b1),
        0x3a => Instruction::Astore(b1),
        0x3b => Instruction::Istore0,
        0x3c => Instruction::Istore1,
        0x3d => Instruction::Istore2,
        0x3e => Instruction::Istore3,
        0x4b => Instruction::Astore0,
        0x4c => Instruction::Astore1,
        0x4d => Instruction::Astore2,
        0x4e => Instruction::Astore3,
        0x4f => Instruction::Iastore,
        0x53 => Instruction::Aastore,
        0x57 => Instruction::Pop,
        0x59 => Instruction::Dup,
        0x60 => Instruction::Iadd,
        0x64 => Instruction::Isub,
        0x68 => Instruction::Imul,
        0x6c => Instruction::Idiv,
        0x70 => Instruction::Irem,
        0x74 => Instruction::Ineg,
        0x84 => Instruction::Iinc { index: b1, constant: signed8(b2) },
        0x99 => Instruction::Ifeq { offset: signed16(b1, b2) },
        0x9a => Instruction::Ifne { offset: signed16(b1, b2) },
        0x9b => Instruction::Iflt { offset: signed16(b1, b2) },
        0x9c => Instruction::Ifge { offset: signed16(b1, b2) },
        0x9d => Instruction::Ifgt { offset: signed16(b1, b2) },
        0x9e => Instruction::Ifle { offset: signed16(b1, b2) },
        0x9f => Instruction::IfIcmpeq { offset: signed16(b1, b2) },
        0xa0 => Instruction::IfIcmpne { offset: signed16(b1, b2) },
        0xa1 => Instruction::IfIcmplt { offset: signed16(b1, b2) },
        0xa2 => Instruction::IfIcmpge { offset: signed16(b1, b2) },
        0xa3 => Instruction::IfIcmpgt { offset: signed16(b1, b2) },
        0xa4 => Instruction::IfIcmple { offset: signed16(b1, b2) },
        0xa7 => Instruction::Goto { offset: signed16(b1, b2) },
        0xac => Instruction::Ireturn,
        0xb0 => Instruction::Areturn,
        0xb1 => Instruction::Return,
        0xb2 => Instruction::Getstatic { index: unsigned16(b1, b2) },
        0xb3 => Instruction::Putstatic { index: unsigned16(b1, b2) },
        0xb4 => Instruction::Getfield { index: unsigned16(b1, b2) },
        0xb5 => Instruction::Putfield { index: unsigned16(b1, b2) },
        0xb6 => Instruction::Invokevirtual { index: unsigned16(b1, b2) },
        0xb7 => Instruction::Invokespecial { index: unsigned16(b1, b2) },
        0xb8 => Instruction::Invokestatic { index: unsigned16(b1, b2) },
        0xbb => Instruction::New { index: unsigned16(b1, b2) },
        0xbc => Instruction::Newarray { atype: b1 },
        0xbd => Instruction::Anewarray { index: unsigned16(b1, b2) },
        0xbe => Instruction::Arraylength,
        0xbf => Instruction::Athrow,
        _ => Instruction::Nop,
    }
}

impl Instruction {
    /// The opcode byte that selects this instruction.
    pub open spec fn spec_opcode(self) -> u8 {
        match self {
            Instruction::Nop => 0x00,
            Instruction::AconstNull => 0x01,
            Instruction::IconstM1 => 0x02,
            Instruction::Iconst0 => 0x03,
            Instruction::Iconst1 => 0x04,
            Instruction::Iconst2 => 0x05,
            Instruction::Iconst3 => 0x06,
            Instruction::Iconst4 => 0x07,
            Instruction::Iconst5 => 0x08,
            Instruction::Bipush(_) => 0x10,
            Instruction::Sipush(_) => 0x11,
            Instruction::Ldc { .. } => 0x12,
            Instruction::Iload { .. } => 0x15,
            Instruction::Aload { .. } => 0x19,
            Instruction::Iload0 => 0x1a,
            Instruction::Iload1 => 0x1b,
            Instruction::Iload2 => 0x1c,
            Instruction::Iload3 => 0x1d,
            Instruction::Aload0 => 0x2a,
            Instruction::Aload1 => 0x2b,
            Instruction::Aload2 => 0x2c,
            Instruction::Aload3 => 0x2d,
            Instruction::Iaload => 0x2e,
            Instruction::Aaload => 0x32,
            Instruction::Istore(_) => 0x36,
            Instruction::Astore(_) => 0x3a,
            Instruction::Istore0 => 0x3b,
            Instruction::Istore1 => 0x3c,
            Instruction::Istore2 => 0x3d,
            Instruction::Istore3 => 0x3e,
            Instruction::Astore0 => 0x4b,
            Instruction::Astore1 => 0x4c,
            Instruction::Astore2 => 0x4d,
            Instruction::Astore3 => 0x4e,
            Instruction::Iastore => 0x4f,
            Instruction::Aastore => 0x53,
            Instruction::Pop => 0x57,
            Instruction::Dup => 0x59,
            Instruction::Iadd => 0x60,
            Instruction::Isub => 0x64,
            Instruction::Imul => 0x68,
            Instruction::Idiv => 0x6c,
            Instruction::Irem => 0x70,
            Instruction::Ineg => 0x74,
            Instruction::Iinc { .. } => 0x84,
            Instruction::Ifeq { .. } => 0x99,
            Instruction::Ifne { .. } => 0x9a,
            Instruction::Iflt { .. } => 0x9b,
            Instruction::Ifge { .. } => 0x9c,
            Instruction::Ifgt { .. } => 0x9d,
            Instruction::Ifle { .. } => 0x9e,
            Instruction::IfIcmpeq { .. } => 0x9f,
            Instruction::IfIcmpne { .. } => 0xa0,
            Instruction::IfIcmplt { .. } => 0xa1,
            Instruction::IfIcmpge { .. } => 0xa2,
            Instruction::IfIcmpgt { .. } => 0xa3,
            Instruction::IfIcmple { .. } => 0xa4,
            Instruction::Goto { .. } => 0xa7,
            Instruction::Ireturn => 0xac,
            Instruction::Areturn => 0xb0,
            Instruction::Return => 0xb1,
            Instruction::Getstatic { .. } => 0xb2,
            Instruction::Putstatic { .. } => 0xb3,
            Instruction::Getfield { .. } => 0xb4,
            Instruction::Putfield { .. } => 0xb5,
            Instruction::Invokevirtual { .. } => 0xb6,
            Instruction::Invokespecial { .. } => 0xb7,
            Instruction::Invokestatic { .. } => 0xb8,
            Instruction::New { .. } => 0xbb,
            Instruction::Newarray { .. } => 0xbc,
            Instruction::Anewarray { .. } => 0xbd,
            Instruction::Arraylength => 0xbe,
            Instruction::Athrow => 0xbf,
        }
    }

    /// The number of code bytes that this instruction takes up: its opcode
    /// and its operands.
    pub open spec fn spec_width(self) -> nat {
        1 + spec_operand_width(self.spec_opcode()).unwrap()
    }

    /// The opcode byte that selects this instruction.
    pub fn opcode(&self) -> (r: u8)
        ensures
            r == self.spec_opcode(),
    {
        match self {
            Instruction::Nop => 0x00,
            Instruction::AconstNull => 0x01,
            Instruction::IconstM1 => 0x02,
            Instruction::Iconst0 => 0x03,
            Instruction::Iconst1 => 0x04,
            Instruction::Iconst2 => 0x05,
            Instruction::Iconst3 => 0x06,
            Instruction::Iconst4 => 0x07,
            Instruction::Iconst5 => 0x08,
            Instruction::Bipush(_) => 0x10,
            Instruction::Sipush(_) => 0x11,
            Instruction::Ldc { .. } => 0x12,
            Instruction::Iload { .. } => 0x15,
            Instruction::Aload { .. } => 0x19,
            Instruction::Iload0 => 0x1a,
            Instruction::Iload1 => 0x1b,
            Instruction::Iload2 => 0x1c,
            Instruction::Iload3 => 0x1d,
            Instruction::Aload0 => 0x2a,
            Instruction::Aload1 => 0x2b,
            Instruction::Aload2 => 0x2c,
            Instruction::Aload3 => 0x2d,
            Instruction::Iaload => 0x2e,
            Instruction::Aaload => 0x32,
            Instruction::Istore(_) => 0x36,
            Instruction::Astore(_) => 0x3a,
            Instruction::Istore0 => 0x3b,
            Instruction::Istore1 => 0x3c,
            Instruction::Istore2 => 0x3d,
            Instruction::Istore3 => 0x3e,
            Instruction::Astore0 => 0x4b,
            Instruction::Astore1 => 0x4c,
            Instruction::Astore2 => 0x4d,
            Instruction::Astore3 => 0x4e,
            Instruction::Iastore => 0x4f,
            Instruction::Aastore => 0x53,
            Instruction::Pop => 0x57,
            Instruction::Dup => 0x59,
            Instruction::Iadd => 0x60,
            Instruction::Isub => 0x64,
            Instruction::Imul => 0x68,
            Instruction::Idiv => 0x6c,
            Instruction::Irem => 0x70,
            Instruction::Ineg => 0x74,
            Instruction::Iinc { .. } => 0x84,
            Instruction::Ifeq { .. } => 0x99,
            Instruction::Ifne { .. } => 0x9a,
            Instruction::Iflt { .. } => 0x9b,
            Instruction::Ifge { .. } => 0x9c,
            Instruction::Ifgt { .. } => 0x9d,
            Instruction::Ifle { .. } => 0x9e,
            Instruction::IfIcmpeq { .. } => 0x9f,
            Instruction::IfIcmpne { .. } => 0xa0,
            Instruction::IfIcmplt { .. } => 0xa1,
            Instruction::IfIcmpge { .. } => 0xa2,
            Instruction::IfIcmpgt { .. } => 0xa3,
            Instruction::IfIcmple { .. } => 0xa4,
            Instruction::Goto { .. } => 0xa7,
            Instruction::Ireturn => 0xac,
            Instruction::Areturn => 0xb0,
            Instruction::Return => 0xb1,
            Instruction::Getstatic { .. } => 0xb2,
            Instruction::Putstatic { .. } => 0xb3,
            Instruction::Getfield { .. } => 0xb4,
            Instruction::Putfield { .. } => 0xb5,
            Instruction::Invokevirtual { .. } => 0xb6,
            Instruction::Invokespecial { .. } => 0xb7,
            Instruction::Invokestatic { .. } => 0xb8,
            Instruction::New { .. } => 0xbb,
            Instruction::Newarray { .. } => 0xbc,
            Instruction::Anewarray { .. } => 0xbd,
            Instruction::Arraylength => 0xbe,
            Instruction::Athrow => 0xbf,
        }
    }

    /// The number of code bytes that this instruction takes up.
    pub fn width(&self) -> (r: usize)
        ensures
            r == self.spec_width(),
            1 <= r <= 3,
    {
        match operand_width(self.opcode()) {
            Some(operands) => 1 + operands,
            None => 1,
        }
    }
}

/// A byte as a signed number.
pub fn to_signed8(b: u8) -> (r: i8)
    ensures
        r == signed8(b),
{
    if b >= 128 {
        ((b as i16) - 256) as i8
    } else {
        b as i8
    }
}

/// Two bytes as one unsigned number.
pub fn to_unsigned16(hi: u8, lo: u8) -> (r: u16)
    ensures
        r == unsigned16(hi, lo),
{
    (hi as u16) * 256 + (lo as u16)
}

/// Two bytes as one signed number.
pub fn to_signed16(hi: u8, lo: u8) -> (r: i16)
    ensures
        r == signed16(hi, lo),
{
    let wide: i32 = (hi as i32) * 256 + (lo as i32);
    if hi >= 128 {
        (wide - 65536) as i16
    } else {
        wide as i16
    }
}

/// Two bytes as one signed number, widened to 32 bits.
pub fn to_short_value(hi: u8, lo: u8) -> (r: i32)
    ensures
        r == short_value(hi, lo),
{
    to_signed16(hi, lo) as i32
}

/// The number of operand bytes that follow `opcode`, if it is decoded.
pub fn operand_width(opcode: u8) -> (r: Option<usize>)
    ensures
        match r {
            Some(n) => spec_operand_width(opcode) == Some(n as nat) && n <= 2,
            None => spec_operand_width(opcode).is_none(),
        },
{
    match opcode {
        0x00 | 0x01 | 0x02 | 0x03 | 0x04 | 0x05 | 0x06 | 0x07 | 0x08 | 0x1a | 0x1b | 0x1c |
        0x1d | 0x2a | 0x2b | 0x2c | 0x2d | 0x2e | 0x32 | 0x3b | 0x3c | 0x3d | 0x3e | 0x4b |
        0x4c | 0x4d | 0x4e | 0x4f | 0x53 | 0x57 | 0x59 | 0x60 | 0x64 | 0x68 | 0x6c | 0x70 |
        0x74 | 0xac | 0xb0 | 0xb1 | 0xbe | 0xbf => Some(0),
        0x10 | 0x12 | 0x15 | 0x19 | 0x36 | 0x3a | 0xbc => Some(1),
        0x11 | 0x84 | 0x99 | 0x9a | 0x9b | 0x9c | 0x9d | 0x9e | 0x9f | 0xa0 | 0xa1 | 0xa2 |
        0xa3 | 0xa4 | 0xa7 | 0xb2 | 0xb3 | 0xb4 | 0xb5 | 0xb6 | 0xb7 | 0xb8 | 0xbb | 0xbd => Some(2),
        _ => None,
    }
}

/// The instruction that a decoded `opcode` stands for with operand bytes
/// `b1` and `b2`.
pub fn instruction_of(opcode: u8, b1: u8, b2: u8) -> (r: Instruction)
    ensures
        r == spec_instruction_of(opcode, b1, b2),
{
    match opcode {
        0x01 => Instruction::AconstNull,
        0x02 => Instruction::IconstM1,
        0x03 => Instruction::Iconst0,
        0x04 => Instruction::Iconst1,
        0x05 => Instruction::Iconst2,
        0x06 => Instruction::Iconst3,
        0x07 => Instruction::Iconst4,
        0x08 => Instruction::Iconst5,
        0x10 => Instruction::Bipush(to_signed8(b1)),
        0x11 => Instruction::Sipush(to_short_value(b1, b2)),
        0x12 => Instruction::Ldc { index: b1 },
        0x15 => Instruction::Iload { index: b1 },
        0x19 => Instruction::Aload { index: b1 },
        0x1a => Instruction::Iload0,
        0x1b => Instruction::Iload1,
        0x1c => Instruction::Iload2,
        0x1d => Instruction::Iload3,
        0x2a => Instruction::Aload0,
        0x2b => Instruction::Aload1,
        0x2c => Instruction::Aload2,
        0x2d => Instruction::Aload3,
        0x2e => Instruction::Iaload,
        0x32 => Instruction::Aaload,
        0x36 => Instruction::Istore(b1),
        0x3a => Instruction::Astore(b1),
        0x3b => Instruction::Istore0,
        0x3c => Instruction::Istore1,
        0x3d => Instruction::Istore2,
        0x3e => Instruction::Istore3,
        0x4b => Instruction::Astore0,
        0x4c => Instruction::Astore1,
        0x4d => Instruction::Astore2,
        0x4e => Instruction::Astore3,
        0x4f => Instruction::Iastore,
        0x53 => Instruction::Aastore,
        0x57 => Instruction::Pop,
        0x59 => Instruction::Dup,
        0x60 => Instruction::Iadd,
        0x64 => Instruction::Isub,
        0x68 => Instruction::Imul,
        0x6c => Instruction::Idiv,
        0x70 => Instruction::Irem,
        0x74 => Instruction::Ineg,
        0x84 => Instruction::Iinc { index: b1, constant: to_signed8(b2) },
        0x99 => Instruction::Ifeq { offset: to_signed16(b1, b2) },
        0x9a => Instruction::Ifne { offset: to_signed16(b1, b2) },
        0x9b => Instruction::Iflt { offset: to_signed16(b1, b2) },
        0x9c => Instruction::Ifge { offset: to_signed16(b1, b2) },
        0x9d => Instruction::Ifgt { offset: to_signed16(b1, b2) },
        0x9e => Instruction::Ifle { offset: to_signed16(b1, b2) },
        0x9f => Instruction::IfIcmpeq { offset: to_signed16(b1, b2) },
        0xa0 => Instruction::IfIcmpne { offset: to_signed16(b1, b2) },
        0xa1 => Instruction::IfIcmplt { offset: to_signed16(b1, b2) },
        0xa2 => Instruction::IfIcmpge { offset: to_signed16(b1, b2) },
        0xa3 => Instruction::IfIcmpgt { offset: to_signed16(b1, b2) },
        0xa4 => Instruction::IfIcmple { offset: to_signed16(b1, b2) },
        0xa7 => Instruction::Goto { offset: to_signed16(b1, b2) },
        0xac => Instruction::Ireturn,
        0xb0 => Instruction::Areturn,
        0xb1 => Instruction::Return,
        0xb2 => Instruction::Getstatic { index: to_unsigned16(b1, b2) },
        0xb3 => Instruction::Putstatic { index: to_unsigned16(b1, b2) },
        0xb4 => Instruction::Getfield { index: to_unsigned16(b1, b2) },
        0xb5 => Instruction::Putfield { index: to_unsigned16(b1, b2) },
        0xb6 => Instruction::Invokevirtual { index: to_unsigned16(b1, b2) },
        0xb7 => Instruction::Invokespecial { index: to_unsigned16(b1, b2) },
        0xb8 => Instruction::Invokestatic { index: to_unsigned16(b1, b2) },
        0xbb => Instruction::New { index: to_unsigned16(b1, b2) },
        0xbc => Instruction::Newarray { atype: b1 },
        0xbd => Instruction::Anewarray { index: to_unsigned16(b1, b2) },
        0xbe => Instruction::Arraylength,
        0xbf => Instruction::Athrow,
        _ => Instruction::Nop,
    }
}

/// A decoded opcode is the opcode of the instruction it stands for, so the
/// instruction's width is one more than the opcode's operand width.
pub proof fn lemma_opcode_of_decoded(opcode: u8, b1: u8, b2: u8)
    requires
        spec_operand_width(opcode) is Some,
    ensures
        spec_instruction_of(opcode, b1, b2).spec_opcode() == opcode,
        spec_instruction_of(opcode, b1, b2).spec_width() == 1 + spec_operand_width(opcode).unwrap(),
{
}

} // verus!
