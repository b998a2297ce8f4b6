//! The wire format: the canonical bytes of each instruction.
//!
//! An instruction is its opcode byte, then a variant byte where its family has one, then its
//! operands in declaration order. Multi-byte operands are written least significant byte first.
use vstd::prelude::*;
use crate::bytes::{byte_of, u32_split};
use crate::isa::Instruction;

verus! {

/// Why an instruction has no encoding.
#[derive(Clone, Copy, Debug, PartialEq, Eq, Structural)]
pub enum EncodeError {
    /// No opcode and variant is assigned to this instruction.
    Undefined,
    /// A 24-bit operand holds a value of 2^24 or more.
    OperandTooWide,
}

/// A vector that holds the one byte `b`.
fn one_byte(b: u8) -> (r: Vec<u8>)
    ensures
        r@ == seq![b],
{
    let mut v = Vec::new();
    v.push(b);
    proof {
        assert(v@ =~= seq![b]);
    }
    v
}

/// The canonical bytes of one instruction, or why it has none.
pub open spec fn encoding(i: Instruction) -> Result<Seq<u8>, EncodeError> {
    match i {
        Instruction::Nop => Ok(seq![0x00u8]),
        Instruction::JmpConst24(a) => if a < 0x100_0000 { Ok(seq![0x02u8, 0x00u8, byte_of(a, 0), byte_of(a, 1), byte_of(a, 2)]) } else { Err(EncodeError::OperandTooWide) },
        Instruction::JmpConst32(a) => Ok(seq![0x02u8, 0x01u8, byte_of(a, 0), byte_of(a, 1), byte_of(a, 2), byte_of(a, 3)]),
        Instruction::JmpOffsetA8(a) => Ok(seq![0x02u8, 0x02u8, a]),
        Instruction::JmpOffsetS8(a) => Ok(seq![0x02u8, 0x03u8, a]),
        Instruction::JmpOffsetA16(a) => Ok(seq![0x02u8, 0x04u8, byte_of(a as u32, 0), byte_of(a as u32, 1)]),
        Instruction::JmpOffsetS16(a) => Ok(seq![0x02u8, 0x05u8, byte_of(a as u32, 0), byte_of(a as u32, 1)]),
        Instruction::JmpOffsetA32(a) => Ok(seq![0x02u8, 0x06u8, byte_of(a, 0), byte_of(a, 1), byte_of(a, 2), byte_of(a, 3)]),
        Instruction::JmpOffsetS32(a) => Ok(seq![0x02u8, 0x07u8, byte_of(a, 0), byte_of(a, 1), byte_of(a, 2), byte_of(a, 3)]),
        Instruction::JCConst24(a) => if a < 0x100_0000 { Ok(seq![0x03u8, 0x00u8, byte_of(a, 0), byte_of(a, 1), byte_of(a, 2)]) } else { Err(EncodeError::OperandTooWide) },
        Instruction::JCConst32(a) => Ok(seq![0x03u8, 0x01u8, byte_of(a, 0), byte_of(a, 1), byte_of(a, 2), byte_of(a, 3)]),
        Instruction::JCOffsetA8(a) => Ok(seq![0x03u8, 0x02u8, a]),
        Instruction::JCOffsetS8(a) => Ok(seq![0x03u8, 0x03u8, a]),
        Instruction::JCOffsetA16(a) => Ok(seq![0x03u8, 0x04u8, byte_of(a as u32, 0), byte_of(a as u32, 1)]),
        Instruction::JCOffsetS16(a) => Ok(seq![0x03u8, 0x05u8, byte_of(a as u32, 0), byte_of(a as u32, 1)]),
        Instruction::JCOffsetA32(a) => Ok(seq![0x03u8, 0x06u8, byte_of(a, 0), byte_of(a, 1), byte_of(a, 2), byte_of(a, 3)]),
        Instruction::JCOffsetS32(a) => Ok(seq![0x03u8, 0x07u8, byte_of(a, 0), byte_of(a, 1), byte_of(a, 2), byte_of(a, 3)]),
        Instruction::JNCConst24(a) => if a < 0x100_0000 { Ok(seq![0x03u8, 0x08u8, byte_of(a, 0), byte_of(a, 1), byte_of(a, 2)]) } else { Err(EncodeError::OperandTooWide) },
        Instruction::JNCConst32(a) => Ok(seq![0x03u8, 0x09u8, byte_of(a, 0), byte_of(a, 1), byte_of(a, 2), byte_of(a, 3)]),
        Instruction::JNCOffsetA8(a) => Ok(seq![0x03u8, 0x0au8, a]),
        Instruction::JNCOffsetS8(a) => Ok(seq![0x03u8, 0x0bu8, a]),
        Instruction::JNCOffsetA16(a) => Ok(seq![0x03u8, 0x0cu8, byte_of(a as u32, 0), byte_of(a as u32, 1)]),
        Instruction::JNCOffsetS16(a) => Ok(seq![0x03u8, 0x0du8, byte_of(a as u32, 0), byte_of(a as u32, 1)]),
        Instruction::JNCOffsetA32(a) => Ok(seq![0x03u8, 0x0eu8, byte_of(a, 0), byte_of(a, 1), byte_of(a, 2), byte_of(a, 3)]),
        Instruction::JNCOffsetS32(a) => Ok(seq![0x03u8, 0x0fu8, byte_of(a, 0), byte_of(a, 1), byte_of(a, 2), byte_of(a, 3)]),
        Instruction::JZConst24(a) => if a < 0x100_0000 { Ok(seq![0x03u8, 0x10u8, byte_of(a, 0), byte_of(a, 1), byte_of(a, 2)]) } else { Err(EncodeError::OperandTooWide) },
        Instruction::JZConst32(a) => Ok(seq![0x03u8, 0x11u8, byte_of(a, 0), byte_of(a, 1), byte_of(a, 2), byte_of(a, 3)]),
        Instruction::JZOffsetA8(a) => Ok(seq![0x03u8, 0x12u8, a]),
        Instruction::JZOffsetS8(a) => Ok(seq![0x03u8, 0x13u8, a]),
        Instruction::JZOffsetA16(a) => Ok(seq![0x03u8, 0x14u8, byte_of(a as u32, 0), byte_of(a as u32, 1)]),
        Instruction::JZOffsetS16(a) => Ok(seq![0x03u8, 0x15u8, byte_of(a as u32, 0), byte_of(a as u32, 1)]),
        Instruction::JZOffsetA32(a) => Ok(seq![0x03u8, 0x16u8, byte_of(a, 0), byte_of(a, 1), byte_of(a, 2), byte_of(a, 3)]),
        Instruction::JZOffsetS32(a) => Ok(seq![0x03u8, 0x17u8, byte_of(a, 0), byte_of(a, 1), byte_of(a, 2), byte_of(a, 3)]),
        Instruction::JNZConst24(a) => if a < 0x100_0000 { Ok(seq![0x03u8, 0x18u8, byte_of(a, 0), byte_of(a, 1), byte_of(a, 2)]) } else { Err(EncodeError::OperandTooWide) },
        Instruction::JNZConst32(a) => Ok(seq![0x03u8, 0x19u8, byte_of(a, 0), byte_of(a, 1), byte_of(a, 2), byte_of(a, 3)]),
        Instruction::JNZOffsetA8(a) => Ok(seq![0x03u8, 0x1au8, a]),
        Instruction::JNZOffsetS8(a) => Ok(seq![0x03u8, 0x1bu8, a]),
        Instruction::JNZOffsetA16(a) => Ok(seq![0x03u8, 0x1cu8, byte_of(a as u32, 0), byte_of(a as u32, 1)]),
        Instruction::JNZOffsetS16(a) => Ok(seq![0x03u8, 0x1du8, byte_of(a as u32, 0), byte_of(a as u32, 1)]),
        Instruction::JNZOffsetA32(a) => Ok(seq![0x03u8, 0x1eu8, byte_of(a, 0), byte_of(a, 1), byte_of(a, 2), byte_of(a, 3)]),
        Instruction::JNZOffsetS32(a) => Ok(seq![0x03u8, 0x1fu8, byte_of(a, 0), byte_of(a, 1), byte_of(a, 2), byte_of(a, 3)]),
        Instruction::AddRRR(a, b, c) => Ok(seq![0x04u8, 0x00u8, a, b, c]),
        Instruction::AddZRR(a, b, c) => Ok(seq![0x04u8, 0x01u8, a, b, c]),
        Instruction::IncR1(a) => Ok(seq![0x04u8, 0x02u8, a]),
        Instruction::AddRRZ(a, b, c) => Ok(seq![0x04u8, 0x03u8, a, b, c]),
        Instruction::AddRZZ(a, b, c) => Ok(seq![0x04u8, 0x04u8, a, b, c]),
        Instruction::AddZZZ(a, b, c) => Ok(seq![0x04u8, 0x05u8, a, b, c]),
        Instruction::AddcRRR(a, b, c) => Ok(seq![0x04u8, 0x06u8, a, b, c]),
        Instruction::AddcZRR(a, b, c) => Ok(seq![0x04u8, 0x07u8, a, b, c]),
        Instruction::IncR4(a) => Ok(seq![0x04u8, 0x08u8, a]),
        Instruction::AddcRRZ(a, b, c) => Ok(seq![0x04u8, 0x09u8, a, b, c]),
        Instruction::AddcRZZ(a, b, c) => Ok(seq![0x04u8, 0x0au8, a, b, c]),
        Instruction::AddcZZZ(a, b, c) => Ok(seq![0x04u8, 0x0bu8, a, b, c]),
        Instruction::SubRRR(a, b, c) => Ok(seq![0x04u8, 0x0cu8, a, b, c]),
        Instruction::SubZRR(a, b, c) => Ok(seq![0x04u8, 0x0du8, a, b, c]),
        Instruction::SubRZR(a, b, c) => Ok(seq![0x04u8, 0x0eu8, a, b, c]),
        Instruction::SubRRZ(a, b, c) => Ok(seq![0x04u8, 0x0fu8, a, b, c]),
        Instruction::SubRZZ(a, b, c) => Ok(seq![0x04u8, 0x10u8, a, b, c]),
        Instruction::SubZZZ(a, b, c) => Ok(seq![0x04u8, 0x11u8, a, b, c]),
        Instruction::SubbRRR(a, b, c) => Ok(seq![0x04u8, 0x12u8, a, b, c]),
        Instruction::SubbZRR(a, b, c) => Ok(seq![0x04u8, 0x13u8, a, b, c]),
        Instruction::SubbRZR(a, b, c) => Ok(seq![0x04u8, 0x14u8, a, b, c]),
        Instruction::SubbRRZ(a, b, c) => Ok(seq![0x04u8, 0x15u8, a, b, c]),
        Instruction::SubbRZZ(a, b, c) => Ok(seq![0x04u8, 0x16u8, a, b, c]),
        Instruction::SubbZZZ(a, b, c) => Ok(seq![0x04u8, 0x17u8, a, b, c]),
        Instruction::MulRRR(a, b, c) => Ok(seq![0x04u8, 0x18u8, a, b, c]),
        Instruction::MulZRR(a, b, c) => Ok(seq![0x04u8, 0x19u8, a, b, c]),
        Instruction::MulRRZ(a, b, c) => Ok(seq![0x04u8, 0x1au8, a, b, c]),
        Instruction::MulRZZ(a, b, c) => Ok(seq![0x04u8, 0x1bu8, a, b, c]),
        Instruction::MulZZZ(a, b, c) => Ok(seq![0x04u8, 0x1cu8, a, b, c]),
        Instruction::DivRRR(a, b, c) => Ok(seq![0x04u8, 0x1du8, a, b, c]),
        Instruction::DivZRR(a, b, c) => Ok(seq![0x04u8, 0x1eu8, a, b, c]),
        Instruction::DivRZR(a, b, c) => Ok(seq![0x04u8, 0x1fu8, a, b, c]),
        Instruction::DivRRZ(a, b, c) => Ok(seq![0x04u8, 0x20u8, a, b, c]),
        Instruction::DivRZZ(a, b, c) => Ok(seq![0x04u8, 0x21u8, a, b, c]),
        Instruction::DivZZZ(a, b, c) => Ok(seq![0x04u8, 0x22u8, a, b, c]),
        Instruction::AndRRR(a, b, c) => Ok(seq![0x04u8, 0x23u8, a, b, c]),
        Instruction::AndZRR(a, b, c) => Ok(seq![0x04u8, 0x24u8, a, b, c]),
        Instruction::AndRRZ(a, b, c) => Ok(seq![0x04u8, 0x25u8, a, b, c]),
        Instruction::AndRZZ(a, b, c) => Ok(seq![0x04u8, 0x26u8, a, b, c]),
        Instruction::AndZZZ(a, b, c) => Ok(seq![0x04u8, 0x27u8, a, b, c]),
        Instruction::OrRRR(a, b, c) => Ok(seq![0x04u8, 0x28u8, a, b, c]),
        Instruction::OrZRR(a, b, c) => Ok(seq![0x04u8, 0x29u8, a, b, c]),
        Instruction::OrRRZ(a, b, c) => Ok(seq![0x04u8, 0x2au8, a, b, c]),
        Instruction::OrRZZ(a, b, c) => Ok(seq![0x04u8, 0x2bu8, a, b, c]),
        Instruction::OrZZZ(a, b, c) => Ok(seq![0x04u8, 0x2cu8, a, b, c]),
        Instruction::XorRRR(a, b, c) => Ok(seq![0x04u8, 0x2du8, a, b, c]),
        Instruction::XorZRR(a, b, c) => Ok(seq![0x04u8, 0x2eu8, a, b, c]),
        Instruction::XorRRZ(a, b, c) => Ok(seq![0x04u8, 0x2fu8, a, b, c]),
        Instruction::XorRZZ(a, b, c) => Ok(seq![0x04u8, 0x30u8, a, b, c]),
        Instruction::XorZZZ(a, b, c) => Ok(seq![0x04u8, 0x31u8, a, b, c]),
        Instruction::NotRR(a, b) => Ok(seq![0x04u8, 0x32u8, a, b]),
        Instruction::NotZR(a, b) => Ok(seq![0x04u8, 0x33u8, a, b]),
        Instruction::NotRZ(a, b) => Ok(seq![0x04u8, 0x34u8, a, b]),
        Instruction::NotZZ(a, b) => Ok(seq![0x04u8, 0x35u8, a, b]),
        Instruction::DecR1(a) => Ok(seq![0x04u8, 0x36u8, a]),
        Instruction::DecR4(a) => Ok(seq![0x04u8, 0x37u8, a]),
        Instruction::RemRRR(a, b, c) => Ok(seq![0x04u8, 0x38u8, a, b, c]),
        Instruction::RemZRR(a, b, c) => Ok(seq![0x04u8, 0x39u8, a, b, c]),
        Instruction::RemRZR(a, b, c) => Ok(seq![0x04u8, 0x3au8, a, b, c]),
        Instruction::RemRRZ(a, b, c) => Ok(seq![0x04u8, 0x3bu8, a, b, c]),
        Instruction::RemRZZ(a, b, c) => Ok(seq![0x04u8, 0x3cu8, a, b, c]),
        Instruction::RemZZZ(a, b, c) => Ok(seq![0x04u8, 0x3du8, a, b, c]),
        Instruction::ShlRRR(a, b, c) => Ok(seq![0x04u8, 0x3eu8, a, b, c]),
        Instruction::ShlZRR(a, b, c) => Ok(seq![0x04u8, 0x3fu8, a, b, c]),
        Instruction::ShlRCR(a, b, c) => Ok(seq![0x04u8, 0x40u8, a, b, c]),
        Instruction::ShlZCR(a, b, c) => Ok(seq![0x04u8, 0x41u8, a, b, c]),
        Instruction::ShlRCZ(a, b, c) => Ok(seq![0x04u8, 0x42u8, a, b, c]),
        Instruction::ShlZCZ(a, b, c) => Ok(seq![0x04u8, 0x43u8, a, b, c]),
        Instruction::ShrRRR(a, b, c) => Ok(seq![0x04u8, 0x44u8, a, b, c]),
        Instruction::ShrZRR(a, b, c) => Ok(seq![0x04u8, 0x45u8, a, b, c]),
        Instruction::ShrRCR(a, b, c) => Ok(seq![0x04u8, 0x46u8, a, b, c]),
        Instruction::ShrZCR(a, b, c) => Ok(seq![0x04u8, 0x47u8, a, b, c]),
        Instruction::ShrRCZ(a, b, c) => Ok(seq![0x04u8, 0x48u8, a, b, c]),
        Instruction::ShrZCZ(a, b, c) => Ok(seq![0x04u8, 0x49u8, a, b, c]),
        Instruction::PrintChar_R(a) => Ok(seq![0x06u8, 0x01u8, a]),
        Instruction::PrintChar_C8(a) => Ok(seq![0x06u8, 0x02u8, a]),
        Instruction::Read8_Cptr_R(..) => Err(EncodeError::Undefined),
        Instruction::Read16_Cptr_R(..) => Err(EncodeError::Undefined),
        Instruction::Read32_Cptr_R(..) => Err(EncodeError::Undefined),
        Instruction::Read8_Rptr_R(..) => Err(EncodeError::Undefined),
        Instruction::Read16_Rptr_R(..) => Err(EncodeError::Undefined),
        Instruction::Read32_Rptr_R(..) => Err(EncodeError::Undefined),
        Instruction::Write8_R_Cptr(..) => Err(EncodeError::Undefined),
        Instruction::Write16_R_Cptr(..) => Err(EncodeError::Undefined),
        Instruction::Write32_R_Cptr(..) => Err(EncodeError::Undefined),
        Instruction::Write8_R_Rptr(..) => Err(EncodeError::Undefined),
        Instruction::Write16_R_Rptr(..) => Err(EncodeError::Undefined),
        Instruction::Write32_R_Rptr(..) => Err(EncodeError::Undefined),
        Instruction::Write8_C8_Cptr(..) => Err(EncodeError::Undefined),
        Instruction::Write8_C8_Rptr(..) => Err(EncodeError::Undefined),
        Instruction::Write16_C16_Cptr(..) => Err(EncodeError::Undefined),
        Instruction::Write16_C16_Rptr(..) => Err(EncodeError::Undefined),
        Instruction::Write32_C32_Cptr(..) => Err(EncodeError::Undefined),
        Instruction::Write32_C32_Rptr(..) => Err(EncodeError::Undefined),
        Instruction::MovRR(a, b) => Ok(seq![0x10u8, a, b]),
        Instruction::MovR4R4(..) => Err(EncodeError::Undefined),
        Instruction::Mov4R4R(..) => Err(EncodeError::Undefined),
        Instruction::Mov44(a) => Ok(seq![0x13u8, a]),
        Instruction::ConstRegU8(a, b) => Ok(seq![0x14u8, a, b]),
        Instruction::ConstRegU16(a, b) => Ok(seq![0x15u8, a, byte_of(b as u32, 0), byte_of(b as u32, 1)]),
        Instruction::ConstRegU32(a, b) => Ok(seq![0x16u8, a, byte_of(b, 0), byte_of(b, 1), byte_of(b, 2), byte_of(b, 3)]),
        Instruction::SetZF => Ok(seq![0x20u8]),
        Instruction::ClrZF => Ok(seq![0x21u8]),
        Instruction::SetCF => Ok(seq![0x22u8]),
        Instruction::ClrCF => Ok(seq![0x23u8]),
        Instruction::IntEnable => Ok(seq![0x24u8]),
        Instruction::IntDisable => Ok(seq![0x25u8]),
        Instruction::ExplicitHaltAndExit => Ok(seq![0xfeu8]),
        Instruction::DebugPrintReg(a) => Ok(seq![0xffu8, 0x01u8, a]),
        Instruction::PrintCharAcc => Ok(seq![0x06u8, 0x00u8]),
        Instruction::DebugPrintAcc => Ok(seq![0xffu8, 0x00u8]),
        Instruction::DebugPrintAll => Ok(seq![0xffu8, 0x02u8]),
        Instruction::MovR1ToR0 => Ok(seq![0x2cu8]),
        Instruction::MovR0ToR1 => Ok(seq![0x2du8]),
        Instruction::MovR2ToR0 => Ok(seq![0x2eu8]),
        Instruction::MovR2ToR1 => Ok(seq![0x2fu8]),
        Instruction::AddR0R1 => Ok(seq![0x30u8]),
        Instruction::AddcR0R1 => Ok(seq![0x31u8]),
        Instruction::SubR0R1 => Ok(seq![0x32u8]),
        Instruction::SubbR0R1 => Ok(seq![0x33u8]),
        Instruction::MulR0R1 => Ok(seq![0x34u8]),
        Instruction::DivR0R1 => Ok(seq![0x35u8]),
        Instruction::AndR0R1 => Ok(seq![0x36u8]),
        Instruction::OrR0R1 => Ok(seq![0x37u8]),
        Instruction::XorR0R1 => Ok(seq![0x38u8]),
        Instruction::NotR0 => Ok(seq![0x39u8]),
        Instruction::RemR0R1 => Ok(seq![0x3au8]),
    }
}

/// Encodes one instruction into its canonical bytes.
pub fn encode_instruction(i: &Instruction) -> (r: Result<Vec<u8>, EncodeError>)
    ensures
        match r {
            Ok(v) => encoding(*i) == Ok::<Seq<u8>, EncodeError>(v@),
            Err(e) => encoding(*i) == Err::<Seq<u8>, EncodeError>(e),
        },
{
    match *i {
        Instruction::Nop => Ok(one_byte(0x00u8)),
        Instruction::JmpConst24(a) => {
            if a >= 0x100_0000 {
                return Err(EncodeError::OperandTooWide);
            }
            let (a0, a1, a2, _) = u32_split(a);
            Ok(vec![0x02u8, 0x00u8, a0, a1, a2])
        },
        Instruction::JmpConst32(a) => {
            let (a0, a1, a2, a3) = u32_split(a);
            Ok(vec![0x02u8, 0x01u8, a0, a1, a2, a3])
        },
        Instruction::JmpOffsetA8(a) => Ok(vec![0x02u8, 0x02u8, a]),
        Instruction::JmpOffsetS8(a) => Ok(vec![0x02u8, 0x03u8, a]),
        Instruction::JmpOffsetA16(a) => {
            let (a0, a1, _, _) = u32_split(a as u32);
            Ok(vec![0x02u8, 0x04u8, a0, a1])
        },
        Instruction::JmpOffsetS16(a) => {
            let (a0, a1, _, _) = u32_split(a as u32);
            Ok(vec![0x02u8, 0x05u8, a0, a1])
        },
        Instruction::JmpOffsetA32(a) => {
            let (a0, a1, a2, a3) = u32_split(a);
            Ok(vec![0x02u8, 0x06u8, a0, a1, a2, a3])
        },
        Instruction::JmpOffsetS32(a) => {
            let (a0, a1, a2, a3) = u32_split(a);
            Ok(vec![0x02u8, 0x07u8, a0, a1, a2, a3])
        },
        Instruction::JCConst24(a) => {
            if a >= 0x100_0000 {
                return Err(EncodeError::OperandTooWide);
            }
            let (a0, a1, a2, _) = u32_split(a);
            Ok(vec![0x03u8, 0x00u8, a0, a1, a2])
        },
        Instruction::JCConst32(a) => {
            let (a0, a1, a2, a3) = u32_split(a);
            Ok(vec![0x03u8, 0x01u8, a0, a1, a2, a3])
        },
        Instruction::JCOffsetA8(a) => Ok(vec![0x03u8, 0x02u8, a]),
        Instruction::JCOffsetS8(a) => Ok(vec![0x03u8, 0x03u8, a]),
        Instruction::JCOffsetA16(a) => {
            let (a0, a1, _, _) = u32_split(a as u32);
            Ok(vec![0x03u8, 0x04u8, a0, a1])
        },
        Instruction::JCOffsetS16(a) => {
            let (a0, a1, _, _) = u32_split(a as u32);
            Ok(vec![0x03u8, 0x05u8, a0, a1])
        },
        Instruction::JCOffsetA32(a) => {
            let (a0, a1, a2, a3) = u32_split(a);
            Ok(vec![0x03u8, 0x06u8, a0, a1, a2, a3])
        },
        Instruction::JCOffsetS32(a) => {
            let (a0, a1, a2, a3) = u32_split(a);
            Ok(vec![0x03u8, 0x07u8, a0, a1, a2, a3])
        },
        Instruction::JNCConst24(a) => {
            if a >= 0x100_0000 {
                return Err(EncodeError::OperandTooWide);
            }
            let (a0, a1, a2, _) = u32_split(a);
            Ok(vec![0x03u8, 0x08u8, a0, a1, a2])
        },
        Instruction::JNCConst32(a) => {
            let (a0, a1, a2, a3) = u32_split(a);
            Ok(vec![0x03u8, 0x09u8, a0, a1, a2, a3])
        },
        Instruction::JNCOffsetA8(a) => Ok(vec![0x03u8, 0x0au8, a]),
        Instruction::JNCOffsetS8(a) => Ok(vec![0x03u8, 0x0bu8, a]),
        Instruction::JNCOffsetA16(a) => {
            let (a0, a1, _, _) = u32_split(a as u32);
            Ok(vec![0x03u8, 0x0cu8, a0, a1])
        },
        Instruction::JNCOffsetS16(a) => {
            let (a0, a1, _, _) = u32_split(a as u32);
            Ok(vec![0x03u8, 0x0du8, a0, a1])
        },
        Instruction::JNCOffsetA32(a) => {
            let (a0, a1, a2, a3) = u32_split(a);
            Ok(vec![0x03u8, 0x0eu8, a0, a1, a2, a3])
        },
        Instruction::JNCOffsetS32(a) => {
            let (a0, a1, a2, a3) = u32_split(a);
            Ok(vec![0x03u8, 0x0fu8, a0, a1, a2, a3])
        },
        Instruction::JZConst24(a) => {
            if a >= 0x100_0000 {
                return Err(EncodeError::OperandTooWide);
            }
            let (a0, a1, a2, _) = u32_split(a);
            Ok(vec![0x03u8, 0x10u8, a0, a1, a2])
        },
        Instruction::JZConst32(a) => {
            let (a0, a1, a2, a3) = u32_split(a);
            Ok(vec![0x03u8, 0x11u8, a0, a1, a2, a3])
        },
        Instruction::JZOffsetA8(a) => Ok(vec![0x03u8, 0x12u8, a]),
        Instruction::JZOffsetS8(a) => Ok(vec![0x03u8, 0x13u8, a]),
        Instruction::JZOffsetA16(a) => {
            let (a0, a1, _, _) = u32_split(a as u32);
            Ok(vec![0x03u8, 0x14u8, a0, a1])
        },
        Instruction::JZOffsetS16(a) => {
            let (a0, a1, _, _) = u32_split(a as u32);
            Ok(vec![0x03u8, 0x15u8, a0, a1])
        },
        Instruction::JZOffsetA32(a) => {
            let (a0, a1, a2, a3) = u32_split(a);
            Ok(vec![0x03u8, 0x16u8, a0, a1, a2, a3])
        },
        Instruction::JZOffsetS32(a) => {
            let (a0, a1, a2, a3) = u32_split(a);
            Ok(vec![0x03u8, 0x17u8, a0, a1, a2, a3])
        },
        Instruction::JNZConst24(a) => {
            if a >= 0x100_0000 {
                return Err(EncodeError::OperandTooWide);
            }
            let (a0, a1, a2, _) = u32_split(a);
            Ok(vec![0x03u8, 0x18u8, a0, a1, a2])
        },
        Instruction::JNZConst32(a) => {
            let (a0, a1, a2, a3) = u32_split(a);
            Ok(vec![0x03u8, 0x19u8, a0, a1, a2, a3])
        },
        Instruction::JNZOffsetA8(a) => Ok(vec![0x03u8, 0x1au8, a]),
        Instruction::JNZOffsetS8(a) => Ok(vec![0x03u8, 0x1bu8, a]),
        Instruction::JNZOffsetA16(a) => {
            let (a0, a1, _, _) = u32_split(a as u32);
            Ok(vec![0x03u8, 0x1cu8, a0, a1])
        },
        Instruction::JNZOffsetS16(a) => {
            let (a0, a1, _, _) = u32_split(a as u32);
            Ok(vec![0x03u8, 0x1du8, a0, a1])
        },
        Instruction::JNZOffsetA32(a) => {
            let (a0, a1, a2, a3) = u32_split(a);
            Ok(vec![0x03u8, 0x1eu8, a0, a1, a2, a3])
        },
        Instruction::JNZOffsetS32(a) => {
            let (a0, a1, a2, a3) = u32_split(a);
            Ok(vec![0x03u8, 0x1fu8, a0, a1, a2, a3])
        },
        Instruction::AddRRR(a, b, c) => Ok(vec![0x04u8, 0x00u8, a, b, c]),
        Instruction::AddZRR(a, b, c) => Ok(vec![0x04u8, 0x01u8, a, b, c]),
        Instruction::IncR1(a) => Ok(vec![0x04u8, 0x02u8, a]),
        Instruction::AddRRZ(a, b, c) => Ok(vec![0x04u8, 0x03u8, a, b, c]),
        Instruction::AddRZZ(a, b, c) => Ok(vec![0x04u8, 0x04u8, a, b, c]),
        Instruction::AddZZZ(a, b, c) => Ok(vec![0x04u8, 0x05u8, a, b, c]),
        Instruction::AddcRRR(a, b, c) => Ok(vec![0x04u8, 0x06u8, a, b, c]),
        Instruction::AddcZRR(a, b, c) => Ok(vec![0x04u8, 0x07u8, a, b, c]),
        Instruction::IncR4(a) => Ok(vec![0x04u8, 0x08u8, a]),
        Instruction::AddcRRZ(a, b, c) => Ok(vec![0x04u8, 0x09u8, a, b, c]),
        Instruction::AddcRZZ(a, b, c) => Ok(vec![0x04u8, 0x0au8, a, b, c]),
        Instruction::AddcZZZ(a, b, c) => Ok(vec![0x04u8, 0x0bu8, a, b, c]),
        Instruction::SubRRR(a, b, c) => Ok(vec![0x04u8, 0x0cu8, a, b, c]),
        Instruction::SubZRR(a, b, c) => Ok(vec![0x04u8, 0x0du8, a, b, c]),
        Instruction::SubRZR(a, b, c) => Ok(vec![0x04u8, 0x0eu8, a, b, c]),
        Instruction::SubRRZ(a, b, c) => Ok(vec![0x04u8, 0x0fu8, a, b, c]),
        Instruction::SubRZZ(a, b, c) => Ok(vec![0x04u8, 0x10u8, a, b, c]),
        Instruction::SubZZZ(a, b, c) => Ok(vec![0x04u8, 0x11u8, a, b, c]),
        Instruction::SubbRRR(a, b, c) => Ok(vec![0x04u8, 0x12u8, a, b, c]),
        Instruction::SubbZRR(a, b, c) => Ok(vec![0x04u8, 0x13u8, a, b, c]),
        Instruction::SubbRZR(a, b, c) => Ok(vec![0x04u8, 0x14u8, a, b, c]),
        Instruction::SubbRRZ(a, b, c) => Ok(vec![0x04u8, 0x15u8, a, b, c]),
        Instruction::SubbRZZ(a, b, c) => Ok(vec![0x04u8, 0x16u8, a, b, c]),
        Instruction::SubbZZZ(a, b, c) => Ok(vec![0x04u8, 0x17u8, a, b, c]),
        Instruction::MulRRR(a, b, c) => Ok(vec![0x04u8, 0x18u8, a, b, c]),
        Instruction::MulZRR(a, b, c) => Ok(vec![0x04u8, 0x19u8, a, b, c]),
        Instruction::MulRRZ(a, b, c) => Ok(vec![0x04u8, 0x1au8, a, b, c]),
        Instruction::MulRZZ(a, b, c) => Ok(vec![0x04u8, 0x1bu8, a, b, c]),
        Instruction::MulZZZ(a, b, c) => Ok(vec![0x04u8, 0x1cu8, a, b, c]),
        Instruction::DivRRR(a, b, c) => Ok(vec![0x04u8, 0x1du8, a, b, c]),
        Instruction::DivZRR(a, b, c) => Ok(vec![0x04u8, 0x1eu8, a, b, c]),
        Instruction::DivRZR(a, b, c) => Ok(vec![0x04u8, 0x1fu8, a, b, c]),
        Instruction::DivRRZ(a, b, c) => Ok(vec![0x04u8, 0x20u8, a, b, c]),
        Instruction::DivRZZ(a, b, c) => Ok(vec![0x04u8, 0x21u8, a, b, c]),
        Instruction::DivZZZ(a, b, c) => Ok(vec![0x04u8, 0x22u8, a, b, c]),
        Instruction::AndRRR(a, b, c) => Ok(vec![0x04u8, 0x23u8, a, b, c]),
        Instruction::AndZRR(a, b, c) => Ok(vec![0x04u8, 0x24u8, a, b, c]),
        Instruction::AndRRZ(a, b, c) => Ok(vec![0x04u8, 0x25u8, a, b, c]),
        Instruction::AndRZZ(a, b, c) => Ok(vec![0x04u8, 0x26u8, a, b, c]),
        Instruction::AndZZZ(a, b, c) => Ok(vec![0x04u8, 0x27u8, a, b, c]),
        Instruction::OrRRR(a, b, c) => Ok(vec![0x04u8, 0x28u8, a, b, c]),
        Instruction::OrZRR(a, b, c) => Ok(vec![0x04u8, 0x29u8, a, b, c]),
        Instruction::OrRRZ(a, b, c) => Ok(vec![0x04u8, 0x2au8, a, b, c]),
        Instruction::OrRZZ(a, b, c) => Ok(vec![0x04u8, 0x2bu8, a, b, c]),
        Instruction::OrZZZ(a, b, c) => Ok(vec![0x04u8, 0x2cu8, a, b, c]),
        Instruction::XorRRR(a, b, c) => Ok(vec![0x04u8, 0x2du8, a, b, c]),
        Instruction::XorZRR(a, b, c) => Ok(vec![0x04u8, 0x2eu8, a, b, c]),
        Instruction::XorRRZ(a, b, c) => Ok(vec![0x04u8, 0x2fu8, a, b, c]),
        Instruction::XorRZZ(a, b, c) => Ok(vec![0x04u8, 0x30u8, a, b, c]),
        Instruction::XorZZZ(a, b, c) => Ok(vec![0x04u8, 0x31u8, a, b, c]),
        Instruction::NotRR(a, b) => Ok(vec![0x04u8, 0x32u8, a, b]),
        Instruction::NotZR(a, b) => Ok(vec![0x04u8, 0x33u8, a, b]),
        Instruction::NotRZ(a, b) => Ok(vec![0x04u8, 0x34u8, a, b]),
        Instruction::NotZZ(a, b) => Ok(vec![0x04u8, 0x35u8, a, b]),
        Instruction::DecR1(a) => Ok(vec![0x04u8, 0x36u8, a]),
        Instruction::DecR4(a) => Ok(vec![0x04u8, 0x37u8, a]),
        Instruction::RemRRR(a, b, c) => Ok(vec![0x04u8, 0x38u8, a, b, c]),
        Instruction::RemZRR(a, b, c) => Ok(vec![0x04u8, 0x39u8, a, b, c]),
        Instruction::RemRZR(a, b, c) => Ok(vec![0x04u8, 0x3au8, a, b, c]),
        Instruction::RemRRZ(a, b, c) => Ok(vec![0x04u8, 0x3bu8, a, b, c]),
        Instruction::RemRZZ(a, b, c) => Ok(vec![0x04u8, 0x3cu8, a, b, c]),
        Instruction::RemZZZ(a, b, c) => Ok(vec![0x04u8, 0x3du8, a, b, c]),
        Instruction::ShlRRR(a, b, c) => Ok(vec![0x04u8, 0x3eu8, a, b, c]),
        Instruction::ShlZRR(a, b, c) => Ok(vec![0x04u8, 0x3fu8, a, b, c]),
        Instruction::ShlRCR(a, b, c) => Ok(vec![0x04u8, 0x40u8, a, b, c]),
        Instruction::ShlZCR(a, b, c) => Ok(vec![0x04u8, 0x41u8, a, b, c]),
        Instruction::ShlRCZ(a, b, c) => Ok(vec![0x04u8, 0x42u8, a, b, c]),
        Instruction::ShlZCZ(a, b, c) => Ok(vec![0x04u8, 0x43u8, a, b, c]),
        Instruction::ShrRRR(a, b, c) => Ok(vec![0x04u8, 0x44u8, a, b, c]),
        Instruction::ShrZRR(a, b, c) => Ok(vec![0x04u8, 0x45u8, a, b, c]),
        Instruction::ShrRCR(a, b, c) => Ok(vec![0x04u8, 0x46u8, a, b, c]),
        Instruction::ShrZCR(a, b, c) => Ok(vec![0x04u8, 0x47u8, a, b, c]),
        Instruction::ShrRCZ(a, b, c) => Ok(vec![0x04u8, 0x48u8, a, b, c]),
        Instruction::ShrZCZ(a, b, c) => Ok(vec![0x04u8, 0x49u8, a, b, c]),
        Instruction::PrintChar_R(a) => Ok(vec![0x06u8, 0x01u8, a]),
        Instruction::PrintChar_C8(a) => Ok(vec![0x06u8, 0x02u8, a]),
        Instruction::Read8_Cptr_R(..) => Err(EncodeError::Undefined),
        Instruction::Read16_Cptr_R(..) => Err(EncodeError::Undefined),
        Instruction::Read32_Cptr_R(..) => Err(EncodeError::Undefined),
        Instruction::Read8_Rptr_R(..) => Err(EncodeError::Undefined),
        Instruction::Read16_Rptr_R(..) => Err(EncodeError::Undefined),
        Instruction::Read32_Rptr_R(..) => Err(EncodeError::Undefined),
        Instruction::Write8_R_Cptr(..) => Err(EncodeError::Undefined),
        Instruction::Write16_R_Cptr(..) => Err(EncodeError::Undefined),
        Instruction::Write32_R_Cptr(..) => Err(EncodeError::Undefined),
        Instruction::Write8_R_Rptr(..) => Err(EncodeError::Undefined),
        Instruction::Write16_R_Rptr(..) => Err(EncodeError::Undefined),
        Instruction::Write32_R_Rptr(..) => Err(EncodeError::Undefined),
        Instruction::Write8_C8_Cptr(..) => Err(EncodeError::Undefined),
        Instruction::Write8_C8_Rptr(..) => Err(EncodeError::Undefined),
        Instruction::Write16_C16_Cptr(..) => Err(EncodeError::Undefined),
        Instruction::Write16_C16_Rptr(..) => Err(EncodeError::Undefined),
        Instruction::Write32_C32_Cptr(..) => Err(EncodeError::Undefined),
        Instruction::Write32_C32_Rptr(..) => Err(EncodeError::Undefined),
        Instruction::MovRR(a, b) => Ok(vec![0x10u8, a, b]),
        Instruction::MovR4R4(..) => Err(EncodeError::Undefined),
        Instruction::Mov4R4R(..) => Err(EncodeError::Undefined),
        Instruction::Mov44(a) => Ok(vec![0x13u8, a]),
        Instruction::ConstRegU8(a, b) => Ok(vec![0x14u8, a, b]),
        Instruction::ConstRegU16(a, b) => {
            let (b0, b1, _, _) = u32_split(b as u32);
            Ok(vec![0x15u8, a, b0, b1])
        },
        Instruction::ConstRegU32(a, b) => {
            let (b0, b1, b2, b3) = u32_split(b);
            Ok(vec![0x16u8, a, b0, b1, b2, b3])
        },
        Instruction::SetZF => Ok(one_byte(0x20u8)),
        Instruction::ClrZF => Ok(one_byte(0x21u8)),
        Instruction::SetCF => Ok(one_byte(0x22u8)),
        Instruction::ClrCF => Ok(one_byte(0x23u8)),
        Instruction::IntEnable => Ok(one_byte(0x24u8)),
        Instruction::IntDisable => Ok(one_byte(0x25u8)),
        Instruction::ExplicitHaltAndExit => Ok(one_byte(0xfeu8)),
        Instruction::DebugPrintReg(a) => Ok(vec![0xffu8, 0x01u8, a]),
        Instruction::PrintCharAcc => Ok(vec![0x06u8, 0x00u8]),
        Instruction::DebugPrintAcc => Ok(vec![0xffu8, 0x00u8]),
        Instruction::DebugPrintAll => Ok(vec![0xffu8, 0x02u8]),
        Instruction::MovR1ToR0 => Ok(one_byte(0x2cu8)),
        Instruction::MovR0ToR1 => Ok(one_byte(0x2du8)),
        Instruction::MovR2ToR0 => Ok(one_byte(0x2eu8)),
        Instruction::MovR2ToR1 => Ok(one_byte(0x2fu8)),
        Instruction::AddR0R1 => Ok(one_byte(0x30u8)),
        Instruction::AddcR0R1 => Ok(one_byte(0x31u8)),
        Instruction::SubR0R1 => Ok(one_byte(0x32u8)),
        Instruction::SubbR0R1 => Ok(one_byte(0x33u8)),
        Instruction::MulR0R1 => Ok(one_byte(0x34u8)),
        Instruction::DivR0R1 => Ok(one_byte(0x35u8)),
        Instruction::AndR0R1 => Ok(one_byte(0x36u8)),
        Instruction::OrR0R1 => Ok(one_byte(0x37u8)),
        Instruction::XorR0R1 => Ok(one_byte(0x38u8)),
        Instruction::NotR0 => Ok(one_byte(0x39u8)),
        Instruction::RemR0R1 => Ok(one_byte(0x3au8)),
    }
}

} // verus!
