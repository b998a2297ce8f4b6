//! Reading instructions back out of a byte stream.
use vstd::prelude::*;
use crate::bytes::{word_of, u32_join, lemma_join_split, lemma_le16, lemma_le24};
use crate::encode::encoding;
use crate::isa::Instruction;

verus! {

/// Why no instruction could be read.
#[derive(Clone, Copy, Debug, PartialEq, Eq, Structural)]
pub enum DecodeError {
    /// The opcode byte names no instruction family.
    InvalidOpcode,
    /// The family is known but its variant byte names no member.
    InvalidVariant,
    /// The instruction runs past the end of memory.
    OutOfBounds,
}

/// Whether instructions of this opcode carry a variant byte after it.
pub open spec fn has_variant(op: u8) -> bool {
    op == 0x02u8 || op == 0x03u8 || op == 0x04u8 || op == 0x06u8 || op == 0xffu8
}

/// Whether `op` names an instruction family.
pub open spec fn known_opcode(op: u8) -> bool {
    has_variant(op) || operand_len(op, 0) is Some
}

/// The byte at `m[k]`, or zero past the end.
pub open spec fn byte_at(m: Seq<u8>, k: int) -> u8 {
    if 0 <= k < m.len() {
        m[k]
    } else {
        0
    }
}

/// The instruction whose operand bytes start at `m[p]`.
pub open spec fn operands_at(op: u8, v: u8, m: Seq<u8>, p: int) -> Instruction {
    instruction_at(op, v, byte_at(m, p), byte_at(m, p + 1), byte_at(m, p + 2), byte_at(m, p + 3),
        byte_at(m, p + 4))
}

/// The instruction that starts at `m[at]`, with its length in bytes.
pub open spec fn decoding(m: Seq<u8>, at: int) -> Result<(Instruction, nat), DecodeError> {
    if !(0 <= at < m.len()) {
        Err(DecodeError::OutOfBounds)
    } else if !known_opcode(m[at]) {
        Err(DecodeError::InvalidOpcode)
    } else if has_variant(m[at]) {
        if at + 1 >= m.len() {
            Err(DecodeError::OutOfBounds)
        } else {
            match operand_len(m[at], m[at + 1]) {
                None => Err(DecodeError::InvalidVariant),
                Some(n) => if at + 2 + n <= m.len() {
                    Ok((operands_at(m[at], m[at + 1], m, at + 2), 2 + n))
                } else {
                    Err(DecodeError::OutOfBounds)
                },
            }
        }
    } else {
        let n = operand_len(m[at], 0)->0;
        if at + 1 + n <= m.len() {
            Ok((operands_at(m[at], 0, m, at + 1), 1 + n))
        } else {
            Err(DecodeError::OutOfBounds)
        }
    }
}

fn byte_at_exec(m: &Vec<u8>, p: usize, j: usize) -> (r: u8)
    ensures
        r == byte_at(m@, p + j),
{
    if p < m.len() && j < m.len() - p {
        m[p + j]
    } else {
        0
    }
}

fn build_at(op: u8, v: u8, m: &Vec<u8>, p: usize) -> (r: Instruction)
    ensures
        r == operands_at(op, v, m@, p as int),
{
    let b0 = byte_at_exec(m, p, 0);
    let b1 = byte_at_exec(m, p, 1);
    let b2 = byte_at_exec(m, p, 2);
    let b3 = byte_at_exec(m, p, 3);
    let b4 = byte_at_exec(m, p, 4);
    build_instruction(op, v, b0, b1, b2, b3, b4)
}

/// Reads the instruction that starts at `m[at]`, with its length in bytes.
pub fn decode(m: &Vec<u8>, at: usize) -> (r: Result<(Instruction, usize), DecodeError>)
    ensures
        match r {
            Ok((i, n)) => decoding(m@, at as int) == Ok::<(Instruction, nat), DecodeError>((i, n as nat)),
            Err(e) => decoding(m@, at as int) == Err::<(Instruction, nat), DecodeError>(e),
        },
{
    if at >= m.len() {
        return Err(DecodeError::OutOfBounds);
    }
    let op = m[at];
    if has_variant_exec(op) {
        if at + 1 >= m.len() {
            return Err(DecodeError::OutOfBounds);
        }
        let v = m[at + 1];
        match operand_len_exec(op, v) {
            None => Err(DecodeError::InvalidVariant),
            Some(n) => if n <= m.len() - at - 2 {
                Ok((build_at(op, v, m, at + 2), 2 + n))
            } else {
                Err(DecodeError::OutOfBounds)
            },
        }
    } else {
        match operand_len_exec(op, 0) {
            None => Err(DecodeError::InvalidOpcode),
            Some(n) => if n <= m.len() - at - 1 {
                Ok((build_at(op, 0, m, at + 1), 1 + n))
            } else {
                Err(DecodeError::OutOfBounds)
            },
        }
    }
}

fn has_variant_exec(op: u8) -> (r: bool)
    ensures
        r == has_variant(op),
{
    op == 0x02 || op == 0x03 || op == 0x04 || op == 0x06 || op == 0xff
}

fn operand_len_exec(op: u8, v: u8) -> (r: Option<usize>)
    ensures
        match r {
            Some(n) => operand_len(op, v) == Some(n as nat) && n <= 5,
            None => operand_len(op, v) is None,
        },
{
    match op {
        0x00u8 => Some(0),
        0x02u8 => match v {
            0x00u8 => Some(3),
            0x01u8 => Some(4),
            0x02u8 => Some(1),
            0x03u8 => Some(1),
            0x04u8 => Some(2),
            0x05u8 => Some(2),
            0x06u8 => Some(4),
            0x07u8 => Some(4),
            _ => None,
        },
        0x03u8 => match v {
            0x00u8 => Some(3),
            0x01u8 => Some(4),
            0x02u8 => Some(1),
            0x03u8 => Some(1),
            0x04u8 => Some(2),
            0x05u8 => Some(2),
            0x06u8 => Some(4),
            0x07u8 => Some(4),
            0x08u8 => Some(3),
            0x09u8 => Some(4),
            0x0au8 => Some(1),
            0x0bu8 => Some(1),
            0x0cu8 => Some(2),
            0x0du8 => Some(2),
            0x0eu8 => Some(4),
            0x0fu8 => Some(4),
            0x10u8 => Some(3),
            0x11u8 => Some(4),
            0x12u8 => Some(1),
            0x13u8 => Some(1),
            0x14u8 => Some(2),
            0x15u8 => Some(2),
            0x16u8 => Some(4),
            0x17u8 => Some(4),
            0x18u8 => Some(3),
            0x19u8 => Some(4),
            0x1au8 => Some(1),
            0x1bu8 => Some(1),
            0x1cu8 => Some(2),
            0x1du8 => Some(2),
            0x1eu8 => Some(4),
            0x1fu8 => Some(4),
            _ => None,
        },
        0x04u8 => match v {
            0x00u8 => Some(3),
            0x01u8 => Some(3),
            0x02u8 => Some(1),
            0x03u8 => Some(3),
            0x04u8 => Some(3),
            0x05u8 => Some(3),
            0x06u8 => Some(3),
            0x07u8 => Some(3),
            0x08u8 => Some(1),
            0x09u8 => Some(3),
            0x0au8 => Some(3),
            0x0bu8 => Some(3),
            0x0cu8 => Some(3),
            0x0du8 => Some(3),
            0x0eu8 => Some(3),
            0x0fu8 => Some(3),
            0x10u8 => Some(3),
            0x11u8 => Some(3),
            0x12u8 => Some(3),
            0x13u8 => Some(3),
            0x14u8 => Some(3),
            0x15u8 => Some(3),
            0x16u8 => Some(3),
            0x17u8 => Some(3),
            0x18u8 => Some(3),
            0x19u8 => Some(3),
            0x1au8 => Some(3),
            0x1bu8 => Some(3),
            0x1cu8 => Some(3),
            0x1du8 => Some(3),
            0x1eu8 => Some(3),
            0x1fu8 => Some(3),
            0x20u8 => Some(3),
            0x21u8 => Some(3),
            0x22u8 => Some(3),
            0x23u8 => Some(3),
            0x24u8 => Some(3),
            0x25u8 => Some(3),
            0x26u8 => Some(3),
            0x27u8 => Some(3),
            0x28u8 => Some(3),
            0x29u8 => Some(3),
            0x2au8 => Some(3),
            0x2bu8 => Some(3),
            0x2cu8 => Some(3),
            0x2du8 => Some(3),
            0x2eu8 => Some(3),
            0x2fu8 => Some(3),
            0x30u8 => Some(3),
            0x31u8 => Some(3),
            0x32u8 => Some(2),
            0x33u8 => Some(2),
            0x34u8 => Some(2),
            0x35u8 => Some(2),
            0x36u8 => Some(1),
            0x37u8 => Some(1),
            0x38u8 => Some(3),
            0x39u8 => Some(3),
            0x3au8 => Some(3),
            0x3bu8 => Some(3),
            0x3cu8 => Some(3),
            0x3du8 => Some(3),
            0x3eu8 => Some(3),
            0x3fu8 => Some(3),
            0x40u8 => Some(3),
            0x41u8 => Some(3),
            0x42u8 => Some(3),
            0x43u8 => Some(3),
            0x44u8 => Some(3),
            0x45u8 => Some(3),
            0x46u8 => Some(3),
            0x47u8 => Some(3),
            0x48u8 => Some(3),
            0x49u8 => Some(3),
            _ => None,
        },
        0x06u8 => match v {
            0x01u8 => Some(1),
            0x02u8 => Some(1),
            0x00u8 => Some(0),
            _ => None,
        },
        0x10u8 => Some(2),
        0x13u8 => Some(1),
        0x14u8 => Some(2),
        0x15u8 => Some(3),
        0x16u8 => Some(5),
        0x20u8 => Some(0),
        0x21u8 => Some(0),
        0x22u8 => Some(0),
        0x23u8 => Some(0),
        0x24u8 => Some(0),
        0x25u8 => Some(0),
        0x2cu8 => Some(0),
        0x2du8 => Some(0),
        0x2eu8 => Some(0),
        0x2fu8 => Some(0),
        0x30u8 => Some(0),
        0x31u8 => Some(0),
        0x32u8 => Some(0),
        0x33u8 => Some(0),
        0x34u8 => Some(0),
        0x35u8 => Some(0),
        0x36u8 => Some(0),
        0x37u8 => Some(0),
        0x38u8 => Some(0),
        0x39u8 => Some(0),
        0x3au8 => Some(0),
        0xfeu8 => Some(0),
        0xffu8 => match v {
            0x01u8 => Some(1),
            0x00u8 => Some(0),
            0x02u8 => Some(0),
            _ => None,
        },
        _ => None,
    }
}


/// The number of operand bytes after the opcode (and variant) byte, or `None` where
/// the opcode (or, for a family with variants, the variant) is not defined.
pub open spec fn operand_len(op: u8, v: u8) -> Option<nat> {
    match op {
        0x00u8 => Some(0),
        0x02u8 => match v {
            0x00u8 => Some(3),
            0x01u8 => Some(4),
            0x02u8 => Some(1),
            0x03u8 => Some(1),
            0x04u8 => Some(2),
            0x05u8 => Some(2),
            0x06u8 => Some(4),
            0x07u8 => Some(4),
            _ => None,
        },
        0x03u8 => match v {
            0x00u8 => Some(3),
            0x01u8 => Some(4),
            0x02u8 => Some(1),
            0x03u8 => Some(1),
            0x04u8 => Some(2),
            0x05u8 => Some(2),
            0x06u8 => Some(4),
            0x07u8 => Some(4),
            0x08u8 => Some(3),
            0x09u8 => Some(4),
            0x0au8 => Some(1),
            0x0bu8 => Some(1),
            0x0cu8 => Some(2),
            0x0du8 => Some(2),
            0x0eu8 => Some(4),
            0x0fu8 => Some(4),
            0x10u8 => Some(3),
            0x11u8 => Some(4),
            0x12u8 => Some(1),
            0x13u8 => Some(1),
            0x14u8 => Some(2),
            0x15u8 => Some(2),
            0x16u8 => Some(4),
            0x17u8 => Some(4),
            0x18u8 => Some(3),
            0x19u8 => Some(4),
            0x1au8 => Some(1),
            0x1bu8 => Some(1),
            0x1cu8 => Some(2),
            0x1du8 => Some(2),
            0x1eu8 => Some(4),
            0x1fu8 => Some(4),
            _ => None,
        },
        0x04u8 => match v {
            0x00u8 => Some(3),
            0x01u8 => Some(3),
            0x02u8 => Some(1),
            0x03u8 => Some(3),
            0x04u8 => Some(3),
            0x05u8 => Some(3),
            0x06u8 => Some(3),
            0x07u8 => Some(3),
            0x08u8 => Some(1),
            0x09u8 => Some(3),
            0x0au8 => Some(3),
            0x0bu8 => Some(3),
            0x0cu8 => Some(3),
            0x0du8 => Some(3),
            0x0eu8 => Some(3),
            0x0fu8 => Some(3),
            0x10u8 => Some(3),
            0x11u8 => Some(3),
            0x12u8 => Some(3),
            0x13u8 => Some(3),
            0x14u8 => Some(3),
            0x15u8 => Some(3),
            0x16u8 => Some(3),
            0x17u8 => Some(3),
            0x18u8 => Some(3),
            0x19u8 => Some(3),
            0x1au8 => Some(3),
            0x1bu8 => Some(3),
            0x1cu8 => Some(3),
            0x1du8 => Some(3),
            0x1eu8 => Some(3),
            0x1fu8 => Some(3),
            0x20u8 => Some(3),
            0x21u8 => Some(3),
            0x22u8 => Some(3),
            0x23u8 => Some(3),
            0x24u8 => Some(3),
            0x25u8 => Some(3),
            0x26u8 => Some(3),
            0x27u8 => Some(3),
            0x28u8 => Some(3),
            0x29u8 => Some(3),
            0x2au8 => Some(3),
            0x2bu8 => Some(3),
            0x2cu8 => Some(3),
            0x2du8 => Some(3),
            0x2eu8 => Some(3),
            0x2fu8 => Some(3),
            0x30u8 => Some(3),
            0x31u8 => Some(3),
            0x32u8 => Some(2),
            0x33u8 => Some(2),
            0x34u8 => Some(2),
            0x35u8 => Some(2),
            0x36u8 => Some(1),
            0x37u8 => Some(1),
            0x38u8 => Some(3),
            0x39u8 => Some(3),
            0x3au8 => Some(3),
            0x3bu8 => Some(3),
            0x3cu8 => Some(3),
            0x3du8 => Some(3),
            0x3eu8 => Some(3),
            0x3fu8 => Some(3),
            0x40u8 => Some(3),
            0x41u8 => Some(3),
            0x42u8 => Some(3),
            0x43u8 => Some(3),
            0x44u8 => Some(3),
            0x45u8 => Some(3),
            0x46u8 => Some(3),
            0x47u8 => Some(3),
            0x48u8 => Some(3),
            0x49u8 => Some(3),
            _ => None,
        },
        0x06u8 => match v {
            0x01u8 => Some(1),
            0x02u8 => Some(1),
            0x00u8 => Some(0),
            _ => None,
        },
        0x10u8 => Some(2),
        0x13u8 => Some(1),
        0x14u8 => Some(2),
        0x15u8 => Some(3),
        0x16u8 => Some(5),
        0x20u8 => Some(0),
        0x21u8 => Some(0),
        0x22u8 => Some(0),
        0x23u8 => Some(0),
        0x24u8 => Some(0),
        0x25u8 => Some(0),
        0x2cu8 => Some(0),
        0x2du8 => Some(0),
        0x2eu8 => Some(0),
        0x2fu8 => Some(0),
        0x30u8 => Some(0),
        0x31u8 => Some(0),
        0x32u8 => Some(0),
        0x33u8 => Some(0),
        0x34u8 => Some(0),
        0x35u8 => Some(0),
        0x36u8 => Some(0),
        0x37u8 => Some(0),
        0x38u8 => Some(0),
        0x39u8 => Some(0),
        0x3au8 => Some(0),
        0xfeu8 => Some(0),
        0xffu8 => match v {
            0x01u8 => Some(1),
            0x00u8 => Some(0),
            0x02u8 => Some(0),
            _ => None,
        },
        _ => None,
    }
}

/// The instruction of opcode `op` and variant `v` whose operand bytes are `b0` to `b4`
/// (those past its length are ignored).
pub open spec fn instruction_at(op: u8, v: u8, b0: u8, b1: u8, b2: u8, b3: u8, b4: u8) -> Instruction {
    match op {
        0x00u8 => Instruction::Nop,
        0x02u8 => match v {
            0x00u8 => Instruction::JmpConst24(word_of(b0, b1, b2, 0)),
            0x01u8 => Instruction::JmpConst32(word_of(b0, b1, b2, b3)),
            0x02u8 => Instruction::JmpOffsetA8(b0),
            0x03u8 => Instruction::JmpOffsetS8(b0),
            0x04u8 => Instruction::JmpOffsetA16(word_of(b0, b1, 0, 0) as u16),
            0x05u8 => Instruction::JmpOffsetS16(word_of(b0, b1, 0, 0) as u16),
            0x06u8 => Instruction::JmpOffsetA32(word_of(b0, b1, b2, b3)),
            _ => Instruction::JmpOffsetS32(word_of(b0, b1, b2, b3)),
        },
        0x03u8 => match v {
            0x00u8 => Instruction::JCConst24(word_of(b0, b1, b2, 0)),
            0x01u8 => Instruction::JCConst32(word_of(b0, b1, b2, b3)),
            0x02u8 => Instruction::JCOffsetA8(b0),
            0x03u8 => Instruction::JCOffsetS8(b0),
            0x04u8 => Instruction::JCOffsetA16(word_of(b0, b1, 0, 0) as u16),
            0x05u8 => Instruction::JCOffsetS16(word_of(b0, b1, 0, 0) as u16),
            0x06u8 => Instruction::JCOffsetA32(word_of(b0, b1, b2, b3)),
            0x07u8 => Instruction::JCOffsetS32(word_of(b0, b1, b2, b3)),
            0x08u8 => Instruction::JNCConst24(word_of(b0, b1, b2, 0)),
            0x09u8 => Instruction::JNCConst32(word_of(b0, b1, b2, b3)),
            0x0au8 => Instruction::JNCOffsetA8(b0),
            0x0bu8 => Instruction::JNCOffsetS8(b0),
            0x0cu8 => Instruction::JNCOffsetA16(word_of(b0, b1, 0, 0) as u16),
            0x0du8 => Instruction::JNCOffsetS16(word_of(b0, b1, 0, 0) as u16),
            0x0eu8 => Instruction::JNCOffsetA32(word_of(b0, b1, b2, b3)),
            0x0fu8 => Instruction::JNCOffsetS32(word_of(b0, b1, b2, b3)),
            0x10u8 => Instruction::JZConst24(word_of(b0, b1, b2, 0)),
            0x11u8 => Instruction::JZConst32(word_of(b0, b1, b2, b3)),
            0x12u8 => Instruction::JZOffsetA8(b0),
            0x13u8 => Instruction::JZOffsetS8(b0),
            0x14u8 => Instruction::JZOffsetA16(word_of(b0, b1, 0, 0) as u16),
            0x15u8 => Instruction::JZOffsetS16(word_of(b0, b1, 0, 0) as u16),
            0x16u8 => Instruction::JZOffsetA32(word_of(b0, b1, b2, b3)),
            0x17u8 => Instruction::JZOffsetS32(word_of(b0, b1, b2, b3)),
            0x18u8 => Instruction::JNZConst24(word_of(b0, b1, b2, 0)),
            0x19u8 => Instruction::JNZConst32(word_of(b0, b1, b2, b3)),
            0x1au8 => Instruction::JNZOffsetA8(b0),
            0x1bu8 => Instruction::JNZOffsetS8(b0),
            0x1cu8 => Instruction::JNZOffsetA16(word_of(b0, b1, 0, 0) as u16),
            0x1du8 => Instruction::JNZOffsetS16(word_of(b0, b1, 0, 0) as u16),
            0x1eu8 => Instruction::JNZOffsetA32(word_of(b0, b1, b2, b3)),
            _ => Instruction::JNZOffsetS32(word_of(b0, b1, b2, b3)),
        },
        0x04u8 => match v {
            0x00u8 => Instruction::AddRRR(b0, b1, b2),
            0x01u8 => Instruction::AddZRR(b0, b1, b2),
            0x02u8 => Instruction::IncR1(b0),
            0x03u8 => Instruction::AddRRZ(b0, b1, b2),
            0x04u8 => Instruction::AddRZZ(b0, b1, b2),
            0x05u8 => Instruction::AddZZZ(b0, b1, b2),
            0x06u8 => Instruction::AddcRRR(b0, b1, b2),
            0x07u8 => Instruction::AddcZRR(b0, b1, b2),
            0x08u8 => Instruction::IncR4(b0),
            0x09u8 => Instruction::AddcRRZ(b0, b1, b2),
            0x0au8 => Instruction::AddcRZZ(b0, b1, b2),
            0x0bu8 => Instruction::AddcZZZ(b0, b1, b2),
            0x0cu8 => Instruction::SubRRR(b0, b1, b2),
            0x0du8 => Instruction::SubZRR(b0, b1, b2),
            0x0eu8 => Instruction::SubRZR(b0, b1, b2),
            0x0fu8 => Instruction::SubRRZ(b0, b1, b2),
            0x10u8 => Instruction::SubRZZ(b0, b1, b2),
            0x11u8 => Instruction::SubZZZ(b0, b1, b2),
            0x12u8 => Instruction::SubbRRR(b0, b1, b2),
            0x13u8 => Instruction::SubbZRR(b0, b1, b2),
            0x14u8 => Instruction::SubbRZR(b0, b1, b2),
            0x15u8 => Instruction::SubbRRZ(b0, b1, b2),
            0x16u8 => Instruction::SubbRZZ(b0, b1, b2),
            0x17u8 => Instruction::SubbZZZ(b0, b1, b2),
            0x18u8 => Instruction::MulRRR(b0, b1, b2),
            0x19u8 => Instruction::MulZRR(b0, b1, b2),
            0x1au8 => Instruction::MulRRZ(b0, b1, b2),
            0x1bu8 => Instruction::MulRZZ(b0, b1, b2),
            0x1cu8 => Instruction::MulZZZ(b0, b1, b2),
            0x1du8 => Instruction::DivRRR(b0, b1, b2),
            0x1eu8 => Instruction::DivZRR(b0, b1, b2),
            0x1fu8 => Instruction::DivRZR(b0, b1, b2),
            0x20u8 => Instruction::DivRRZ(b0, b1, b2),
            0x21u8 => Instruction::DivRZZ(b0, b1, b2),
            0x22u8 => Instruction::DivZZZ(b0, b1, b2),
            0x23u8 => Instruction::AndRRR(b0, b1, b2),
            0x24u8 => Instruction::AndZRR(b0, b1, b2),
            0x25u8 => Instruction::AndRRZ(b0, b1, b2),
            0x26u8 => Instruction::AndRZZ(b0, b1, b2),
            0x27u8 => Instruction::AndZZZ(b0, b1, b2),
            0x28u8 => Instruction::OrRRR(b0, b1, b2),
            0x29u8 => Instruction::OrZRR(b0, b1, b2),
            0x2au8 => Instruction::OrRRZ(b0, b1, b2),
            0x2bu8 => Instruction::OrRZZ(b0, b1, b2),
            0x2cu8 => Instruction::OrZZZ(b0, b1, b2),
            0x2du8 => Instruction::XorRRR(b0, b1, b2),
            0x2eu8 => Instruction::XorZRR(b0, b1, b2),
            0x2fu8 => Instruction::XorRRZ(b0, b1, b2),
            0x30u8 => Instruction::XorRZZ(b0, b1, b2),
            0x31u8 => Instruction::XorZZZ(b0, b1, b2),
            0x32u8 => Instruction::NotRR(b0, b1),
            0x33u8 => Instruction::NotZR(b0, b1),
            0x34u8 => Instruction::NotRZ(b0, b1),
            0x35u8 => Instruction::NotZZ(b0, b1),
            0x36u8 => Instruction::DecR1(b0),
            0x37u8 => Instruction::DecR4(b0),
            0x38u8 => Instruction::RemRRR(b0, b1, b2),
            0x39u8 => Instruction::RemZRR(b0, b1, b2),
            0x3au8 => Instruction::RemRZR(b0, b1, b2),
            0x3bu8 => Instruction::RemRRZ(b0, b1, b2),
            0x3cu8 => Instruction::RemRZZ(b0, b1, b2),
            0x3du8 => Instruction::RemZZZ(b0, b1, b2),
            0x3eu8 => Instruction::ShlRRR(b0, b1, b2),
            0x3fu8 => Instruction::ShlZRR(b0, b1, b2),
            0x40u8 => Instruction::ShlRCR(b0, b1, b2),
            0x41u8 => Instruction::ShlZCR(b0, b1, b2),
            0x42u8 => Instruction::ShlRCZ(b0, b1, b2),
            0x43u8 => Instruction::ShlZCZ(b0, b1, b2),
            0x44u8 => Instruction::ShrRRR(b0, b1, b2),
            0x45u8 => Instruction::ShrZRR(b0, b1, b2),
            0x46u8 => Instruction::ShrRCR(b0, b1, b2),
            0x47u8 => Instruction::ShrZCR(b0, b1, b2),
            0x48u8 => Instruction::ShrRCZ(b0, b1, b2),
            _ => Instruction::ShrZCZ(b0, b1, b2),
        },
        0x06u8 => match v {
            0x01u8 => Instruction::PrintChar_R(b0),
            0x02u8 => Instruction::PrintChar_C8(b0),
            _ => Instruction::PrintCharAcc,
        },
        0x10u8 => Instruction::MovRR(b0, b1),
        0x13u8 => Instruction::Mov44(b0),
        0x14u8 => Instruction::ConstRegU8(b0, b1),
        0x15u8 => Instruction::ConstRegU16(b0, word_of(b1, b2, 0, 0) as u16),
        0x16u8 => Instruction::ConstRegU32(b0, word_of(b1, b2, b3, b4)),
        0x20u8 => Instruction::SetZF,
        0x21u8 => Instruction::ClrZF,
        0x22u8 => Instruction::SetCF,
        0x23u8 => Instruction::ClrCF,
        0x24u8 => Instruction::IntEnable,
        0x25u8 => Instruction::IntDisable,
        0x2cu8 => Instruction::MovR1ToR0,
        0x2du8 => Instruction::MovR0ToR1,
        0x2eu8 => Instruction::MovR2ToR0,
        0x2fu8 => Instruction::MovR2ToR1,
        0x30u8 => Instruction::AddR0R1,
        0x31u8 => Instruction::AddcR0R1,
        0x32u8 => Instruction::SubR0R1,
        0x33u8 => Instruction::SubbR0R1,
        0x34u8 => Instruction::MulR0R1,
        0x35u8 => Instruction::DivR0R1,
        0x36u8 => Instruction::AndR0R1,
        0x37u8 => Instruction::OrR0R1,
        0x38u8 => Instruction::XorR0R1,
        0x39u8 => Instruction::NotR0,
        0x3au8 => Instruction::RemR0R1,
        0xfeu8 => Instruction::ExplicitHaltAndExit,
        0xffu8 => match v {
            0x01u8 => Instruction::DebugPrintReg(b0),
            0x00u8 => Instruction::DebugPrintAcc,
            _ => Instruction::DebugPrintAll,
        },
        _ => Instruction::Nop,
    }
}

fn build_instruction(op: u8, v: u8, b0: u8, b1: u8, b2: u8, b3: u8, b4: u8) -> (r: Instruction)
    ensures
        r == instruction_at(op, v, b0, b1, b2, b3, b4),
{
    match op {
        0x00u8 => Instruction::Nop,
        0x02u8 => match v {
            0x00u8 => Instruction::JmpConst24(u32_join((b0, b1, b2, 0))),
            0x01u8 => Instruction::JmpConst32(u32_join((b0, b1, b2, b3))),
            0x02u8 => Instruction::JmpOffsetA8(b0),
            0x03u8 => Instruction::JmpOffsetS8(b0),
            0x04u8 => Instruction::JmpOffsetA16(u32_join((b0, b1, 0, 0)) as u16),
            0x05u8 => Instruction::JmpOffsetS16(u32_join((b0, b1, 0, 0)) as u16),
            0x06u8 => Instruction::JmpOffsetA32(u32_join((b0, b1, b2, b3))),
            _ => Instruction::JmpOffsetS32(u32_join((b0, b1, b2, b3))),
        },
        0x03u8 => match v {
            0x00u8 => Instruction::JCConst24(u32_join((b0, b1, b2, 0))),
            0x01u8 => Instruction::JCConst32(u32_join((b0, b1, b2, b3))),
            0x02u8 => Instruction::JCOffsetA8(b0),
            0x03u8 => Instruction::JCOffsetS8(b0),
            0x04u8 => Instruction::JCOffsetA16(u32_join((b0, b1, 0, 0)) as u16),
            0x05u8 => Instruction::JCOffsetS16(u32_join((b0, b1, 0, 0)) as u16),
            0x06u8 => Instruction::JCOffsetA32(u32_join((b0, b1, b2, b3))),
            0x07u8 => Instruction::JCOffsetS32(u32_join((b0, b1, b2, b3))),
            0x08u8 => Instruction::JNCConst24(u32_join((b0, b1, b2, 0))),
            0x09u8 => Instruction::JNCConst32(u32_join((b0, b1, b2, b3))),
            0x0au8 => Instruction::JNCOffsetA8(b0),
            0x0bu8 => Instruction::JNCOffsetS8(b0),
            0x0cu8 => Instruction::JNCOffsetA16(u32_join((b0, b1, 0, 0)) as u16),
            0x0du8 => Instruction::JNCOffsetS16(u32_join((b0, b1, 0, 0)) as u16),
            0x0eu8 => Instruction::JNCOffsetA32(u32_join((b0, b1, b2, b3))),
            0x0fu8 => Instruction::JNCOffsetS32(u32_join((b0, b1, b2, b3))),
            0x10u8 => Instruction::JZConst24(u32_join((b0, b1, b2, 0))),
            0x11u8 => Instruction::JZConst32(u32_join((b0, b1, b2, b3))),
            0x12u8 => Instruction::JZOffsetA8(b0),
            0x13u8 => Instruction::JZOffsetS8(b0),
            0x14u8 => Instruction::JZOffsetA16(u32_join((b0, b1, 0, 0)) as u16),
            0x15u8 => Instruction::JZOffsetS16(u32_join((b0, b1, 0, 0)) as u16),
            0x16u8 => Instruction::JZOffsetA32(u32_join((b0, b1, b2, b3))),
            0x17u8 => Instruction::JZOffsetS32(u32_join((b0, b1, b2, b3))),
            0x18u8 => Instruction::JNZConst24(u32_join((b0, b1, b2, 0))),
            0x19u8 => Instruction::JNZConst32(u32_join((b0, b1, b2, b3))),
            0x1au8 => Instruction::JNZOffsetA8(b0),
            0x1bu8 => Instruction::JNZOffsetS8(b0),
            0x1cu8 => Instruction::JNZOffsetA16(u32_join((b0, b1, 0, 0)) as u16),
            0x1du8 => Instruction::JNZOffsetS16(u32_join((b0, b1, 0, 0)) as u16),
            0x1eu8 => Instruction::JNZOffsetA32(u32_join((b0, b1, b2, b3))),
            _ => Instruction::JNZOffsetS32(u32_join((b0, b1, b2, b3))),
        },
        0x04u8 => match v {
            0x00u8 => Instruction::AddRRR(b0, b1, b2),
            0x01u8 => Instruction::AddZRR(b0, b1, b2),
            0x02u8 => Instruction::IncR1(b0),
            0x03u8 => Instruction::AddRRZ(b0, b1, b2),
            0x04u8 => Instruction::AddRZZ(b0, b1, b2),
            0x05u8 => Instruction::AddZZZ(b0, b1, b2),
            0x06u8 => Instruction::AddcRRR(b0, b1, b2),
            0x07u8 => Instruction::AddcZRR(b0, b1, b2),
            0x08u8 => Instruction::IncR4(b0),
            0x09u8 => Instruction::AddcRRZ(b0, b1, b2),
            0x0au8 => Instruction::AddcRZZ(b0, b1, b2),
            0x0bu8 => Instruction::AddcZZZ(b0, b1, b2),
            0x0cu8 => Instruction::SubRRR(b0, b1, b2),
            0x0du8 => Instruction::SubZRR(b0, b1, b2),
            0x0eu8 => Instruction::SubRZR(b0, b1, b2),
            0x0fu8 => Instruction::SubRRZ(b0, b1, b2),
            0x10u8 => Instruction::SubRZZ(b0, b1, b2),
            0x11u8 => Instruction::SubZZZ(b0, b1, b2),
            0x12u8 => Instruction::SubbRRR(b0, b1, b2),
            0x13u8 => Instruction::SubbZRR(b0, b1, b2),
            0x14u8 => Instruction::SubbRZR(b0, b1, b2),
            0x15u8 => Instruction::SubbRRZ(b0, b1, b2),
            0x16u8 => Instruction::SubbRZZ(b0, b1, b2),
            0x17u8 => Instruction::SubbZZZ(b0, b1, b2),
            0x18u8 => Instruction::MulRRR(b0, b1, b2),
            0x19u8 => Instruction::MulZRR(b0, b1, b2),
            0x1au8 => Instruction::MulRRZ(b0, b1, b2),
            0x1bu8 => Instruction::MulRZZ(b0, b1, b2),
            0x1cu8 => Instruction::MulZZZ(b0, b1, b2),
            0x1du8 => Instruction::DivRRR(b0, b1, b2),
            0x1eu8 => Instruction::DivZRR(b0, b1, b2),
            0x1fu8 => Instruction::DivRZR(b0, b1, b2),
            0x20u8 => Instruction::DivRRZ(b0, b1, b2),
            0x21u8 => Instruction::DivRZZ(b0, b1, b2),
            0x22u8 => Instruction::DivZZZ(b0, b1, b2),
            0x23u8 => Instruction::AndRRR(b0, b1, b2),
            0x24u8 => Instruction::AndZRR(b0, b1, b2),
            0x25u8 => Instruction::AndRRZ(b0, b1, b2),
            0x26u8 => Instruction::AndRZZ(b0, b1, b2),
            0x27u8 => Instruction::AndZZZ(b0, b1, b2),
            0x28u8 => Instruction::OrRRR(b0, b1, b2),
            0x29u8 => Instruction::OrZRR(b0, b1, b2),
            0x2au8 => Instruction::OrRRZ(b0, b1, b2),
            0x2bu8 => Instruction::OrRZZ(b0, b1, b2),
            0x2cu8 => Instruction::OrZZZ(b0, b1, b2),
            0x2du8 => Instruction::XorRRR(b0, b1, b2),
            0x2eu8 => Instruction::XorZRR(b0, b1, b2),
            0x2fu8 => Instruction::XorRRZ(b0, b1, b2),
            0x30u8 => Instruction::XorRZZ(b0, b1, b2),
            0x31u8 => Instruction::XorZZZ(b0, b1, b2),
            0x32u8 => Instruction::NotRR(b0, b1),
            0x33u8 => Instruction::NotZR(b0, b1),
            0x34u8 => Instruction::NotRZ(b0, b1),
            0x35u8 => Instruction::NotZZ(b0, b1),
            0x36u8 => Instruction::DecR1(b0),
            0x37u8 => Instruction::DecR4(b0),
            0x38u8 => Instruction::RemRRR(b0, b1, b2),
            0x39u8 => Instruction::RemZRR(b0, b1, b2),
            0x3au8 => Instruction::RemRZR(b0, b1, b2),
            0x3bu8 => Instruction::RemRRZ(b0, b1, b2),
            0x3cu8 => Instruction::RemRZZ(b0, b1, b2),
            0x3du8 => Instruction::RemZZZ(b0, b1, b2),
            0x3eu8 => Instruction::ShlRRR(b0, b1, b2),
            0x3fu8 => Instruction::ShlZRR(b0, b1, b2),
            0x40u8 => Instruction::ShlRCR(b0, b1, b2),
            0x41u8 => Instruction::ShlZCR(b0, b1, b2),
            0x42u8 => Instruction::ShlRCZ(b0, b1, b2),
            0x43u8 => Instruction::ShlZCZ(b0, b1, b2),
            0x44u8 => Instruction::ShrRRR(b0, b1, b2),
            0x45u8 => Instruction::ShrZRR(b0, b1, b2),
            0x46u8 => Instruction::ShrRCR(b0, b1, b2),
            0x47u8 => Instruction::ShrZCR(b0, b1, b2),
            0x48u8 => Instruction::ShrRCZ(b0, b1, b2),
            _ => Instruction::ShrZCZ(b0, b1, b2),
        },
        0x06u8 => match v {
            0x01u8 => Instruction::PrintChar_R(b0),
            0x02u8 => Instruction::PrintChar_C8(b0),
            _ => Instruction::PrintCharAcc,
        },
        0x10u8 => Instruction::MovRR(b0, b1),
        0x13u8 => Instruction::Mov44(b0),
        0x14u8 => Instruction::ConstRegU8(b0, b1),
        0x15u8 => Instruction::ConstRegU16(b0, u32_join((b1, b2, 0, 0)) as u16),
        0x16u8 => Instruction::ConstRegU32(b0, u32_join((b1, b2, b3, b4))),
        0x20u8 => Instruction::SetZF,
        0x21u8 => Instruction::ClrZF,
        0x22u8 => Instruction::SetCF,
        0x23u8 => Instruction::ClrCF,
        0x24u8 => Instruction::IntEnable,
        0x25u8 => Instruction::IntDisable,
        0x2cu8 => Instruction::MovR1ToR0,
        0x2du8 => Instruction::MovR0ToR1,
        0x2eu8 => Instruction::MovR2ToR0,
        0x2fu8 => Instruction::MovR2ToR1,
        0x30u8 => Instruction::AddR0R1,
        0x31u8 => Instruction::AddcR0R1,
        0x32u8 => Instruction::SubR0R1,
        0x33u8 => Instruction::SubbR0R1,
        0x34u8 => Instruction::MulR0R1,
        0x35u8 => Instruction::DivR0R1,
        0x36u8 => Instruction::AndR0R1,
        0x37u8 => Instruction::OrR0R1,
        0x38u8 => Instruction::XorR0R1,
        0x39u8 => Instruction::NotR0,
        0x3au8 => Instruction::RemR0R1,
        0xfeu8 => Instruction::ExplicitHaltAndExit,
        0xffu8 => match v {
            0x01u8 => Instruction::DebugPrintReg(b0),
            0x00u8 => Instruction::DebugPrintAcc,
            _ => Instruction::DebugPrintAll,
        },
        _ => Instruction::Nop,
    }
}

#[verifier::spinoff_prover]
#[verifier::rlimit(50)]
proof fn lemma_decode_jump_0(i: Instruction, m: Seq<u8>, at: int)
    requires
        i is JmpConst24
            || i is JmpConst32
            || i is JmpOffsetA8
            || i is JmpOffsetS8
            || i is JmpOffsetA16
            || i is JmpOffsetS16
            || i is JmpOffsetA32
            || i is JmpOffsetS32
            || i is JCConst24
            || i is JCConst32,
        encoding(i) is Ok,
        0 <= at,
        at + encoding(i)->Ok_0.len() <= m.len(),
        forall|k: int| 0 <= k < encoding(i)->Ok_0.len() ==> m[at + k] == encoding(i)->Ok_0[k],
    ensures
        decoding(m, at) == Ok::<(Instruction, nat), DecodeError>((i, encoding(i)->Ok_0.len())),
{
    let e = encoding(i)->Ok_0;
    assert(m[at] == e[0]);
    if e.len() > 1 { assert(m[at + 1] == e[1]); }
    if e.len() > 2 { assert(m[at + 2] == e[2]); }
    if e.len() > 3 { assert(m[at + 3] == e[3]); }
    if e.len() > 4 { assert(m[at + 4] == e[4]); }
    if e.len() > 5 { assert(m[at + 5] == e[5]); }
    match i {
        Instruction::JmpConst24(a) => { lemma_le24(a); },
        Instruction::JmpConst32(a) => { lemma_join_split(a); },
        Instruction::JmpOffsetA16(a) => { lemma_le16(a); },
        Instruction::JmpOffsetS16(a) => { lemma_le16(a); },
        Instruction::JmpOffsetA32(a) => { lemma_join_split(a); },
        Instruction::JmpOffsetS32(a) => { lemma_join_split(a); },
        Instruction::JCConst24(a) => { lemma_le24(a); },
        Instruction::JCConst32(a) => { lemma_join_split(a); },
        _ => {},
    }
}

#[verifier::spinoff_prover]
#[verifier::rlimit(50)]
proof fn lemma_decode_jump_1(i: Instruction, m: Seq<u8>, at: int)
    requires
        i is JCOffsetA8
            || i is JCOffsetS8
            || i is JCOffsetA16
            || i is JCOffsetS16
            || i is JCOffsetA32
            || i is JCOffsetS32
            || i is JNCConst24
            || i is JNCConst32
            || i is JNCOffsetA8
            || i is JNCOffsetS8,
        encoding(i) is Ok,
        0 <= at,
        at + encoding(i)->Ok_0.len() <= m.len(),
        forall|k: int| 0 <= k < encoding(i)->Ok_0.len() ==> m[at + k] == encoding(i)->Ok_0[k],
    ensures
        decoding(m, at) == Ok::<(Instruction, nat), DecodeError>((i, encoding(i)->Ok_0.len())),
{
    let e = encoding(i)->Ok_0;
    assert(m[at] == e[0]);
    if e.len() > 1 { assert(m[at + 1] == e[1]); }
    if e.len() > 2 { assert(m[at + 2] == e[2]); }
    if e.len() > 3 { assert(m[at + 3] == e[3]); }
    if e.len() > 4 { assert(m[at + 4] == e[4]); }
    if e.len() > 5 { assert(m[at + 5] == e[5]); }
    match i {
        Instruction::JCOffsetA16(a) => { lemma_le16(a); },
        Instruction::JCOffsetS16(a) => { lemma_le16(a); },
        Instruction::JCOffsetA32(a) => { lemma_join_split(a); },
        Instruction::JCOffsetS32(a) => { lemma_join_split(a); },
        Instruction::JNCConst24(a) => { lemma_le24(a); },
        Instruction::JNCConst32(a) => { lemma_join_split(a); },
        _ => {},
    }
}

#[verifier::spinoff_prover]
#[verifier::rlimit(50)]
proof fn lemma_decode_jump_2(i: Instruction, m: Seq<u8>, at: int)
    requires
        i is JNCOffsetA16
            || i is JNCOffsetS16
            || i is JNCOffsetA32
            || i is JNCOffsetS32
            || i is JZConst24
            || i is JZConst32
            || i is JZOffsetA8
            || i is JZOffsetS8
            || i is JZOffsetA16
            || i is JZOffsetS16,
        encoding(i) is Ok,
        0 <= at,
        at + encoding(i)->Ok_0.len() <= m.len(),
        forall|k: int| 0 <= k < encoding(i)->Ok_0.len() ==> m[at + k] == encoding(i)->Ok_0[k],
    ensures
        decoding(m, at) == Ok::<(Instruction, nat), DecodeError>((i, encoding(i)->Ok_0.len())),
{
    let e = encoding(i)->Ok_0;
    assert(m[at] == e[0]);
    if e.len() > 1 { assert(m[at + 1] == e[1]); }
    if e.len() > 2 { assert(m[at + 2] == e[2]); }
    if e.len() > 3 { assert(m[at + 3] == e[3]); }
    if e.len() > 4 { assert(m[at + 4] == e[4]); }
    if e.len() > 5 { assert(m[at + 5] == e[5]); }
    match i {
        Instruction::JNCOffsetA16(a) => { lemma_le16(a); },
        Instruction::JNCOffsetS16(a) => { lemma_le16(a); },
        Instruction::JNCOffsetA32(a) => { lemma_join_split(a); },
        Instruction::JNCOffsetS32(a) => { lemma_join_split(a); },
        Instruction::JZConst24(a) => { lemma_le24(a); },
        Instruction::JZConst32(a) => { lemma_join_split(a); },
        Instruction::JZOffsetA16(a) => { lemma_le16(a); },
        Instruction::JZOffsetS16(a) => { lemma_le16(a); },
        _ => {},
    }
}

#[verifier::spinoff_prover]
#[verifier::rlimit(50)]
proof fn lemma_decode_jump_3(i: Instruction, m: Seq<u8>, at: int)
    requires
        i is JZOffsetA32
            || i is JZOffsetS32
            || i is JNZConst24
            || i is JNZConst32
            || i is JNZOffsetA8
            || i is JNZOffsetS8
            || i is JNZOffsetA16
            || i is JNZOffsetS16
            || i is JNZOffsetA32
            || i is JNZOffsetS32,
        encoding(i) is Ok,
        0 <= at,
        at + encoding(i)->Ok_0.len() <= m.len(),
        forall|k: int| 0 <= k < encoding(i)->Ok_0.len() ==> m[at + k] == encoding(i)->Ok_0[k],
    ensures
        decoding(m, at) == Ok::<(Instruction, nat), DecodeError>((i, encoding(i)->Ok_0.len())),
{
    let e = encoding(i)->Ok_0;
    assert(m[at] == e[0]);
    if e.len() > 1 { assert(m[at + 1] == e[1]); }
    if e.len() > 2 { assert(m[at + 2] == e[2]); }
    if e.len() > 3 { assert(m[at + 3] == e[3]); }
    if e.len() > 4 { assert(m[at + 4] == e[4]); }
    if e.len() > 5 { assert(m[at + 5] == e[5]); }
    match i {
        Instruction::JZOffsetA32(a) => { lemma_join_split(a); },
        Instruction::JZOffsetS32(a) => { lemma_join_split(a); },
        Instruction::JNZConst24(a) => { lemma_le24(a); },
        Instruction::JNZConst32(a) => { lemma_join_split(a); },
        Instruction::JNZOffsetA16(a) => { lemma_le16(a); },
        Instruction::JNZOffsetS16(a) => { lemma_le16(a); },
        Instruction::JNZOffsetA32(a) => { lemma_join_split(a); },
        Instruction::JNZOffsetS32(a) => { lemma_join_split(a); },
        _ => {},
    }
}

#[verifier::spinoff_prover]
#[verifier::rlimit(50)]
proof fn lemma_decode_alu_0(i: Instruction, m: Seq<u8>, at: int)
    requires
        i is AddRRR
            || i is AddZRR
            || i is IncR1
            || i is AddRRZ
            || i is AddRZZ
            || i is AddZZZ
            || i is AddcRRR
            || i is AddcZRR
            || i is IncR4
            || i is AddcRRZ,
        encoding(i) is Ok,
        0 <= at,
        at + encoding(i)->Ok_0.len() <= m.len(),
        forall|k: int| 0 <= k < encoding(i)->Ok_0.len() ==> m[at + k] == encoding(i)->Ok_0[k],
    ensures
        decoding(m, at) == Ok::<(Instruction, nat), DecodeError>((i, encoding(i)->Ok_0.len())),
{
    let e = encoding(i)->Ok_0;
    assert(m[at] == e[0]);
    if e.len() > 1 { assert(m[at + 1] == e[1]); }
    if e.len() > 2 { assert(m[at + 2] == e[2]); }
    if e.len() > 3 { assert(m[at + 3] == e[3]); }
    if e.len() > 4 { assert(m[at + 4] == e[4]); }
    if e.len() > 5 { assert(m[at + 5] == e[5]); }
    match i {
        _ => {},
    }
}

#[verifier::spinoff_prover]
#[verifier::rlimit(50)]
proof fn lemma_decode_alu_1(i: Instruction, m: Seq<u8>, at: int)
    requires
        i is AddcRZZ
            || i is AddcZZZ
            || i is SubRRR
            || i is SubZRR
            || i is SubRZR
            || i is SubRRZ
            || i is SubRZZ
            || i is SubZZZ
            || i is SubbRRR
            || i is SubbZRR,
        encoding(i) is Ok,
        0 <= at,
        at + encoding(i)->Ok_0.len() <= m.len(),
        forall|k: int| 0 <= k < encoding(i)->Ok_0.len() ==> m[at + k] == encoding(i)->Ok_0[k],
    ensures
        decoding(m, at) == Ok::<(Instruction, nat), DecodeError>((i, encoding(i)->Ok_0.len())),
{
    let e = encoding(i)->Ok_0;
    assert(m[at] == e[0]);
    if e.len() > 1 { assert(m[at + 1] == e[1]); }
    if e.len() > 2 { assert(m[at + 2] == e[2]); }
    if e.len() > 3 { assert(m[at + 3] == e[3]); }
    if e.len() > 4 { assert(m[at + 4] == e[4]); }
    if e.len() > 5 { assert(m[at + 5] == e[5]); }
    match i {
        _ => {},
    }
}

#[verifier::spinoff_prover]
#[verifier::rlimit(50)]
proof fn lemma_decode_alu_2(i: Instruction, m: Seq<u8>, at: int)
    requires
        i is SubbRZR
            || i is SubbRRZ
            || i is SubbRZZ
            || i is SubbZZZ
            || i is MulRRR
            || i is MulZRR
            || i is MulRRZ
            || i is MulRZZ
            || i is MulZZZ
            || i is DivRRR,
        encoding(i) is Ok,
        0 <= at,
        at + encoding(i)->Ok_0.len() <= m.len(),
        forall|k: int| 0 <= k < encoding(i)->Ok_0.len() ==> m[at + k] == encoding(i)->Ok_0[k],
    ensures
        decoding(m, at) == Ok::<(Instruction, nat), DecodeError>((i, encoding(i)->Ok_0.len())),
{
    let e = encoding(i)->Ok_0;
    assert(m[at] == e[0]);
    if e.len() > 1 { assert(m[at + 1] == e[1]); }
    if e.len() > 2 { assert(m[at + 2] == e[2]); }
    if e.len() > 3 { assert(m[at + 3] == e[3]); }
    if e.len() > 4 { assert(m[at + 4] == e[4]); }
    if e.len() > 5 { assert(m[at + 5] == e[5]); }
    match i {
        _ => {},
    }
}

#[verifier::spinoff_prover]
#[verifier::rlimit(50)]
proof fn lemma_decode_alu_3(i: Instruction, m: Seq<u8>, at: int)
    requires
        i is DivZRR
            || i is DivRZR
            || i is DivRRZ
            || i is DivRZZ
            || i is DivZZZ
            || i is AndRRR
            || i is AndZRR
            || i is AndRRZ
            || i is AndRZZ
            || i is AndZZZ,
        encoding(i) is Ok,
        0 <= at,
        at + encoding(i)->Ok_0.len() <= m.len(),
        forall|k: int| 0 <= k < encoding(i)->Ok_0.len() ==> m[at + k] == encoding(i)->Ok_0[k],
    ensures
        decoding(m, at) == Ok::<(Instruction, nat), DecodeError>((i, encoding(i)->Ok_0.len())),
{
    let e = encoding(i)->Ok_0;
    assert(m[at] == e[0]);
    if e.len() > 1 { assert(m[at + 1] == e[1]); }
    if e.len() > 2 { assert(m[at + 2] == e[2]); }
    if e.len() > 3 { assert(m[at + 3] == e[3]); }
    if e.len() > 4 { assert(m[at + 4] == e[4]); }
    if e.len() > 5 { assert(m[at + 5] == e[5]); }
    match i {
        _ => {},
    }
}

#[verifier::spinoff_prover]
#[verifier::rlimit(50)]
proof fn lemma_decode_alu_4(i: Instruction, m: Seq<u8>, at: int)
    requires
        i is OrRRR
            || i is OrZRR
            || i is OrRRZ
            || i is OrRZZ
            || i is OrZZZ
            || i is XorRRR
            || i is XorZRR
            || i is XorRRZ
            || i is XorRZZ
            || i is XorZZZ,
        encoding(i) is Ok,
        0 <= at,
        at + encoding(i)->Ok_0.len() <= m.len(),
        forall|k: int| 0 <= k < encoding(i)->Ok_0.len() ==> m[at + k] == encoding(i)->Ok_0[k],
    ensures
        decoding(m, at) == Ok::<(Instruction, nat), DecodeError>((i, encoding(i)->Ok_0.len())),
{
    let e = encoding(i)->Ok_0;
    assert(m[at] == e[0]);
    if e.len() > 1 { assert(m[at + 1] == e[1]); }
    if e.len() > 2 { assert(m[at + 2] == e[2]); }
    if e.len() > 3 { assert(m[at + 3] == e[3]); }
    if e.len() > 4 { assert(m[at + 4] == e[4]); }
    if e.len() > 5 { assert(m[at + 5] == e[5]); }
    match i {
        _ => {},
    }
}

#[verifier::spinoff_prover]
#[verifier::rlimit(50)]
proof fn lemma_decode_alu_5(i: Instruction, m: Seq<u8>, at: int)
    requires
        i is NotRR
            || i is NotZR
            || i is NotRZ
            || i is NotZZ
            || i is DecR1
            || i is DecR4
            || i is RemRRR
            || i is RemZRR
            || i is RemRZR
            || i is RemRRZ,
        encoding(i) is Ok,
        0 <= at,
        at + encoding(i)->Ok_0.len() <= m.len(),
        forall|k: int| 0 <= k < encoding(i)->Ok_0.len() ==> m[at + k] == encoding(i)->Ok_0[k],
    ensures
        decoding(m, at) == Ok::<(Instruction, nat), DecodeError>((i, encoding(i)->Ok_0.len())),
{
    let e = encoding(i)->Ok_0;
    assert(m[at] == e[0]);
    if e.len() > 1 { assert(m[at + 1] == e[1]); }
    if e.len() > 2 { assert(m[at + 2] == e[2]); }
    if e.len() > 3 { assert(m[at + 3] == e[3]); }
    if e.len() > 4 { assert(m[at + 4] == e[4]); }
    if e.len() > 5 { assert(m[at + 5] == e[5]); }
    match i {
        _ => {},
    }
}

#[verifier::spinoff_prover]
#[verifier::rlimit(50)]
proof fn lemma_decode_alu_6(i: Instruction, m: Seq<u8>, at: int)
    requires
        i is RemRZZ
            || i is RemZZZ
            || i is ShlRRR
            || i is ShlZRR
            || i is ShlRCR
            || i is ShlZCR
            || i is ShlRCZ
            || i is ShlZCZ
            || i is ShrRRR
            || i is ShrZRR,
        encoding(i) is Ok,
        0 <= at,
        at + encoding(i)->Ok_0.len() <= m.len(),
        forall|k: int| 0 <= k < encoding(i)->Ok_0.len() ==> m[at + k] == encoding(i)->Ok_0[k],
    ensures
        decoding(m, at) == Ok::<(Instruction, nat), DecodeError>((i, encoding(i)->Ok_0.len())),
{
    let e = encoding(i)->Ok_0;
    assert(m[at] == e[0]);
    if e.len() > 1 { assert(m[at + 1] == e[1]); }
    if e.len() > 2 { assert(m[at + 2] == e[2]); }
    if e.len() > 3 { assert(m[at + 3] == e[3]); }
    if e.len() > 4 { assert(m[at + 4] == e[4]); }
    if e.len() > 5 { assert(m[at + 5] == e[5]); }
    match i {
        _ => {},
    }
}

#[verifier::spinoff_prover]
#[verifier::rlimit(50)]
proof fn lemma_decode_alu_7(i: Instruction, m: Seq<u8>, at: int)
    requires
        i is ShrRCR
            || i is ShrZCR
            || i is ShrRCZ
            || i is ShrZCZ,
        encoding(i) is Ok,
        0 <= at,
        at + encoding(i)->Ok_0.len() <= m.len(),
        forall|k: int| 0 <= k < encoding(i)->Ok_0.len() ==> m[at + k] == encoding(i)->Ok_0[k],
    ensures
        decoding(m, at) == Ok::<(Instruction, nat), DecodeError>((i, encoding(i)->Ok_0.len())),
{
    let e = encoding(i)->Ok_0;
    assert(m[at] == e[0]);
    if e.len() > 1 { assert(m[at + 1] == e[1]); }
    if e.len() > 2 { assert(m[at + 2] == e[2]); }
    if e.len() > 3 { assert(m[at + 3] == e[3]); }
    if e.len() > 4 { assert(m[at + 4] == e[4]); }
    if e.len() > 5 { assert(m[at + 5] == e[5]); }
    match i {
        _ => {},
    }
}

#[verifier::spinoff_prover]
#[verifier::rlimit(50)]
proof fn lemma_decode_other_0(i: Instruction, m: Seq<u8>, at: int)
    requires
        i is Nop
            || i is PrintChar_R
            || i is PrintChar_C8
            || i is MovRR
            || i is Mov44
            || i is ConstRegU8
            || i is ConstRegU16
            || i is ConstRegU32
            || i is SetZF
            || i is ClrZF,
        encoding(i) is Ok,
        0 <= at,
        at + encoding(i)->Ok_0.len() <= m.len(),
        forall|k: int| 0 <= k < encoding(i)->Ok_0.len() ==> m[at + k] == encoding(i)->Ok_0[k],
    ensures
        decoding(m, at) == Ok::<(Instruction, nat), DecodeError>((i, encoding(i)->Ok_0.len())),
{
    let e = encoding(i)->Ok_0;
    assert(m[at] == e[0]);
    if e.len() > 1 { assert(m[at + 1] == e[1]); }
    if e.len() > 2 { assert(m[at + 2] == e[2]); }
    if e.len() > 3 { assert(m[at + 3] == e[3]); }
    if e.len() > 4 { assert(m[at + 4] == e[4]); }
    if e.len() > 5 { assert(m[at + 5] == e[5]); }
    match i {
        Instruction::ConstRegU16(a, b) => { lemma_le16(b); },
        Instruction::ConstRegU32(a, b) => { lemma_join_split(b); },
        _ => {},
    }
}

#[verifier::spinoff_prover]
#[verifier::rlimit(50)]
proof fn lemma_decode_other_1(i: Instruction, m: Seq<u8>, at: int)
    requires
        i is SetCF
            || i is ClrCF
            || i is IntEnable
            || i is IntDisable
            || i is ExplicitHaltAndExit
            || i is DebugPrintReg
            || i is PrintCharAcc
            || i is DebugPrintAcc
            || i is DebugPrintAll
            || i is MovR1ToR0,
        encoding(i) is Ok,
        0 <= at,
        at + encoding(i)->Ok_0.len() <= m.len(),
        forall|k: int| 0 <= k < encoding(i)->Ok_0.len() ==> m[at + k] == encoding(i)->Ok_0[k],
    ensures
        decoding(m, at) == Ok::<(Instruction, nat), DecodeError>((i, encoding(i)->Ok_0.len())),
{
    let e = encoding(i)->Ok_0;
    assert(m[at] == e[0]);
    if e.len() > 1 { assert(m[at + 1] == e[1]); }
    if e.len() > 2 { assert(m[at + 2] == e[2]); }
    if e.len() > 3 { assert(m[at + 3] == e[3]); }
    if e.len() > 4 { assert(m[at + 4] == e[4]); }
    if e.len() > 5 { assert(m[at + 5] == e[5]); }
    match i {
        _ => {},
    }
}

#[verifier::spinoff_prover]
#[verifier::rlimit(50)]
proof fn lemma_decode_other_2(i: Instruction, m: Seq<u8>, at: int)
    requires
        i is MovR0ToR1
            || i is MovR2ToR0
            || i is MovR2ToR1
            || i is AddR0R1
            || i is AddcR0R1
            || i is SubR0R1
            || i is SubbR0R1
            || i is MulR0R1
            || i is DivR0R1
            || i is AndR0R1,
        encoding(i) is Ok,
        0 <= at,
        at + encoding(i)->Ok_0.len() <= m.len(),
        forall|k: int| 0 <= k < encoding(i)->Ok_0.len() ==> m[at + k] == encoding(i)->Ok_0[k],
    ensures
        decoding(m, at) == Ok::<(Instruction, nat), DecodeError>((i, encoding(i)->Ok_0.len())),
{
    let e = encoding(i)->Ok_0;
    assert(m[at] == e[0]);
    if e.len() > 1 { assert(m[at + 1] == e[1]); }
    if e.len() > 2 { assert(m[at + 2] == e[2]); }
    if e.len() > 3 { assert(m[at + 3] == e[3]); }
    if e.len() > 4 { assert(m[at + 4] == e[4]); }
    if e.len() > 5 { assert(m[at + 5] == e[5]); }
    match i {
        _ => {},
    }
}

#[verifier::spinoff_prover]
#[verifier::rlimit(50)]
proof fn lemma_decode_other_3(i: Instruction, m: Seq<u8>, at: int)
    requires
        i is OrR0R1
            || i is XorR0R1
            || i is NotR0
            || i is RemR0R1,
        encoding(i) is Ok,
        0 <= at,
        at + encoding(i)->Ok_0.len() <= m.len(),
        forall|k: int| 0 <= k < encoding(i)->Ok_0.len() ==> m[at + k] == encoding(i)->Ok_0[k],
    ensures
        decoding(m, at) == Ok::<(Instruction, nat), DecodeError>((i, encoding(i)->Ok_0.len())),
{
    let e = encoding(i)->Ok_0;
    assert(m[at] == e[0]);
    if e.len() > 1 { assert(m[at + 1] == e[1]); }
    if e.len() > 2 { assert(m[at + 2] == e[2]); }
    if e.len() > 3 { assert(m[at + 3] == e[3]); }
    if e.len() > 4 { assert(m[at + 4] == e[4]); }
    if e.len() > 5 { assert(m[at + 5] == e[5]); }
    match i {
        _ => {},
    }
}

/// Decoding at the start of an instruction's canonical bytes gives the instruction back,
/// with its length, whatever surrounds it.
pub proof fn lemma_decode_encoding(i: Instruction, m: Seq<u8>, at: int)
    requires
        encoding(i) is Ok,
        0 <= at,
        at + encoding(i)->Ok_0.len() <= m.len(),
        m.subrange(at, at + encoding(i)->Ok_0.len()) == encoding(i)->Ok_0,
    ensures
        decoding(m, at) == Ok::<(Instruction, nat), DecodeError>((i, encoding(i)->Ok_0.len())),
{
    let e = encoding(i)->Ok_0;
    assert forall|k: int| 0 <= k < e.len() implies m[at + k] == e[k] by {
        assert(m.subrange(at, at + e.len())[k] == m[at + k]);
    }
    match i {
        Instruction::JmpConst24(..)
        | Instruction::JmpConst32(..)
        | Instruction::JmpOffsetA8(..)
        | Instruction::JmpOffsetS8(..)
        | Instruction::JmpOffsetA16(..)
        | Instruction::JmpOffsetS16(..)
        | Instruction::JmpOffsetA32(..)
        | Instruction::JmpOffsetS32(..)
        | Instruction::JCConst24(..)
        | Instruction::JCConst32(..) => lemma_decode_jump_0(i, m, at),
        Instruction::JCOffsetA8(..)
        | Instruction::JCOffsetS8(..)
        | Instruction::JCOffsetA16(..)
        | Instruction::JCOffsetS16(..)
        | Instruction::JCOffsetA32(..)
        | Instruction::JCOffsetS32(..)
        | Instruction::JNCConst24(..)
        | Instruction::JNCConst32(..)
        | Instruction::JNCOffsetA8(..)
        | Instruction::JNCOffsetS8(..) => lemma_decode_jump_1(i, m, at),
        Instruction::JNCOffsetA16(..)
        | Instruction::JNCOffsetS16(..)
        | Instruction::JNCOffsetA32(..)
        | Instruction::JNCOffsetS32(..)
        | Instruction::JZConst24(..)
        | Instruction::JZConst32(..)
        | Instruction::JZOffsetA8(..)
        | Instruction::JZOffsetS8(..)
        | Instruction::JZOffsetA16(..)
        | Instruction::JZOffsetS16(..) => lemma_decode_jump_2(i, m, at),
        Instruction::JZOffsetA32(..)
        | Instruction::JZOffsetS32(..)
        | Instruction::JNZConst24(..)
        | Instruction::JNZConst32(..)
        | Instruction::JNZOffsetA8(..)
        | Instruction::JNZOffsetS8(..)
        | Instruction::JNZOffsetA16(..)
        | Instruction::JNZOffsetS16(..)
        | Instruction::JNZOffsetA32(..)
        | Instruction::JNZOffsetS32(..) => lemma_decode_jump_3(i, m, at),
        Instruction::AddRRR(..)
        | Instruction::AddZRR(..)
        | Instruction::IncR1(..)
        | Instruction::AddRRZ(..)
        | Instruction::AddRZZ(..)
        | Instruction::AddZZZ(..)
        | Instruction::AddcRRR(..)
        | Instruction::AddcZRR(..)
        | Instruction::IncR4(..)
        | Instruction::AddcRRZ(..) => lemma_decode_alu_0(i, m, at),
        Instruction::AddcRZZ(..)
        | Instruction::AddcZZZ(..)
        | Instruction::SubRRR(..)
        | Instruction::SubZRR(..)
        | Instruction::SubRZR(..)
        | Instruction::SubRRZ(..)
        | Instruction::SubRZZ(..)
        | Instruction::SubZZZ(..)
        | Instruction::SubbRRR(..)
        | Instruction::SubbZRR(..) => lemma_decode_alu_1(i, m, at),
        Instruction::SubbRZR(..)
        | Instruction::SubbRRZ(..)
        | Instruction::SubbRZZ(..)
        | Instruction::SubbZZZ(..)
        | Instruction::MulRRR(..)
        | Instruction::MulZRR(..)
        | Instruction::MulRRZ(..)
        | Instruction::MulRZZ(..)
        | Instruction::MulZZZ(..)
        | Instruction::DivRRR(..) => lemma_decode_alu_2(i, m, at),
        Instruction::DivZRR(..)
        | Instruction::DivRZR(..)
        | Instruction::DivRRZ(..)
        | Instruction::DivRZZ(..)
        | Instruction::DivZZZ(..)
        | Instruction::AndRRR(..)
        | Instruction::AndZRR(..)
        | Instruction::AndRRZ(..)
        | Instruction::AndRZZ(..)
        | Instruction::AndZZZ(..) => lemma_decode_alu_3(i, m, at),
        Instruction::OrRRR(..)
        | Instruction::OrZRR(..)
        | Instruction::OrRRZ(..)
        | Instruction::OrRZZ(..)
        | Instruction::OrZZZ(..)
        | Instruction::XorRRR(..)
        | Instruction::XorZRR(..)
        | Instruction::XorRRZ(..)
        | Instruction::XorRZZ(..)
        | Instruction::XorZZZ(..) => lemma_decode_alu_4(i, m, at),
        Instruction::NotRR(..)
        | Instruction::NotZR(..)
        | Instruction::NotRZ(..)
        | Instruction::NotZZ(..)
        | Instruction::DecR1(..)
        | Instruction::DecR4(..)
        | Instruction::RemRRR(..)
        | Instruction::RemZRR(..)
        | Instruction::RemRZR(..)
        | Instruction::RemRRZ(..) => lemma_decode_alu_5(i, m, at),
        Instruction::RemRZZ(..)
        | Instruction::RemZZZ(..)
        | Instruction::ShlRRR(..)
        | Instruction::ShlZRR(..)
        | Instruction::ShlRCR(..)
        | Instruction::ShlZCR(..)
        | Instruction::ShlRCZ(..)
        | Instruction::ShlZCZ(..)
        | Instruction::ShrRRR(..)
        | Instruction::ShrZRR(..) => lemma_decode_alu_6(i, m, at),
        Instruction::ShrRCR(..)
        | Instruction::ShrZCR(..)
        | Instruction::ShrRCZ(..)
        | Instruction::ShrZCZ(..) => lemma_decode_alu_7(i, m, at),
        Instruction::Nop
        | Instruction::PrintChar_R(..)
        | Instruction::PrintChar_C8(..)
        | Instruction::MovRR(..)
        | Instruction::Mov44(..)
        | Instruction::ConstRegU8(..)
        | Instruction::ConstRegU16(..)
        | Instruction::ConstRegU32(..)
        | Instruction::SetZF
        | Instruction::ClrZF => lemma_decode_other_0(i, m, at),
        Instruction::SetCF
        | Instruction::ClrCF
        | Instruction::IntEnable
        | Instruction::IntDisable
        | Instruction::ExplicitHaltAndExit
        | Instruction::DebugPrintReg(..)
        | Instruction::PrintCharAcc
        | Instruction::DebugPrintAcc
        | Instruction::DebugPrintAll
        | Instruction::MovR1ToR0 => lemma_decode_other_1(i, m, at),
        Instruction::MovR0ToR1
        | Instruction::MovR2ToR0
        | Instruction::MovR2ToR1
        | Instruction::AddR0R1
        | Instruction::AddcR0R1
        | Instruction::SubR0R1
        | Instruction::SubbR0R1
        | Instruction::MulR0R1
        | Instruction::DivR0R1
        | Instruction::AndR0R1 => lemma_decode_other_2(i, m, at),
        _ => lemma_decode_other_3(i, m, at),
    }
}

} // verus!
