//! The instruction set: the closed set of instructions, and the operations they stand for.
use vstd::prelude::*;

verus! {

/// One instruction of the machine, one case per opcode and operand shape.
///
/// Operands come in source-A, source-B, destination order. In a shape code, `R` names a
/// register, `Z` a zero-page slot and `C` an inline constant.
#[allow(non_camel_case_types)]
#[derive(Clone, Copy, Debug, PartialEq, Eq, Structural)]
pub enum Instruction {
    Nop,
    JmpConst24(u32),
    JmpConst32(u32),
    JmpOffsetA8(u8),
    JmpOffsetS8(u8),
    JmpOffsetA16(u16),
    JmpOffsetS16(u16),
    JmpOffsetA32(u32),
    JmpOffsetS32(u32),
    JCConst24(u32),
    JCConst32(u32),
    JCOffsetA8(u8),
    JCOffsetS8(u8),
    JCOffsetA16(u16),
    JCOffsetS16(u16),
    JCOffsetA32(u32),
    JCOffsetS32(u32),
    JNCConst24(u32),
    JNCConst32(u32),
    JNCOffsetA8(u8),
    JNCOffsetS8(u8),
    JNCOffsetA16(u16),
    JNCOffsetS16(u16),
    JNCOffsetA32(u32),
    JNCOffsetS32(u32),
    JZConst24(u32),
    JZConst32(u32),
    JZOffsetA8(u8),
    JZOffsetS8(u8),
    JZOffsetA16(u16),
    JZOffsetS16(u16),
    JZOffsetA32(u32),
    JZOffsetS32(u32),
    JNZConst24(u32),
    JNZConst32(u32),
    JNZOffsetA8(u8),
    JNZOffsetS8(u8),
    JNZOffsetA16(u16),
    JNZOffsetS16(u16),
    JNZOffsetA32(u32),
    JNZOffsetS32(u32),
    AddRRR(u8, u8, u8),
    AddZRR(u8, u8, u8),
    IncR1(u8),
    AddRRZ(u8, u8, u8),
    AddRZZ(u8, u8, u8),
    AddZZZ(u8, u8, u8),
    AddcRRR(u8, u8, u8),
    AddcZRR(u8, u8, u8),
    IncR4(u8),
    AddcRRZ(u8, u8, u8),
    AddcRZZ(u8, u8, u8),
    AddcZZZ(u8, u8, u8),
    SubRRR(u8, u8, u8),
    SubZRR(u8, u8, u8),
    SubRZR(u8, u8, u8),
    SubRRZ(u8, u8, u8),
    SubRZZ(u8, u8, u8),
    SubZZZ(u8, u8, u8),
    SubbRRR(u8, u8, u8),
    SubbZRR(u8, u8, u8),
    SubbRZR(u8, u8, u8),
    SubbRRZ(u8, u8, u8),
    SubbRZZ(u8, u8, u8),
    SubbZZZ(u8, u8, u8),
    MulRRR(u8, u8, u8),
    MulZRR(u8, u8, u8),
    MulRRZ(u8, u8, u8),
    MulRZZ(u8, u8, u8),
    MulZZZ(u8, u8, u8),
    DivRRR(u8, u8, u8),
    DivZRR(u8, u8, u8),
    DivRZR(u8, u8, u8),
    DivRRZ(u8, u8, u8),
    DivRZZ(u8, u8, u8),
    DivZZZ(u8, u8, u8),
    AndRRR(u8, u8, u8),
    AndZRR(u8, u8, u8),
    AndRRZ(u8, u8, u8),
    AndRZZ(u8, u8, u8),
    AndZZZ(u8, u8, u8),
    OrRRR(u8, u8, u8),
    OrZRR(u8, u8, u8),
    OrRRZ(u8, u8, u8),
    OrRZZ(u8, u8, u8),
    OrZZZ(u8, u8, u8),
    XorRRR(u8, u8, u8),
    XorZRR(u8, u8, u8),
    XorRRZ(u8, u8, u8),
    XorRZZ(u8, u8, u8),
    XorZZZ(u8, u8, u8),
    NotRR(u8, u8),
    NotZR(u8, u8),
    NotRZ(u8, u8),
    NotZZ(u8, u8),
    DecR1(u8),
    DecR4(u8),
    RemRRR(u8, u8, u8),
    RemZRR(u8, u8, u8),
    RemRZR(u8, u8, u8),
    RemRRZ(u8, u8, u8),
    RemRZZ(u8, u8, u8),
    RemZZZ(u8, u8, u8),
    ShlRRR(u8, u8, u8),
    ShlZRR(u8, u8, u8),
    ShlRCR(u8, u8, u8),
    ShlZCR(u8, u8, u8),
    ShlRCZ(u8, u8, u8),
    ShlZCZ(u8, u8, u8),
    ShrRRR(u8, u8, u8),
    ShrZRR(u8, u8, u8),
    ShrRCR(u8, u8, u8),
    ShrZCR(u8, u8, u8),
    ShrRCZ(u8, u8, u8),
    ShrZCZ(u8, u8, u8),
    PrintChar_R(u8),
    PrintChar_C8(u8),
    Read8_Cptr_R(u32, u8),
    Read16_Cptr_R(u32, u8),
    Read32_Cptr_R(u32, u8),
    Read8_Rptr_R(u8, u8),
    Read16_Rptr_R(u8, u8),
    Read32_Rptr_R(u8, u8),
    Write8_R_Cptr(u8, u32),
    Write16_R_Cptr(u8, u32),
    Write32_R_Cptr(u8, u32),
    Write8_R_Rptr(u8, u8),
    Write16_R_Rptr(u8, u8),
    Write32_R_Rptr(u8, u8),
    Write8_C8_Cptr(u8, u32),
    Write8_C8_Rptr(u16, u8),
    Write16_C16_Cptr(u16, u32),
    Write16_C16_Rptr(u16, u8),
    Write32_C32_Cptr(u32, u32),
    Write32_C32_Rptr(u32, u8),
    MovRR(u8, u8),
    MovR4R4(u8, u8, u8),
    Mov4R4R(u8, u8, u8),
    Mov44(u8),
    ConstRegU8(u8, u8),
    ConstRegU16(u8, u16),
    ConstRegU32(u8, u32),
    SetZF,
    ClrZF,
    SetCF,
    ClrCF,
    IntEnable,
    IntDisable,
    ExplicitHaltAndExit,
    DebugPrintReg(u8),
    /// Prints the character held in the accumulator.
    PrintCharAcc,
    /// Shows the accumulator.
    DebugPrintAcc,
    /// Shows every register and the flags.
    DebugPrintAll,
    /// Fixed-register form: r0 = r1.
    MovR1ToR0,
    /// Fixed-register form: r1 = r0.
    MovR0ToR1,
    /// Fixed-register form: r0 = r2.
    MovR2ToR0,
    /// Fixed-register form: r1 = r2.
    MovR2ToR1,
    /// Fixed-register form: r2 = r0 + r1.
    AddR0R1,
    /// Fixed-register form: r2 = r0 + r1 + C.
    AddcR0R1,
    /// Fixed-register form: r2 = r0 - r1.
    SubR0R1,
    /// Fixed-register form: r2 = r0 - r1 - C.
    SubbR0R1,
    /// Fixed-register form: r2 = r0 * r1.
    MulR0R1,
    /// Fixed-register form: r2 = r0 / r1.
    DivR0R1,
    /// Fixed-register form: r2 = r0 & r1.
    AndR0R1,
    /// Fixed-register form: r2 = r0 | r1.
    OrR0R1,
    /// Fixed-register form: r2 = r0 ^ r1.
    XorR0R1,
    /// Fixed-register form: r2 = !r0.
    NotR0,
    /// Fixed-register form: r2 = r0 % r1.
    RemR0R1,
}

/// The flag test of a jump.
#[derive(Clone, Copy, Debug, PartialEq, Eq, Structural)]
pub enum Condition {
    Always,
    Carry,
    NoCarry,
    Zero,
    NotZero,
}

/// Where a jump goes: an absolute address, or an offset from the address that follows the
/// jump's last operand byte.
#[derive(Clone, Copy, Debug, PartialEq, Eq, Structural)]
pub enum Target {
    Absolute(u32),
    Forward(u32),
    Backward(u32),
}

/// A two-operand arithmetic or logical operation.
#[derive(Clone, Copy, Debug, PartialEq, Eq, Structural)]
pub enum AluOp {
    Add,
    AddCarry,
    Sub,
    SubBorrow,
    Mul,
    Div,
    Rem,
    And,
    Or,
    Xor,
    Shl,
    Shr,
}

/// Where an operand is read from.
#[derive(Clone, Copy, Debug, PartialEq, Eq, Structural)]
pub enum Source {
    /// A register index.
    Reg(u8),
    /// A zero-page slot index.
    Page(u8),
    /// An inline constant.
    Const(u8),
}

/// Where a result is written.
#[derive(Clone, Copy, Debug, PartialEq, Eq, Structural)]
pub enum Dest {
    Reg(u8),
    Page(u8),
}

/// Where a printed character comes from.
#[derive(Clone, Copy, Debug, PartialEq, Eq, Structural)]
pub enum CharSource {
    Acc,
    Reg(u8),
    Const(u8),
}

/// What an instruction does to the machine.
#[derive(Clone, Copy, Debug, PartialEq, Eq, Structural)]
pub enum Operation {
    Nop,
    Jump(Condition, Target),
    /// `dest = a op b`; sets Z and C.
    Alu(AluOp, Source, Source, Dest),
    /// `dest = !a`; sets Z, clears C.
    Not(Source, Dest),
    PrintChar(CharSource),
    /// Copies register `.0` into register `.1`.
    Move(u8, u8),
    /// Loads a value into a register.
    Load(u8, u32),
    SetZero(bool),
    SetCarry(bool),
    SetInterrupts(bool),
    Halt,
    ShowAcc,
    ShowReg(u8),
    ShowAll,
    /// An instruction with no defined encoding; the engine never decodes one.
    Undefined,
}

/// What an instruction does, as one of the engine's operations.
pub open spec fn operation_of(i: Instruction) -> Operation {
    match i {
        Instruction::Nop => Operation::Nop,
        Instruction::JmpConst24(a) => Operation::Jump(Condition::Always, Target::Absolute(a)),
        Instruction::JmpConst32(a) => Operation::Jump(Condition::Always, Target::Absolute(a)),
        Instruction::JmpOffsetA8(a) => Operation::Jump(Condition::Always, Target::Forward(a as u32)),
        Instruction::JmpOffsetS8(a) => Operation::Jump(Condition::Always, Target::Backward(a as u32)),
        Instruction::JmpOffsetA16(a) => Operation::Jump(Condition::Always, Target::Forward(a as u32)),
        Instruction::JmpOffsetS16(a) => Operation::Jump(Condition::Always, Target::Backward(a as u32)),
        Instruction::JmpOffsetA32(a) => Operation::Jump(Condition::Always, Target::Forward(a)),
        Instruction::JmpOffsetS32(a) => Operation::Jump(Condition::Always, Target::Backward(a)),
        Instruction::JCConst24(a) => Operation::Jump(Condition::Carry, Target::Absolute(a)),
        Instruction::JCConst32(a) => Operation::Jump(Condition::Carry, Target::Absolute(a)),
        Instruction::JCOffsetA8(a) => Operation::Jump(Condition::Carry, Target::Forward(a as u32)),
        Instruction::JCOffsetS8(a) => Operation::Jump(Condition::Carry, Target::Backward(a as u32)),
        Instruction::JCOffsetA16(a) => Operation::Jump(Condition::Carry, Target::Forward(a as u32)),
        Instruction::JCOffsetS16(a) => Operation::Jump(Condition::Carry, Target::Backward(a as u32)),
        Instruction::JCOffsetA32(a) => Operation::Jump(Condition::Carry, Target::Forward(a)),
        Instruction::JCOffsetS32(a) => Operation::Jump(Condition::Carry, Target::Backward(a)),
        Instruction::JNCConst24(a) => Operation::Jump(Condition::NoCarry, Target::Absolute(a)),
        Instruction::JNCConst32(a) => Operation::Jump(Condition::NoCarry, Target::Absolute(a)),
        Instruction::JNCOffsetA8(a) => Operation::Jump(Condition::NoCarry, Target::Forward(a as u32)),
        Instruction::JNCOffsetS8(a) => Operation::Jump(Condition::NoCarry, Target::Backward(a as u32)),
        Instruction::JNCOffsetA16(a) => Operation::Jump(Condition::NoCarry, Target::Forward(a as u32)),
        Instruction::JNCOffsetS16(a) => Operation::Jump(Condition::NoCarry, Target::Backward(a as u32)),
        Instruction::JNCOffsetA32(a) => Operation::Jump(Condition::NoCarry, Target::Forward(a)),
        Instruction::JNCOffsetS32(a) => Operation::Jump(Condition::NoCarry, Target::Backward(a)),
        Instruction::JZConst24(a) => Operation::Jump(Condition::Zero, Target::Absolute(a)),
        Instruction::JZConst32(a) => Operation::Jump(Condition::Zero, Target::Absolute(a)),
        Instruction::JZOffsetA8(a) => Operation::Jump(Condition::Zero, Target::Forward(a as u32)),
        Instruction::JZOffsetS8(a) => Operation::Jump(Condition::Zero, Target::Backward(a as u32)),
        Instruction::JZOffsetA16(a) => Operation::Jump(Condition::Zero, Target::Forward(a as u32)),
        Instruction::JZOffsetS16(a) => Operation::Jump(Condition::Zero, Target::Backward(a as u32)),
        Instruction::JZOffsetA32(a) => Operation::Jump(Condition::Zero, Target::Forward(a)),
        Instruction::JZOffsetS32(a) => Operation::Jump(Condition::Zero, Target::Backward(a)),
        Instruction::JNZConst24(a) => Operation::Jump(Condition::NotZero, Target::Absolute(a)),
        Instruction::JNZConst32(a) => Operation::Jump(Condition::NotZero, Target::Absolute(a)),
        Instruction::JNZOffsetA8(a) => Operation::Jump(Condition::NotZero, Target::Forward(a as u32)),
        Instruction::JNZOffsetS8(a) => Operation::Jump(Condition::NotZero, Target::Backward(a as u32)),
        Instruction::JNZOffsetA16(a) => Operation::Jump(Condition::NotZero, Target::Forward(a as u32)),
        Instruction::JNZOffsetS16(a) => Operation::Jump(Condition::NotZero, Target::Backward(a as u32)),
        Instruction::JNZOffsetA32(a) => Operation::Jump(Condition::NotZero, Target::Forward(a)),
        Instruction::JNZOffsetS32(a) => Operation::Jump(Condition::NotZero, Target::Backward(a)),
        Instruction::AddRRR(a, b, c) => Operation::Alu(AluOp::Add, Source::Reg(a), Source::Reg(b), Dest::Reg(c)),
        Instruction::AddZRR(a, b, c) => Operation::Alu(AluOp::Add, Source::Page(a), Source::Reg(b), Dest::Reg(c)),
        Instruction::IncR1(a) => Operation::Alu(AluOp::Add, Source::Reg(a), Source::Const(1), Dest::Reg(a)),
        Instruction::AddRRZ(a, b, c) => Operation::Alu(AluOp::Add, Source::Reg(a), Source::Reg(b), Dest::Page(c)),
        Instruction::AddRZZ(a, b, c) => Operation::Alu(AluOp::Add, Source::Reg(a), Source::Page(b), Dest::Page(c)),
        Instruction::AddZZZ(a, b, c) => Operation::Alu(AluOp::Add, Source::Page(a), Source::Page(b), Dest::Page(c)),
        Instruction::AddcRRR(a, b, c) => Operation::Alu(AluOp::AddCarry, Source::Reg(a), Source::Reg(b), Dest::Reg(c)),
        Instruction::AddcZRR(a, b, c) => Operation::Alu(AluOp::AddCarry, Source::Page(a), Source::Reg(b), Dest::Reg(c)),
        Instruction::IncR4(a) => Operation::Alu(AluOp::Add, Source::Reg(a), Source::Const(4), Dest::Reg(a)),
        Instruction::AddcRRZ(a, b, c) => Operation::Alu(AluOp::AddCarry, Source::Reg(a), Source::Reg(b), Dest::Page(c)),
        Instruction::AddcRZZ(a, b, c) => Operation::Alu(AluOp::AddCarry, Source::Reg(a), Source::Page(b), Dest::Page(c)),
        Instruction::AddcZZZ(a, b, c) => Operation::Alu(AluOp::AddCarry, Source::Page(a), Source::Page(b), Dest::Page(c)),
        Instruction::SubRRR(a, b, c) => Operation::Alu(AluOp::Sub, Source::Reg(a), Source::Reg(b), Dest::Reg(c)),
        Instruction::SubZRR(a, b, c) => Operation::Alu(AluOp::Sub, Source::Page(a), Source::Reg(b), Dest::Reg(c)),
        Instruction::SubRZR(a, b, c) => Operation::Alu(AluOp::Sub, Source::Reg(a), Source::Page(b), Dest::Reg(c)),
        Instruction::SubRRZ(a, b, c) => Operation::Alu(AluOp::Sub, Source::Reg(a), Source::Reg(b), Dest::Page(c)),
        Instruction::SubRZZ(a, b, c) => Operation::Alu(AluOp::Sub, Source::Reg(a), Source::Page(b), Dest::Page(c)),
        Instruction::SubZZZ(a, b, c) => Operation::Alu(AluOp::Sub, Source::Page(a), Source::Page(b), Dest::Page(c)),
        Instruction::SubbRRR(a, b, c) => Operation::Alu(AluOp::SubBorrow, Source::Reg(a), Source::Reg(b), Dest::Reg(c)),
        Instruction::SubbZRR(a, b, c) => Operation::Alu(AluOp::SubBorrow, Source::Page(a), Source::Reg(b), Dest::Reg(c)),
        Instruction::SubbRZR(a, b, c) => Operation::Alu(AluOp::SubBorrow, Source::Reg(a), Source::Page(b), Dest::Reg(c)),
        Instruction::SubbRRZ(a, b, c) => Operation::Alu(AluOp::SubBorrow, Source::Reg(a), Source::Reg(b), Dest::Page(c)),
        Instruction::SubbRZZ(a, b, c) => Operation::Alu(AluOp::SubBorrow, Source::Reg(a), Source::Page(b), Dest::Page(c)),
        Instruction::SubbZZZ(a, b, c) => Operation::Alu(AluOp::SubBorrow, Source::Page(a), Source::Page(b), Dest::Page(c)),
        Instruction::MulRRR(a, b, c) => Operation::Alu(AluOp::Mul, Source::Reg(a), Source::Reg(b), Dest::Reg(c)),
        Instruction::MulZRR(a, b, c) => Operation::Alu(AluOp::Mul, Source::Page(a), Source::Reg(b), Dest::Reg(c)),
        Instruction::MulRRZ(a, b, c) => Operation::Alu(AluOp::Mul, Source::Reg(a), Source::Reg(b), Dest::Page(c)),
        Instruction::MulRZZ(a, b, c) => Operation::Alu(AluOp::Mul, Source::Reg(a), Source::Page(b), Dest::Page(c)),
        Instruction::MulZZZ(a, b, c) => Operation::Alu(AluOp::Mul, Source::Page(a), Source::Page(b), Dest::Page(c)),
        Instruction::DivRRR(a, b, c) => Operation::Alu(AluOp::Div, Source::Reg(a), Source::Reg(b), Dest::Reg(c)),
        Instruction::DivZRR(a, b, c) => Operation::Alu(AluOp::Div, Source::Page(a), Source::Reg(b), Dest::Reg(c)),
        Instruction::DivRZR(a, b, c) => Operation::Alu(AluOp::Div, Source::Reg(a), Source::Page(b), Dest::Reg(c)),
        Instruction::DivRRZ(a, b, c) => Operation::Alu(AluOp::Div, Source::Reg(a), Source::Reg(b), Dest::Page(c)),
        Instruction::DivRZZ(a, b, c) => Operation::Alu(AluOp::Div, Source::Reg(a), Source::Page(b), Dest::Page(c)),
        Instruction::DivZZZ(a, b, c) => Operation::Alu(AluOp::Div, Source::Page(a), Source::Page(b), Dest::Page(c)),
        Instruction::AndRRR(a, b, c) => Operation::Alu(AluOp::And, Source::Reg(a), Source::Reg(b), Dest::Reg(c)),
        Instruction::AndZRR(a, b, c) => Operation::Alu(AluOp::And, Source::Page(a), Source::Reg(b), Dest::Reg(c)),
        Instruction::AndRRZ(a, b, c) => Operation::Alu(AluOp::And, Source::Reg(a), Source::Reg(b), Dest::Page(c)),
        Instruction::AndRZZ(a, b, c) => Operation::Alu(AluOp::And, Source::Reg(a), Source::Page(b), Dest::Page(c)),
        Instruction::AndZZZ(a, b, c) => Operation::Alu(AluOp::And, Source::Page(a), Source::Page(b), Dest::Page(c)),
        Instruction::OrRRR(a, b, c) => Operation::Alu(AluOp::Or, Source::Reg(a), Source::Reg(b), Dest::Reg(c)),
        Instruction::OrZRR(a, b, c) => Operation::Alu(AluOp::Or, Source::Page(a), Source::Reg(b), Dest::Reg(c)),
        Instruction::OrRRZ(a, b, c) => Operation::Alu(AluOp::Or, Source::Reg(a), Source::Reg(b), Dest::Page(c)),
        Instruction::OrRZZ(a, b, c) => Operation::Alu(AluOp::Or, Source::Reg(a), Source::Page(b), Dest::Page(c)),
        Instruction::OrZZZ(a, b, c) => Operation::Alu(AluOp::Or, Source::Page(a), Source::Page(b), Dest::Page(c)),
        Instruction::XorRRR(a, b, c) => Operation::Alu(AluOp::Xor, Source::Reg(a), Source::Reg(b), Dest::Reg(c)),
        Instruction::XorZRR(a, b, c) => Operation::Alu(AluOp::Xor, Source::Page(a), Source::Reg(b), Dest::Reg(c)),
        Instruction::XorRRZ(a, b, c) => Operation::Alu(AluOp::Xor, Source::Reg(a), Source::Reg(b), Dest::Page(c)),
        Instruction::XorRZZ(a, b, c) => Operation::Alu(AluOp::Xor, Source::Reg(a), Source::Page(b), Dest::Page(c)),
        Instruction::XorZZZ(a, b, c) => Operation::Alu(AluOp::Xor, Source::Page(a), Source::Page(b), Dest::Page(c)),
        Instruction::NotRR(a, b) => Operation::Not(Source::Reg(a), Dest::Reg(b)),
        Instruction::NotZR(a, b) => Operation::Not(Source::Page(a), Dest::Reg(b)),
        Instruction::NotRZ(a, b) => Operation::Not(Source::Reg(a), Dest::Page(b)),
        Instruction::NotZZ(a, b) => Operation::Not(Source::Page(a), Dest::Page(b)),
        Instruction::DecR1(a) => Operation::Alu(AluOp::Sub, Source::Reg(a), Source::Const(1), Dest::Reg(a)),
        Instruction::DecR4(a) => Operation::Alu(AluOp::Sub, Source::Reg(a), Source::Const(4), Dest::Reg(a)),
        Instruction::RemRRR(a, b, c) => Operation::Alu(AluOp::Rem, Source::Reg(a), Source::Reg(b), Dest::Reg(c)),
        Instruction::RemZRR(a, b, c) => Operation::Alu(AluOp::Rem, Source::Page(a), Source::Reg(b), Dest::Reg(c)),
        Instruction::RemRZR(a, b, c) => Operation::Alu(AluOp::Rem, Source::Reg(a), Source::Page(b), Dest::Reg(c)),
        Instruction::RemRRZ(a, b, c) => Operation::Alu(AluOp::Rem, Source::Reg(a), Source::Reg(b), Dest::Page(c)),
        Instruction::RemRZZ(a, b, c) => Operation::Alu(AluOp::Rem, Source::Reg(a), Source::Page(b), Dest::Page(c)),
        Instruction::RemZZZ(a, b, c) => Operation::Alu(AluOp::Rem, Source::Page(a), Source::Page(b), Dest::Page(c)),
        Instruction::ShlRRR(a, b, c) => Operation::Alu(AluOp::Shl, Source::Reg(a), Source::Reg(b), Dest::Reg(c)),
        Instruction::ShlZRR(a, b, c) => Operation::Alu(AluOp::Shl, Source::Page(a), Source::Reg(b), Dest::Reg(c)),
        Instruction::ShlRCR(a, b, c) => Operation::Alu(AluOp::Shl, Source::Reg(a), Source::Const(b), Dest::Reg(c)),
        Instruction::ShlZCR(a, b, c) => Operation::Alu(AluOp::Shl, Source::Page(a), Source::Const(b), Dest::Reg(c)),
        Instruction::ShlRCZ(a, b, c) => Operation::Alu(AluOp::Shl, Source::Reg(a), Source::Const(b), Dest::Page(c)),
        Instruction::ShlZCZ(a, b, c) => Operation::Alu(AluOp::Shl, Source::Page(a), Source::Const(b), Dest::Page(c)),
        Instruction::ShrRRR(a, b, c) => Operation::Alu(AluOp::Shr, Source::Reg(a), Source::Reg(b), Dest::Reg(c)),
        Instruction::ShrZRR(a, b, c) => Operation::Alu(AluOp::Shr, Source::Page(a), Source::Reg(b), Dest::Reg(c)),
        Instruction::ShrRCR(a, b, c) => Operation::Alu(AluOp::Shr, Source::Reg(a), Source::Const(b), Dest::Reg(c)),
        Instruction::ShrZCR(a, b, c) => Operation::Alu(AluOp::Shr, Source::Page(a), Source::Const(b), Dest::Reg(c)),
        Instruction::ShrRCZ(a, b, c) => Operation::Alu(AluOp::Shr, Source::Reg(a), Source::Const(b), Dest::Page(c)),
        Instruction::ShrZCZ(a, b, c) => Operation::Alu(AluOp::Shr, Source::Page(a), Source::Const(b), Dest::Page(c)),
        Instruction::PrintChar_R(a) => Operation::PrintChar(CharSource::Reg(a)),
        Instruction::PrintChar_C8(a) => Operation::PrintChar(CharSource::Const(a)),
        Instruction::MovRR(a, b) => Operation::Move(a, b),
        Instruction::Mov44(a) => Operation::Move(a % 16, a / 16),
        Instruction::ConstRegU8(a, b) => Operation::Load(a, b as u32),
        Instruction::ConstRegU16(a, b) => Operation::Load(a, b as u32),
        Instruction::ConstRegU32(a, b) => Operation::Load(a, b),
        Instruction::SetZF => Operation::SetZero(true),
        Instruction::ClrZF => Operation::SetZero(false),
        Instruction::SetCF => Operation::SetCarry(true),
        Instruction::ClrCF => Operation::SetCarry(false),
        Instruction::IntEnable => Operation::SetInterrupts(true),
        Instruction::IntDisable => Operation::SetInterrupts(false),
        Instruction::ExplicitHaltAndExit => Operation::Halt,
        Instruction::DebugPrintReg(a) => Operation::ShowReg(a),
        Instruction::PrintCharAcc => Operation::PrintChar(CharSource::Acc),
        Instruction::DebugPrintAcc => Operation::ShowAcc,
        Instruction::DebugPrintAll => Operation::ShowAll,
        Instruction::MovR1ToR0 => Operation::Move(1, 0),
        Instruction::MovR0ToR1 => Operation::Move(0, 1),
        Instruction::MovR2ToR0 => Operation::Move(2, 0),
        Instruction::MovR2ToR1 => Operation::Move(2, 1),
        Instruction::AddR0R1 => Operation::Alu(AluOp::Add, Source::Reg(0), Source::Reg(1), Dest::Reg(2)),
        Instruction::AddcR0R1 => Operation::Alu(AluOp::AddCarry, Source::Reg(0), Source::Reg(1), Dest::Reg(2)),
        Instruction::SubR0R1 => Operation::Alu(AluOp::Sub, Source::Reg(0), Source::Reg(1), Dest::Reg(2)),
        Instruction::SubbR0R1 => Operation::Alu(AluOp::SubBorrow, Source::Reg(0), Source::Reg(1), Dest::Reg(2)),
        Instruction::MulR0R1 => Operation::Alu(AluOp::Mul, Source::Reg(0), Source::Reg(1), Dest::Reg(2)),
        Instruction::DivR0R1 => Operation::Alu(AluOp::Div, Source::Reg(0), Source::Reg(1), Dest::Reg(2)),
        Instruction::AndR0R1 => Operation::Alu(AluOp::And, Source::Reg(0), Source::Reg(1), Dest::Reg(2)),
        Instruction::OrR0R1 => Operation::Alu(AluOp::Or, Source::Reg(0), Source::Reg(1), Dest::Reg(2)),
        Instruction::XorR0R1 => Operation::Alu(AluOp::Xor, Source::Reg(0), Source::Reg(1), Dest::Reg(2)),
        Instruction::NotR0 => Operation::Not(Source::Reg(0), Dest::Reg(2)),
        Instruction::RemR0R1 => Operation::Alu(AluOp::Rem, Source::Reg(0), Source::Reg(1), Dest::Reg(2)),
        _ => Operation::Undefined,
    }
}

impl Instruction {
    /// The operation that this instruction performs.
    pub fn operation(&self) -> (r: Operation)
        ensures
            r == operation_of(*self),
    {
        match *self {
            Instruction::Nop => Operation::Nop,
            Instruction::JmpConst24(a) => Operation::Jump(Condition::Always, Target::Absolute(a)),
            Instruction::JmpConst32(a) => Operation::Jump(Condition::Always, Target::Absolute(a)),
            Instruction::JmpOffsetA8(a) => Operation::Jump(Condition::Always, Target::Forward(a as u32)),
            Instruction::JmpOffsetS8(a) => Operation::Jump(Condition::Always, Target::Backward(a as u32)),
            Instruction::JmpOffsetA16(a) => Operation::Jump(Condition::Always, Target::Forward(a as u32)),
            Instruction::JmpOffsetS16(a) => Operation::Jump(Condition::Always, Target::Backward(a as u32)),
            Instruction::JmpOffsetA32(a) => Operation::Jump(Condition::Always, Target::Forward(a)),
            Instruction::JmpOffsetS32(a) => Operation::Jump(Condition::Always, Target::Backward(a)),
            Instruction::JCConst24(a) => Operation::Jump(Condition::Carry, Target::Absolute(a)),
            Instruction::JCConst32(a) => Operation::Jump(Condition::Carry, Target::Absolute(a)),
            Instruction::JCOffsetA8(a) => Operation::Jump(Condition::Carry, Target::Forward(a as u32)),
            Instruction::JCOffsetS8(a) => Operation::Jump(Condition::Carry, Target::Backward(a as u32)),
            Instruction::JCOffsetA16(a) => Operation::Jump(Condition::Carry, Target::Forward(a as u32)),
            Instruction::JCOffsetS16(a) => Operation::Jump(Condition::Carry, Target::Backward(a as u32)),
            Instruction::JCOffsetA32(a) => Operation::Jump(Condition::Carry, Target::Forward(a)),
            Instruction::JCOffsetS32(a) => Operation::Jump(Condition::Carry, Target::Backward(a)),
            Instruction::JNCConst24(a) => Operation::Jump(Condition::NoCarry, Target::Absolute(a)),
            Instruction::JNCConst32(a) => Operation::Jump(Condition::NoCarry, Target::Absolute(a)),
            Instruction::JNCOffsetA8(a) => Operation::Jump(Condition::NoCarry, Target::Forward(a as u32)),
            Instruction::JNCOffsetS8(a) => Operation::Jump(Condition::NoCarry, Target::Backward(a as u32)),
            Instruction::JNCOffsetA16(a) => Operation::Jump(Condition::NoCarry, Target::Forward(a as u32)),
            Instruction::JNCOffsetS16(a) => Operation::Jump(Condition::NoCarry, Target::Backward(a as u32)),
            Instruction::JNCOffsetA32(a) => Operation::Jump(Condition::NoCarry, Target::Forward(a)),
            Instruction::JNCOffsetS32(a) => Operation::Jump(Condition::NoCarry, Target::Backward(a)),
            Instruction::JZConst24(a) => Operation::Jump(Condition::Zero, Target::Absolute(a)),
            Instruction::JZConst32(a) => Operation::Jump(Condition::Zero, Target::Absolute(a)),
            Instruction::JZOffsetA8(a) => Operation::Jump(Condition::Zero, Target::Forward(a as u32)),
            Instruction::JZOffsetS8(a) => Operation::Jump(Condition::Zero, Target::Backward(a as u32)),
            Instruction::JZOffsetA16(a) => Operation::Jump(Condition::Zero, Target::Forward(a as u32)),
            Instruction::JZOffsetS16(a) => Operation::Jump(Condition::Zero, Target::Backward(a as u32)),
            Instruction::JZOffsetA32(a) => Operation::Jump(Condition::Zero, Target::Forward(a)),
            Instruction::JZOffsetS32(a) => Operation::Jump(Condition::Zero, Target::Backward(a)),
            Instruction::JNZConst24(a) => Operation::Jump(Condition::NotZero, Target::Absolute(a)),
            Instruction::JNZConst32(a) => Operation::Jump(Condition::NotZero, Target::Absolute(a)),
            Instruction::JNZOffsetA8(a) => Operation::Jump(Condition::NotZero, Target::Forward(a as u32)),
            Instruction::JNZOffsetS8(a) => Operation::Jump(Condition::NotZero, Target::Backward(a as u32)),
            Instruction::JNZOffsetA16(a) => Operation::Jump(Condition::NotZero, Target::Forward(a as u32)),
            Instruction::JNZOffsetS16(a) => Operation::Jump(Condition::NotZero, Target::Backward(a as u32)),
            Instruction::JNZOffsetA32(a) => Operation::Jump(Condition::NotZero, Target::Forward(a)),
            Instruction::JNZOffsetS32(a) => Operation::Jump(Condition::NotZero, Target::Backward(a)),
            Instruction::AddRRR(a, b, c) => Operation::Alu(AluOp::Add, Source::Reg(a), Source::Reg(b), Dest::Reg(c)),
            Instruction::AddZRR(a, b, c) => Operation::Alu(AluOp::Add, Source::Page(a), Source::Reg(b), Dest::Reg(c)),
            Instruction::IncR1(a) => Operation::Alu(AluOp::Add, Source::Reg(a), Source::Const(1), Dest::Reg(a)),
            Instruction::AddRRZ(a, b, c) => Operation::Alu(AluOp::Add, Source::Reg(a), Source::Reg(b), Dest::Page(c)),
            Instruction::AddRZZ(a, b, c) => Operation::Alu(AluOp::Add, Source::Reg(a), Source::Page(b), Dest::Page(c)),
            Instruction::AddZZZ(a, b, c) => Operation::Alu(AluOp::Add, Source::Page(a), Source::Page(b), Dest::Page(c)),
            Instruction::AddcRRR(a, b, c) => Operation::Alu(AluOp::AddCarry, Source::Reg(a), Source::Reg(b), Dest::Reg(c)),
            Instruction::AddcZRR(a, b, c) => Operation::Alu(AluOp::AddCarry, Source::Page(a), Source::Reg(b), Dest::Reg(c)),
            Instruction::IncR4(a) => Operation::Alu(AluOp::Add, Source::Reg(a), Source::Const(4), Dest::Reg(a)),
            Instruction::AddcRRZ(a, b, c) => Operation::Alu(AluOp::AddCarry, Source::Reg(a), Source::Reg(b), Dest::Page(c)),
            Instruction::AddcRZZ(a, b, c) => Operation::Alu(AluOp::AddCarry, Source::Reg(a), Source::Page(b), Dest::Page(c)),
            Instruction::AddcZZZ(a, b, c) => Operation::Alu(AluOp::AddCarry, Source::Page(a), Source::Page(b), Dest::Page(c)),
            Instruction::SubRRR(a, b, c) => Operation::Alu(AluOp::Sub, Source::Reg(a), Source::Reg(b), Dest::Reg(c)),
            Instruction::SubZRR(a, b, c) => Operation::Alu(AluOp::Sub, Source::Page(a), Source::Reg(b), Dest::Reg(c)),
            Instruction::SubRZR(a, b, c) => Operation::Alu(AluOp::Sub, Source::Reg(a), Source::Page(b), Dest::Reg(c)),
            Instruction::SubRRZ(a, b, c) => Operation::Alu(AluOp::Sub, Source::Reg(a), Source::Reg(b), Dest::Page(c)),
            Instruction::SubRZZ(a, b, c) => Operation::Alu(AluOp::Sub, Source::Reg(a), Source::Page(b), Dest::Page(c)),
            Instruction::SubZZZ(a, b, c) => Operation::Alu(AluOp::Sub, Source::Page(a), Source::Page(b), Dest::Page(c)),
            Instruction::SubbRRR(a, b, c) => Operation::Alu(AluOp::SubBorrow, Source::Reg(a), Source::Reg(b), Dest::Reg(c)),
            Instruction::SubbZRR(a, b, c) => Operation::Alu(AluOp::SubBorrow, Source::Page(a), Source::Reg(b), Dest::Reg(c)),
            Instruction::SubbRZR(a, b, c) => Operation::Alu(AluOp::SubBorrow, Source::Reg(a), Source::Page(b), Dest::Reg(c)),
            Instruction::SubbRRZ(a, b, c) => Operation::Alu(AluOp::SubBorrow, Source::Reg(a), Source::Reg(b), Dest::Page(c)),
            Instruction::SubbRZZ(a, b, c) => Operation::Alu(AluOp::SubBorrow, Source::Reg(a), Source::Page(b), Dest::Page(c)),
            Instruction::SubbZZZ(a, b, c) => Operation::Alu(AluOp::SubBorrow, Source::Page(a), Source::Page(b), Dest::Page(c)),
            Instruction::MulRRR(a, b, c) => Operation::Alu(AluOp::Mul, Source::Reg(a), Source::Reg(b), Dest::Reg(c)),
            Instruction::MulZRR(a, b, c) => Operation::Alu(AluOp::Mul, Source::Page(a), Source::Reg(b), Dest::Reg(c)),
            Instruction::MulRRZ(a, b, c) => Operation::Alu(AluOp::Mul, Source::Reg(a), Source::Reg(b), Dest::Page(c)),
            Instruction::MulRZZ(a, b, c) => Operation::Alu(AluOp::Mul, Source::Reg(a), Source::Page(b), Dest::Page(c)),
            Instruction::MulZZZ(a, b, c) => Operation::Alu(AluOp::Mul, Source::Page(a), Source::Page(b), Dest::Page(c)),
            Instruction::DivRRR(a, b, c) => Operation::Alu(AluOp::Div, Source::Reg(a), Source::Reg(b), Dest::Reg(c)),
            Instruction::DivZRR(a, b, c) => Operation::Alu(AluOp::Div, Source::Page(a), Source::Reg(b), Dest::Reg(c)),
            Instruction::DivRZR(a, b, c) => Operation::Alu(AluOp::Div, Source::Reg(a), Source::Page(b), Dest::Reg(c)),
            Instruction::DivRRZ(a, b, c) => Operation::Alu(AluOp::Div, Source::Reg(a), Source::Reg(b), Dest::Page(c)),
            Instruction::DivRZZ(a, b, c) => Operation::Alu(AluOp::Div, Source::Reg(a), Source::Page(b), Dest::Page(c)),
            Instruction::DivZZZ(a, b, c) => Operation::Alu(AluOp::Div, Source::Page(a), Source::Page(b), Dest::Page(c)),
            Instruction::AndRRR(a, b, c) => Operation::Alu(AluOp::And, Source::Reg(a), Source::Reg(b), Dest::Reg(c)),
            Instruction::AndZRR(a, b, c) => Operation::Alu(AluOp::And, Source::Page(a), Source::Reg(b), Dest::Reg(c)),
            Instruction::AndRRZ(a, b, c) => Operation::Alu(AluOp::And, Source::Reg(a), Source::Reg(b), Dest::Page(c)),
            Instruction::AndRZZ(a, b, c) => Operation::Alu(AluOp::And, Source::Reg(a), Source::Page(b), Dest::Page(c)),
            Instruction::AndZZZ(a, b, c) => Operation::Alu(AluOp::And, Source::Page(a), Source::Page(b), Dest::Page(c)),
            Instruction::OrRRR(a, b, c) => Operation::Alu(AluOp::Or, Source::Reg(a), Source::Reg(b), Dest::Reg(c)),
            Instruction::OrZRR(a, b, c) => Operation::Alu(AluOp::Or, Source::Page(a), Source::Reg(b), Dest::Reg(c)),
            Instruction::OrRRZ(a, b, c) => Operation::Alu(AluOp::Or, Source::Reg(a), Source::Reg(b), Dest::Page(c)),
            Instruction::OrRZZ(a, b, c) => Operation::Alu(AluOp::Or, Source::Reg(a), Source::Page(b), Dest::Page(c)),
            Instruction::OrZZZ(a, b, c) => Operation::Alu(AluOp::Or, Source::Page(a), Source::Page(b), Dest::Page(c)),
            Instruction::XorRRR(a, b, c) => Operation::Alu(AluOp::Xor, Source::Reg(a), Source::Reg(b), Dest::Reg(c)),
            Instruction::XorZRR(a, b, c) => Operation::Alu(AluOp::Xor, Source::Page(a), Source::Reg(b), Dest::Reg(c)),
            Instruction::XorRRZ(a, b, c) => Operation::Alu(AluOp::Xor, Source::Reg(a), Source::Reg(b), Dest::Page(c)),
            Instruction::XorRZZ(a, b, c) => Operation::Alu(AluOp::Xor, Source::Reg(a), Source::Page(b), Dest::Page(c)),
            Instruction::XorZZZ(a, b, c) => Operation::Alu(AluOp::Xor, Source::Page(a), Source::Page(b), Dest::Page(c)),
            Instruction::NotRR(a, b) => Operation::Not(Source::Reg(a), Dest::Reg(b)),
            Instruction::NotZR(a, b) => Operation::Not(Source::Page(a), Dest::Reg(b)),
            Instruction::NotRZ(a, b) => Operation::Not(Source::Reg(a), Dest::Page(b)),
            Instruction::NotZZ(a, b) => Operation::Not(Source::Page(a), Dest::Page(b)),
            Instruction::DecR1(a) => Operation::Alu(AluOp::Sub, Source::Reg(a), Source::Const(1), Dest::Reg(a)),
            Instruction::DecR4(a) => Operation::Alu(AluOp::Sub, Source::Reg(a), Source::Const(4), Dest::Reg(a)),
            Instruction::RemRRR(a, b, c) => Operation::Alu(AluOp::Rem, Source::Reg(a), Source::Reg(b), Dest::Reg(c)),
            Instruction::RemZRR(a, b, c) => Operation::Alu(AluOp::Rem, Source::Page(a), Source::Reg(b), Dest::Reg(c)),
            Instruction::RemRZR(a, b, c) => Operation::Alu(AluOp::Rem, Source::Reg(a), Source::Page(b), Dest::Reg(c)),
            Instruction::RemRRZ(a, b, c) => Operation::Alu(AluOp::Rem, Source::Reg(a), Source::Reg(b), Dest::Page(c)),
            Instruction::RemRZZ(a, b, c) => Operation::Alu(AluOp::Rem, Source::Reg(a), Source::Page(b), Dest::Page(c)),
            Instruction::RemZZZ(a, b, c) => Operation::Alu(AluOp::Rem, Source::Page(a), Source::Page(b), Dest::Page(c)),
            Instruction::ShlRRR(a, b, c) => Operation::Alu(AluOp::Shl, Source::Reg(a), Source::Reg(b), Dest::Reg(c)),
            Instruction::ShlZRR(a, b, c) => Operation::Alu(AluOp::Shl, Source::Page(a), Source::Reg(b), Dest::Reg(c)),
            Instruction::ShlRCR(a, b, c) => Operation::Alu(AluOp::Shl, Source::Reg(a), Source::Const(b), Dest::Reg(c)),
            Instruction::ShlZCR(a, b, c) => Operation::Alu(AluOp::Shl, Source::Page(a), Source::Const(b), Dest::Reg(c)),
            Instruction::ShlRCZ(a, b, c) => Operation::Alu(AluOp::Shl, Source::Reg(a), Source::Const(b), Dest::Page(c)),
            Instruction::ShlZCZ(a, b, c) => Operation::Alu(AluOp::Shl, Source::Page(a), Source::Const(b), Dest::Page(c)),
            Instruction::ShrRRR(a, b, c) => Operation::Alu(AluOp::Shr, Source::Reg(a), Source::Reg(b), Dest::Reg(c)),
            Instruction::ShrZRR(a, b, c) => Operation::Alu(AluOp::Shr, Source::Page(a), Source::Reg(b), Dest::Reg(c)),
            Instruction::ShrRCR(a, b, c) => Operation::Alu(AluOp::Shr, Source::Reg(a), Source::Const(b), Dest::Reg(c)),
            Instruction::ShrZCR(a, b, c) => Operation::Alu(AluOp::Shr, Source::Page(a), Source::Const(b), Dest::Reg(c)),
            Instruction::ShrRCZ(a, b, c) => Operation::Alu(AluOp::Shr, Source::Reg(a), Source::Const(b), Dest::Page(c)),
            Instruction::ShrZCZ(a, b, c) => Operation::Alu(AluOp::Shr, Source::Page(a), Source::Const(b), Dest::Page(c)),
            Instruction::PrintChar_R(a) => Operation::PrintChar(CharSource::Reg(a)),
            Instruction::PrintChar_C8(a) => Operation::PrintChar(CharSource::Const(a)),
            Instruction::MovRR(a, b) => Operation::Move(a, b),
            Instruction::Mov44(a) => Operation::Move(a % 16, a / 16),
            Instruction::ConstRegU8(a, b) => Operation::Load(a, b as u32),
            Instruction::ConstRegU16(a, b) => Operation::Load(a, b as u32),
            Instruction::ConstRegU32(a, b) => Operation::Load(a, b),
            Instruction::SetZF => Operation::SetZero(true),
            Instruction::ClrZF => Operation::SetZero(false),
            Instruction::SetCF => Operation::SetCarry(true),
            Instruction::ClrCF => Operation::SetCarry(false),
            Instruction::IntEnable => Operation::SetInterrupts(true),
            Instruction::IntDisable => Operation::SetInterrupts(false),
            Instruction::ExplicitHaltAndExit => Operation::Halt,
            Instruction::DebugPrintReg(a) => Operation::ShowReg(a),
            Instruction::PrintCharAcc => Operation::PrintChar(CharSource::Acc),
            Instruction::DebugPrintAcc => Operation::ShowAcc,
            Instruction::DebugPrintAll => Operation::ShowAll,
            Instruction::MovR1ToR0 => Operation::Move(1, 0),
            Instruction::MovR0ToR1 => Operation::Move(0, 1),
            Instruction::MovR2ToR0 => Operation::Move(2, 0),
            Instruction::MovR2ToR1 => Operation::Move(2, 1),
            Instruction::AddR0R1 => Operation::Alu(AluOp::Add, Source::Reg(0), Source::Reg(1), Dest::Reg(2)),
            Instruction::AddcR0R1 => Operation::Alu(AluOp::AddCarry, Source::Reg(0), Source::Reg(1), Dest::Reg(2)),
            Instruction::SubR0R1 => Operation::Alu(AluOp::Sub, Source::Reg(0), Source::Reg(1), Dest::Reg(2)),
            Instruction::SubbR0R1 => Operation::Alu(AluOp::SubBorrow, Source::Reg(0), Source::Reg(1), Dest::Reg(2)),
            Instruction::MulR0R1 => Operation::Alu(AluOp::Mul, Source::Reg(0), Source::Reg(1), Dest::Reg(2)),
            Instruction::DivR0R1 => Operation::Alu(AluOp::Div, Source::Reg(0), Source::Reg(1), Dest::Reg(2)),
            Instruction::AndR0R1 => Operation::Alu(AluOp::And, Source::Reg(0), Source::Reg(1), Dest::Reg(2)),
            Instruction::OrR0R1 => Operation::Alu(AluOp::Or, Source::Reg(0), Source::Reg(1), Dest::Reg(2)),
            Instruction::XorR0R1 => Operation::Alu(AluOp::Xor, Source::Reg(0), Source::Reg(1), Dest::Reg(2)),
            Instruction::NotR0 => Operation::Not(Source::Reg(0), Dest::Reg(2)),
            Instruction::RemR0R1 => Operation::Alu(AluOp::Rem, Source::Reg(0), Source::Reg(1), Dest::Reg(2)),
            _ => Operation::Undefined,
        }
    }
}

} // verus!
