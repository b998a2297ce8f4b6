//! The execution engine: CPU state and the fetch-decode-execute step.
use vstd::prelude::*;
use crate::bytes::{byte_of, lemma_join_split, u32_join, u32_split, word_of};
use crate::decode::{
    decode, decoding, has_variant, known_opcode, lemma_decode_encoding, operand_len, DecodeError,
};
use crate::encode::encoding;
use crate::isa::{
    operation_of, AluOp, CharSource, Condition, Dest, Instruction, Operation, Source, Target,
};

verus! {

/// Register index of the instruction pointer.
pub const IP: usize = 0x8;
/// Register index of the stack pointer.
pub const SP: usize = 0x9;
/// Register index of the interrupt return pointer.
pub const RP: usize = 0xa;
/// Register index of the temp register.
pub const TR: usize = 0xb;
/// Register index of the index register.
pub const IX: usize = 0xc;
/// Number of slots in the register file.
pub const REGISTER_COUNT: usize = 16;

/// Fault: the program asked to halt.
pub const EXPLICIT_HALT_AND_EXIT: u8 = 0x01;
/// Fault: the opcode byte names no instruction.
pub const INVALID_INSTRUCTION: u8 = 0x10;
/// Fault: the variant byte names no member of the opcode's family.
pub const INVALID_INSTRUCTION_VARIANT: u8 = 0x11;
/// Fault: a register operand is not an index of the register file.
pub const INVALID_REGISTER: u8 = 0x12;
/// Fault: a value to print is not a Unicode scalar value.
pub const INVALID_CHAR: u8 = 0x20;
/// Fault: a division or remainder by zero.
pub const DIVISION_BY_ZERO: u8 = 0x21;
/// Fault: an access outside instruction or data memory.
pub const INVALID_ADDRESS: u8 = 0x30;

/// Where a loaded program starts: the instruction pointer after `load_code`.
pub const LOAD_BASE: u32 = 0x100;
/// Where the interrupt vectors start; vector `k` is at `VECTOR_BASE + 8 * k`.
pub const VECTOR_BASE: u32 = 0x000;
/// Interrupt indices run below this bound, so that the vectors end at `LOAD_BASE`.
pub const INTERRUPT_COUNT: u8 = 32;

/// The abstract state of the machine.
pub struct MachineView {
    /// The register file, 16 slots.
    pub reg: Seq<u32>,
    pub z: bool,
    pub c: bool,
    pub int_enable: bool,
    /// Index of the pending interrupt; 0 when none is pending.
    pub int_idx: u8,
    /// 0 while running; otherwise the fault code.
    pub fault: u8,
    pub acc: u32,
    pub i_mem: Seq<u8>,
    pub d_mem: Seq<u8>,
}

/// Whether the machine runs or has stopped on a fault.
#[derive(Clone, Copy, Debug, PartialEq, Eq, Structural)]
pub enum MachineState {
    Running,
    Faulted(u8),
}

/// What one step hands to the outside world.
#[derive(Clone, Copy, Debug, PartialEq, Eq, Structural)]
pub enum Output {
    /// Nothing to show.
    Quiet,
    /// A character to print.
    Char(char),
    /// A value to show, from a debug instruction.
    Value(u32),
    /// All registers and flags are to be shown, from a debug instruction.
    Registers,
    /// The machine is stopped with this fault code.
    Fault(u8),
}

/// Whether `v` is a Unicode scalar value.
pub open spec fn is_scalar(v: u32) -> bool {
    v < 0xd800 || (0xe000 <= v && v < 0x11_0000)
}

/// `x` taken modulo 2^32.
pub open spec fn wrap(x: int) -> u32 {
    (x % 0x1_0000_0000) as u32
}

/// Result and carry-out of an arithmetic or logical operation, or `None` for a division by zero.
pub open spec fn alu_result(op: AluOp, a: u32, b: u32, carry: bool) -> Option<(u32, bool)> {
    let cin: int = if carry { 1 } else { 0 };
    match op {
        AluOp::Add => Some((wrap(a + b), a + b >= 0x1_0000_0000)),
        AluOp::AddCarry => Some((wrap(a + b + cin), a + b + cin >= 0x1_0000_0000)),
        AluOp::Sub => Some((wrap(a - b + 0x1_0000_0000), a < b)),
        AluOp::SubBorrow => Some((wrap(a - b - cin + 0x1_0000_0000), a < b + cin)),
        AluOp::Mul => Some((wrap(a * b), a * b >= 0x1_0000_0000)),
        AluOp::Div => if b == 0 { None } else { Some(((a / b) as u32, false)) },
        AluOp::Rem => if b == 0 { None } else { Some(((a % b) as u32, false)) },
        AluOp::And => Some((a & b, false)),
        AluOp::Or => Some((a | b, false)),
        AluOp::Xor => Some((a ^ b, false)),
        AluOp::Shl => Some((a << (b % 32) as u32, b >= 32)),
        AluOp::Shr => Some((a >> (b % 32) as u32, b >= 32)),
    }
}

/// Where a jump from `ip` to `t` lands.
pub open spec fn jump_target(ip: u32, t: Target) -> u32 {
    match t {
        Target::Absolute(x) => x,
        Target::Forward(x) => wrap(ip + x),
        Target::Backward(x) => wrap(ip - x + 0x1_0000_0000),
    }
}

/// The fault code for a failed decode.
pub open spec fn decode_fault(e: DecodeError) -> u8 {
    match e {
        DecodeError::InvalidOpcode => INVALID_INSTRUCTION,
        DecodeError::InvalidVariant => INVALID_INSTRUCTION_VARIANT,
        DecodeError::OutOfBounds => INVALID_ADDRESS,
    }
}

impl MachineView {
    pub open spec fn ip(self) -> u32 {
        self.reg[IP as int]
    }

    pub open spec fn set_reg(self, r: int, v: u32) -> MachineView {
        MachineView { reg: self.reg.update(r, v), ..self }
    }

    pub open spec fn faulted(self, code: u8) -> MachineView {
        MachineView { fault: code, ..self }
    }

    /// Whether zero-page slot `p` lies inside data memory.
    pub open spec fn page_ok(self, p: u8) -> bool {
        4 * p + 4 <= self.d_mem.len()
    }

    /// The word in zero-page slot `p`: data-memory bytes `[4p, 4p + 4)`, least significant first.
    pub open spec fn page(self, p: u8) -> u32 {
        let k = 4 * p;
        word_of(self.d_mem[k], self.d_mem[k + 1], self.d_mem[k + 2], self.d_mem[k + 3])
    }

    /// The state with `v` stored in zero-page slot `p`.
    pub open spec fn set_page(self, p: u8, v: u32) -> MachineView {
        let k = 4 * p;
        MachineView {
            d_mem: self.d_mem.update(k, byte_of(v, 0)).update(k + 1, byte_of(v, 1)).update(
                k + 2,
                byte_of(v, 2),
            ).update(k + 3, byte_of(v, 3)),
            ..self
        }
    }

    /// The fault that reading `a` raises, if any.
    pub open spec fn source_fault(self, a: Source) -> Option<u8> {
        match a {
            Source::Reg(r) => if r < 16 { None } else { Some(INVALID_REGISTER) },
            Source::Page(p) => if self.page_ok(p) { None } else { Some(INVALID_ADDRESS) },
            Source::Const(_) => None,
        }
    }

    pub open spec fn source_value(self, a: Source) -> u32 {
        match a {
            Source::Reg(r) => self.reg[r as int],
            Source::Page(p) => self.page(p),
            Source::Const(k) => k as u32,
        }
    }

    /// The fault that writing `d` raises, if any.
    pub open spec fn dest_fault(self, d: Dest) -> Option<u8> {
        match d {
            Dest::Reg(r) => if r < 16 { None } else { Some(INVALID_REGISTER) },
            Dest::Page(p) => if self.page_ok(p) { None } else { Some(INVALID_ADDRESS) },
        }
    }

    pub open spec fn write(self, d: Dest, v: u32) -> MachineView {
        match d {
            Dest::Reg(r) => self.set_reg(r as int, v),
            Dest::Page(p) => self.set_page(p, v),
        }
    }

    /// The state after a result `n` with carry-out `carry` is written to `d`.
    pub open spec fn write_result(self, d: Dest, n: u32, carry: bool) -> MachineView {
        MachineView { z: n == 0, c: carry, ..self.write(d, n) }
    }

    pub open spec fn condition_holds(self, cond: Condition) -> bool {
        match cond {
            Condition::Always => true,
            Condition::Carry => self.c,
            Condition::NoCarry => !self.c,
            Condition::Zero => self.z,
            Condition::NotZero => !self.z,
        }
    }

    /// The state after interrupt entry, where an interrupt is enabled and pending.
    pub open spec fn enter_interrupt(self) -> MachineView {
        if self.int_enable && self.int_idx != 0 {
            MachineView {
                int_enable: false,
                reg: self.reg.update(RP as int, self.ip()).update(
                    IP as int,
                    (VECTOR_BASE + 8 * self.int_idx) as u32,
                ),
                ..self
            }
        } else {
            self
        }
    }
}

/// What performing `op` does to `s`: the new state and output, or the fault it raises.
pub open spec fn apply(s: MachineView, op: Operation) -> Result<(MachineView, Output), u8> {
    match op {
        Operation::Nop => Ok((s, Output::Quiet)),
        Operation::Jump(cond, t) => if s.condition_holds(cond) {
            Ok((s.set_reg(IP as int, jump_target(s.ip(), t)), Output::Quiet))
        } else {
            Ok((s, Output::Quiet))
        },
        Operation::Alu(f, a, b, d) => if s.source_fault(a) is Some {
            Err(s.source_fault(a)->0)
        } else if s.source_fault(b) is Some {
            Err(s.source_fault(b)->0)
        } else if s.dest_fault(d) is Some {
            Err(s.dest_fault(d)->0)
        } else {
            match alu_result(f, s.source_value(a), s.source_value(b), s.c) {
                None => Err(DIVISION_BY_ZERO),
                Some((n, carry)) => Ok((s.write_result(d, n, carry), Output::Quiet)),
            }
        },
        Operation::Not(a, d) => if s.source_fault(a) is Some {
            Err(s.source_fault(a)->0)
        } else if s.dest_fault(d) is Some {
            Err(s.dest_fault(d)->0)
        } else {
            Ok((s.write_result(d, !s.source_value(a), false), Output::Quiet))
        },
        Operation::PrintChar(src) => {
            let v: u32 = match src {
                CharSource::Acc => s.acc,
                CharSource::Reg(r) => if r < 16 { s.reg[r as int] } else { 0 },
                CharSource::Const(k) => k as u32,
            };
            if src matches CharSource::Reg(r) && r >= 16 {
                Err(INVALID_REGISTER)
            } else if is_scalar(v) {
                Ok((s, Output::Char(v as char)))
            } else {
                Err(INVALID_CHAR)
            }
        },
        Operation::Move(from, to) => if from < 16 && to < 16 {
            Ok((s.set_reg(to as int, s.reg[from as int]), Output::Quiet))
        } else {
            Err(INVALID_REGISTER)
        },
        Operation::Load(r, v) => if r < 16 {
            Ok((s.set_reg(r as int, v), Output::Quiet))
        } else {
            Err(INVALID_REGISTER)
        },
        Operation::SetZero(b) => Ok((MachineView { z: b, ..s }, Output::Quiet)),
        Operation::SetCarry(b) => Ok((MachineView { c: b, ..s }, Output::Quiet)),
        Operation::SetInterrupts(b) => Ok((MachineView { int_enable: b, ..s }, Output::Quiet)),
        Operation::Halt => Err(EXPLICIT_HALT_AND_EXIT),
        Operation::ShowAcc => Ok((s, Output::Value(s.acc))),
        Operation::ShowReg(r) => if r < 16 {
            Ok((s, Output::Value(s.reg[r as int])))
        } else {
            Err(INVALID_REGISTER)
        },
        Operation::ShowAll => Ok((s, Output::Registers)),
        Operation::Undefined => Err(INVALID_INSTRUCTION),
    }
}

/// One fetch-decode-execute step.
///
/// A faulted machine stays as it is. Otherwise a pending, enabled interrupt is entered, the
/// instruction at IP is decoded, IP moves past it, and the instruction is performed. A step
/// that faults leaves the state as it was after interrupt entry, with the fault code recorded.
pub open spec fn step(s: MachineView) -> (MachineView, Output) {
    if s.fault != 0 {
        (s, Output::Fault(s.fault))
    } else {
        let s1 = s.enter_interrupt();
        match decoding(s1.i_mem, s1.ip() as int) {
            Err(e) => (s1.faulted(decode_fault(e)), Output::Fault(decode_fault(e))),
            Ok((i, n)) => {
                let s2 = s1.set_reg(IP as int, wrap(s1.ip() + n));
                match apply(s2, operation_of(i)) {
                    Ok((s3, out)) => (s3, out),
                    Err(f) => (s1.faulted(f), Output::Fault(f)),
                }
            },
        }
    }
}

/// Relies on `char::from_u32`: it returns the character for a Unicode scalar value, and
/// `None` for any other value.
#[verifier::external_body]
fn char_from_u32(v: u32) -> (r: Option<char>)
    ensures
        is_scalar(v) ==> r == Some(v as char),
        !is_scalar(v) ==> r is None,
{
    char::from_u32(v)
}

/// Result and carry-out of an arithmetic or logical operation, or `None` for a division by zero.
pub fn alu(op: AluOp, a: u32, b: u32, carry: bool) -> (r: Option<(u32, bool)>)
    ensures
        r == alu_result(op, a, b, carry),
{
    let cin: u64 = if carry { 1 } else { 0 };
    let x = a as u64;
    let y = b as u64;
    match op {
        AluOp::Add => Some((((x + y) % 0x1_0000_0000) as u32, x + y >= 0x1_0000_0000)),
        AluOp::AddCarry => Some(
            (((x + y + cin) % 0x1_0000_0000) as u32, x + y + cin >= 0x1_0000_0000),
        ),
        AluOp::Sub => Some((((x + 0x1_0000_0000 - y) % 0x1_0000_0000) as u32, a < b)),
        AluOp::SubBorrow => Some(
            (((x + 0x1_0000_0000 - y - cin) % 0x1_0000_0000) as u32, x < y + cin),
        ),
        AluOp::Mul => {
            proof {
                assert(x * y <= 0xffff_ffff * 0xffff_ffff) by (nonlinear_arith)
                    requires
                        x <= 0xffff_ffff,
                        y <= 0xffff_ffff,
                ;
            }
            let p = x * y;
            Some((((p % 0x1_0000_0000) as u32), p >= 0x1_0000_0000))
        },
        AluOp::Div => if b == 0 {
            None
        } else {
            Some((a / b, false))
        },
        AluOp::Rem => if b == 0 {
            None
        } else {
            Some((a % b, false))
        },
        AluOp::And => Some((a & b, false)),
        AluOp::Or => Some((a | b, false)),
        AluOp::Xor => Some((a ^ b, false)),
        AluOp::Shl => Some((a << (b % 32), b >= 32)),
        AluOp::Shr => Some((a >> (b % 32), b >= 32)),
    }
}

/// The emulated machine.
pub struct KMM0 {
    print_exec: bool,
    clock_hz: u32,
    uptime_cycles: u64,
    acc: u32,
    z: bool,
    c: bool,
    int_enable: bool,
    int_idx: u8,
    fault: u8,
    reg: [u32; 16],
    i_mem: Vec<u8>,
    d_mem: Vec<u8>,
}

impl View for KMM0 {
    type V = MachineView;

    closed spec fn view(&self) -> MachineView {
        MachineView {
            reg: self.reg@,
            z: self.z,
            c: self.c,
            int_enable: self.int_enable,
            int_idx: self.int_idx,
            fault: self.fault,
            acc: self.acc,
            i_mem: self.i_mem@,
            d_mem: self.d_mem@,
        }
    }
}

/// The state of a machine fresh from `KMM0::new`.
pub open spec fn zeroed() -> MachineView {
    MachineView {
        reg: Seq::new(16, |k: int| 0u32),
        z: false,
        c: false,
        int_enable: false,
        int_idx: 0,
        fault: 0,
        acc: 0,
        i_mem: Seq::empty(),
        d_mem: Seq::empty(),
    }
}

impl KMM0 {
    /// The register file has its 16 slots, and every instruction address fits in IP.
    pub open spec fn wf(&self) -> bool {
        &&& self@.reg.len() == 16
        &&& self@.i_mem.len() <= u32::MAX
        &&& self@.d_mem.len() <= u32::MAX
    }

    /// `self` and `other` agree on tracing, clock rate and cycle count.
    pub closed spec fn same_settings(&self, other: &KMM0) -> bool {
        &&& self.print_exec == other.print_exec
        &&& self.clock_hz == other.clock_hz
        &&& self.uptime_cycles == other.uptime_cycles
    }

    pub closed spec fn spec_traces(&self) -> bool {
        self.print_exec
    }

    pub closed spec fn spec_clock_hz(&self) -> u32 {
        self.clock_hz
    }

    pub closed spec fn spec_cycles(&self) -> u64 {
        self.uptime_cycles
    }

    /// A zeroed machine with no memory, no tracing and no throttling.
    pub fn new() -> (r: Self)
        ensures
            r.wf(),
            r@ == zeroed(),
            !r.spec_traces(),
            r.spec_clock_hz() == 0,
            r.spec_cycles() == 0,
    {
        let r = KMM0 {
            print_exec: false,
            clock_hz: 0,
            uptime_cycles: 0,
            acc: 0,
            z: false,
            c: false,
            int_enable: false,
            int_idx: 0,
            fault: 0,
            reg: [0u32; 16],
            i_mem: Vec::new(),
            d_mem: Vec::new(),
        };
        assert(r@.reg =~= zeroed().reg);
        assert(r@.i_mem =~= zeroed().i_mem);
        assert(r@.d_mem =~= zeroed().d_mem);
        r
    }

    /// Turns on the per-instruction trace.
    pub fn print_exec(self) -> (r: Self)
        ensures
            r@ == self@,
            r.spec_traces(),
            r.spec_clock_hz() == self.spec_clock_hz(),
            r.spec_cycles() == self.spec_cycles(),
    {
        let mut m = self;
        m.print_exec = true;
        m
    }

    /// Gives the machine `size` bytes of zeroed data memory.
    pub fn init_mem(self, size: usize) -> (r: Self)
        requires
            self.wf(),
            size <= u32::MAX,
        ensures
            r.wf(),
            r@ == (MachineView { d_mem: Seq::new(size as nat, |k: int| 0u8), ..self@ }),
            r.spec_traces() == self.spec_traces(),
            r.spec_clock_hz() == self.spec_clock_hz(),
            r.spec_cycles() == self.spec_cycles(),
    {
        let mut m = self;
        m.d_mem = vec![0u8; size];
        assert(m.d_mem@ =~= Seq::new(size as nat, |k: int| 0u8));
        m
    }

    /// Loads a memory image as instruction memory and points IP at `LOAD_BASE`.
    pub fn load_code(self, code: Vec<u8>) -> (r: Self)
        requires
            self.wf(),
            code@.len() <= u32::MAX,
        ensures
            r.wf(),
            r@ == (MachineView { i_mem: code@, ..self@.set_reg(IP as int, LOAD_BASE) }),
            r.spec_traces() == self.spec_traces(),
            r.spec_clock_hz() == self.spec_clock_hz(),
            r.spec_cycles() == self.spec_cycles(),
    {
        let mut m = self;
        m.i_mem = code;
        m.reg[IP] = LOAD_BASE;
        m
    }

    /// Sets the simulated clock rate in Hz; 0 means no throttling.
    pub fn clock_speed_hz(self, hz: u32) -> (r: Self)
        ensures
            r@ == self@,
            r.spec_traces() == self.spec_traces(),
            r.spec_clock_hz() == hz,
            r.spec_cycles() == self.spec_cycles(),
    {
        let mut m = self;
        m.clock_hz = hz;
        m
    }

    /// Counts one cycle.
    pub fn clock(&mut self)
        ensures
            final(self)@ == old(self)@,
            final(self).spec_traces() == old(self).spec_traces(),
            final(self).spec_clock_hz() == old(self).spec_clock_hz(),
            final(self).spec_cycles() == if old(self).spec_cycles() < u64::MAX {
                (old(self).spec_cycles() + 1) as u64
            } else {
                u64::MAX
            },
    {
        self.uptime_cycles = self.uptime_cycles.saturating_add(1);
    }

    /// Whether the per-instruction trace is on.
    pub fn traces(&self) -> (r: bool)
        ensures
            r == self.spec_traces(),
    {
        self.print_exec
    }

    /// The simulated clock rate in Hz; 0 means no throttling.
    pub fn clock_hz(&self) -> (r: u32)
        ensures
            r == self.spec_clock_hz(),
    {
        self.clock_hz
    }

    /// The number of steps executed so far.
    pub fn uptime_cycles(&self) -> (r: u64)
        ensures
            r == self.spec_cycles(),
    {
        self.uptime_cycles
    }

    /// The value of register `r`.
    pub fn reg(&self, r: usize) -> (v: u32)
        requires
            self.wf(),
            r < 16,
        ensures
            v == self@.reg[r as int],
    {
        self.reg[r]
    }

    pub fn ix_reg(&self) -> (r: usize)
        requires
            self.wf(),
        ensures
            r == self@.reg[IX as int],
    {
        self.reg[IX] as usize
    }

    pub fn ip_reg(&self) -> (r: usize)
        requires
            self.wf(),
        ensures
            r == self@.ip(),
    {
        self.reg[IP] as usize
    }

    pub fn sp_reg(&self) -> (r: usize)
        requires
            self.wf(),
        ensures
            r == self@.reg[SP as int],
    {
        self.reg[SP] as usize
    }

    pub fn zero_flag(&self) -> (r: bool)
        ensures
            r == self@.z,
    {
        self.z
    }

    pub fn carry_flag(&self) -> (r: bool)
        ensures
            r == self@.c,
    {
        self.c
    }

    pub fn interrupts_enabled(&self) -> (r: bool)
        ensures
            r == self@.int_enable,
    {
        self.int_enable
    }

    pub fn accumulator(&self) -> (r: u32)
        ensures
            r == self@.acc,
    {
        self.acc
    }

    /// The fault code; 0 while running.
    pub fn fault_code(&self) -> (r: u8)
        ensures
            r == self@.fault,
    {
        self.fault
    }

    pub fn state(&self) -> (r: MachineState)
        ensures
            r == (if self@.fault == 0 { MachineState::Running } else { MachineState::Faulted(self@.fault) }),
    {
        if self.fault == 0 {
            MachineState::Running
        } else {
            MachineState::Faulted(self.fault)
        }
    }

    pub fn instruction_memory(&self) -> (r: &Vec<u8>)
        ensures
            r@ == self@.i_mem,
    {
        &self.i_mem
    }

    pub fn data_memory(&self) -> (r: &Vec<u8>)
        ensures
            r@ == self@.d_mem,
    {
        &self.d_mem
    }

    /// Marks interrupt `idx` pending. Indices run from 1 to `INTERRUPT_COUNT - 1`, so that the
    /// vectors stay below `LOAD_BASE`; another index leaves the machine as it is and gives
    /// `false`.
    pub fn request_interrupt(&mut self, idx: u8) -> (r: bool)
        ensures
            r == (0 < idx < INTERRUPT_COUNT),
            r ==> final(self)@ == (MachineView { int_idx: idx, ..old(self)@ }),
            !r ==> final(self)@ == old(self)@,
            final(self).spec_traces() == old(self).spec_traces(),
            final(self).spec_clock_hz() == old(self).spec_clock_hz(),
            final(self).spec_cycles() == old(self).spec_cycles(),
    {
        if 0 < idx && idx < INTERRUPT_COUNT {
            self.int_idx = idx;
            true
        } else {
            false
        }
    }
}

impl KMM0 {
    /// Reads the instruction byte at IP and moves IP past it.
    pub fn mrn8_ip(&mut self) -> (r: u8)
        requires
            old(self).wf(),
            old(self)@.ip() < old(self)@.i_mem.len(),
        ensures
            final(self).wf(),
            r == old(self)@.i_mem[old(self)@.ip() as int],
            final(self)@ == old(self)@.set_reg(IP as int, (old(self)@.ip() + 1) as u32),
            final(self).same_settings(old(self)),
    {
        let ip = self.reg[IP];
        let n = self.i_mem[ip as usize];
        self.reg[IP] = ip + 1;
        n
    }

    /// Reads the 16-bit immediate at IP, least significant byte first, and moves IP past it.
    pub fn mrn16_ip(&mut self) -> (r: u16)
        requires
            old(self).wf(),
            old(self)@.ip() + 2 <= old(self)@.i_mem.len(),
        ensures
            final(self).wf(),
            r == word_of(
                old(self)@.i_mem[old(self)@.ip() as int],
                old(self)@.i_mem[old(self)@.ip() + 1],
                0,
                0,
            ) as u16,
            final(self)@ == old(self)@.set_reg(IP as int, (old(self)@.ip() + 2) as u32),
            final(self).same_settings(old(self)),
    {
        let b0 = self.mrn8_ip();
        let b1 = self.mrn8_ip();
        proof {
            assert(self@.reg =~= old(self)@.reg.update(IP as int, (old(self)@.reg[IP as int] + 2) as u32));
        }
        u32_join((b0, b1, 0, 0)) as u16
    }

    /// Reads the 24-bit immediate at IP, least significant byte first, and moves IP past it.
    pub fn mrn24_ip(&mut self) -> (r: u32)
        requires
            old(self).wf(),
            old(self)@.ip() + 3 <= old(self)@.i_mem.len(),
        ensures
            final(self).wf(),
            r == word_of(
                old(self)@.i_mem[old(self)@.ip() as int],
                old(self)@.i_mem[old(self)@.ip() + 1],
                old(self)@.i_mem[old(self)@.ip() + 2],
                0,
            ),
            final(self)@ == old(self)@.set_reg(IP as int, (old(self)@.ip() + 3) as u32),
            final(self).same_settings(old(self)),
    {
        let b0 = self.mrn8_ip();
        let b1 = self.mrn8_ip();
        let b2 = self.mrn8_ip();
        proof {
            assert(self@.reg =~= old(self)@.reg.update(IP as int, (old(self)@.reg[IP as int] + 3) as u32));
        }
        u32_join((b0, b1, b2, 0))
    }

    /// Reads the 32-bit immediate at IP, least significant byte first, and moves IP past it.
    pub fn mrn32_ip(&mut self) -> (r: u32)
        requires
            old(self).wf(),
            old(self)@.ip() + 4 <= old(self)@.i_mem.len(),
        ensures
            final(self).wf(),
            r == word_of(
                old(self)@.i_mem[old(self)@.ip() as int],
                old(self)@.i_mem[old(self)@.ip() + 1],
                old(self)@.i_mem[old(self)@.ip() + 2],
                old(self)@.i_mem[old(self)@.ip() + 3],
            ),
            final(self)@ == old(self)@.set_reg(IP as int, (old(self)@.ip() + 4) as u32),
            final(self).same_settings(old(self)),
    {
        let b0 = self.mrn8_ip();
        let b1 = self.mrn8_ip();
        let b2 = self.mrn8_ip();
        let b3 = self.mrn8_ip();
        proof {
            assert(self@.reg =~= old(self)@.reg.update(IP as int, (old(self)@.reg[IP as int] + 4) as u32));
        }
        u32_join((b0, b1, b2, b3))
    }

    /// Pushes the low byte of the accumulator: stores it at SP, then moves SP up by one.
    pub fn mwn8_sp(&mut self)
        requires
            old(self).wf(),
            old(self)@.reg[SP as int] < old(self)@.d_mem.len(),
        ensures
            final(self).wf(),
            final(self)@ == (MachineView {
                d_mem: old(self)@.d_mem.update(old(self)@.reg[SP as int] as int, byte_of(old(self)@.acc, 0)),
                ..old(self)@.set_reg(SP as int, (old(self)@.reg[SP as int] + 1) as u32)
            }),
            final(self).same_settings(old(self)),
    {
        let sp = self.reg[SP];
        let (b0, _, _, _) = u32_split(self.acc);
        self.d_mem.set(sp as usize, b0);
        self.reg[SP] = sp + 1;
    }

    /// Pops one byte: moves SP down by one, then reads the byte at SP.
    pub fn mrn8_sp(&mut self) -> (r: u8)
        requires
            old(self).wf(),
            0 < old(self)@.reg[SP as int] <= old(self)@.d_mem.len(),
        ensures
            final(self).wf(),
            r == old(self)@.d_mem[old(self)@.reg[SP as int] - 1],
            final(self)@ == old(self)@.set_reg(SP as int, (old(self)@.reg[SP as int] - 1) as u32),
            final(self).same_settings(old(self)),
    {
        let sp = self.reg[SP] - 1;
        self.reg[SP] = sp;
        self.d_mem[sp as usize]
    }

    /// Pops two bytes; the first popped is the most significant.
    pub fn mrn16_sp(&mut self) -> (r: u16)
        requires
            old(self).wf(),
            2 <= old(self)@.reg[SP as int] <= old(self)@.d_mem.len(),
        ensures
            final(self).wf(),
            r == word_of(
                old(self)@.d_mem[old(self)@.reg[SP as int] - 2],
                old(self)@.d_mem[old(self)@.reg[SP as int] - 1],
                0,
                0,
            ) as u16,
            final(self)@ == old(self)@.set_reg(SP as int, (old(self)@.reg[SP as int] - 2) as u32),
            final(self).same_settings(old(self)),
    {
        let b1 = self.mrn8_sp();
        let b0 = self.mrn8_sp();
        proof {
            assert(self@.reg =~= old(self)@.reg.update(SP as int, (old(self)@.reg[SP as int] - 2) as u32));
        }
        u32_join((b0, b1, 0, 0)) as u16
    }

    /// Pops four bytes; the first popped is the most significant.
    pub fn mrn32_sp(&mut self) -> (r: u32)
        requires
            old(self).wf(),
            4 <= old(self)@.reg[SP as int] <= old(self)@.d_mem.len(),
        ensures
            final(self).wf(),
            r == word_of(
                old(self)@.d_mem[old(self)@.reg[SP as int] - 4],
                old(self)@.d_mem[old(self)@.reg[SP as int] - 3],
                old(self)@.d_mem[old(self)@.reg[SP as int] - 2],
                old(self)@.d_mem[old(self)@.reg[SP as int] - 1],
            ),
            final(self)@ == old(self)@.set_reg(SP as int, (old(self)@.reg[SP as int] - 4) as u32),
            final(self).same_settings(old(self)),
    {
        let b3 = self.mrn8_sp();
        let b2 = self.mrn8_sp();
        let b1 = self.mrn8_sp();
        let b0 = self.mrn8_sp();
        proof {
            assert(self@.reg =~= old(self)@.reg.update(SP as int, (old(self)@.reg[SP as int] - 4) as u32));
        }
        u32_join((b0, b1, b2, b3))
    }

    /// Whether zero-page slot `ix` lies inside data memory.
    pub fn page_in_bounds(&self, ix: u8) -> (r: bool)
        ensures
            r == self@.page_ok(ix),
    {
        (ix as usize) * 4 + 4 <= self.d_mem.len()
    }

    /// Reads zero-page slot `ix`.
    pub fn zpr(&self, ix: u8) -> (r: u32)
        requires
            self@.page_ok(ix),
        ensures
            r == self@.page(ix),
    {
        let k = (ix as usize) * 4;
        u32_join((self.d_mem[k], self.d_mem[k + 1], self.d_mem[k + 2], self.d_mem[k + 3]))
    }

    /// Writes `v` to zero-page slot `ix`.
    pub fn zpw(&mut self, v: u32, ix: u8)
        requires
            old(self).wf(),
            old(self)@.page_ok(ix),
        ensures
            final(self).wf(),
            final(self)@ == old(self)@.set_page(ix, v),
            final(self).same_settings(old(self)),
    {
        let k = (ix as usize) * 4;
        let (b0, b1, b2, b3) = u32_split(v);
        self.d_mem.set(k, b0);
        self.d_mem.set(k + 1, b1);
        self.d_mem.set(k + 2, b2);
        self.d_mem.set(k + 3, b3);
    }

    /// Stops the machine with fault `code`.
    pub fn fault(&mut self, code: u8)
        requires
            old(self).wf(),
        ensures
            final(self).wf(),
            final(self)@ == old(self)@.faulted(code),
            final(self).same_settings(old(self)),
    {
        self.fault = code;
    }
}

/// The fault code for a failed decode.
fn decode_fault_exec(e: DecodeError) -> (r: u8)
    ensures
        r == decode_fault(e),
{
    match e {
        DecodeError::InvalidOpcode => INVALID_INSTRUCTION,
        DecodeError::InvalidVariant => INVALID_INSTRUCTION_VARIANT,
        DecodeError::OutOfBounds => INVALID_ADDRESS,
    }
}

/// Where a jump from `ip` to `t` lands.
fn jump_target_exec(ip: u32, t: Target) -> (r: u32)
    ensures
        r == jump_target(ip, t),
{
    match t {
        Target::Absolute(x) => x,
        Target::Forward(x) => ((ip as u64 + x as u64) % 0x1_0000_0000) as u32,
        Target::Backward(x) => ((ip as u64 + 0x1_0000_0000 - x as u64) % 0x1_0000_0000) as u32,
    }
}

impl KMM0 {
    /// Reads operand `a`, or gives the fault that reading it raises.
    fn read_source(&self, a: Source) -> (r: Result<u32, u8>)
        requires
            self.wf(),
        ensures
            match self@.source_fault(a) {
                Some(f) => r == Err::<u32, u8>(f),
                None => r == Ok::<u32, u8>(self@.source_value(a)),
            },
    {
        match a {
            Source::Reg(r) => if (r as usize) < REGISTER_COUNT {
                Ok(self.reg[r as usize])
            } else {
                Err(INVALID_REGISTER)
            },
            Source::Page(p) => if self.page_in_bounds(p) {
                Ok(self.zpr(p))
            } else {
                Err(INVALID_ADDRESS)
            },
            Source::Const(k) => Ok(k as u32),
        }
    }

    /// The fault that writing `d` raises, if any.
    fn check_dest(&self, d: Dest) -> (r: Option<u8>)
        ensures
            r == self@.dest_fault(d),
    {
        match d {
            Dest::Reg(r) => if (r as usize) < REGISTER_COUNT {
                None
            } else {
                Some(INVALID_REGISTER)
            },
            Dest::Page(p) => if self.page_in_bounds(p) {
                None
            } else {
                Some(INVALID_ADDRESS)
            },
        }
    }

    /// Writes result `n` to `d` and sets Z from it and C to `carry`.
    fn store_result(&mut self, d: Dest, n: u32, carry: bool)
        requires
            old(self).wf(),
            old(self)@.dest_fault(d) is None,
        ensures
            final(self).wf(),
            final(self)@ == old(self)@.write_result(d, n, carry),
            final(self).same_settings(old(self)),
    {
        match d {
            Dest::Reg(r) => {
                self.reg[r as usize] = n;
            },
            Dest::Page(p) => {
                self.zpw(n, p);
            },
        }
        self.z = n == 0;
        self.c = carry;
    }

    /// Performs `op` on the machine, or gives the fault it raises and leaves the machine as it
    /// was.
    fn perform(&mut self, op: Operation) -> (r: Result<Output, u8>)
        requires
            old(self).wf(),
        ensures
            final(self).wf(),
            final(self).same_settings(old(self)),
            match apply(old(self)@, op) {
                Ok((s, o)) => final(self)@ == s && r == Ok::<Output, u8>(o),
                Err(f) => final(self)@ == old(self)@ && r == Err::<Output, u8>(f),
            },
    {
        match op {
            Operation::Nop => Ok(Output::Quiet),
            Operation::Jump(cond, t) => {
                let taken = match cond {
                    Condition::Always => true,
                    Condition::Carry => self.c,
                    Condition::NoCarry => !self.c,
                    Condition::Zero => self.z,
                    Condition::NotZero => !self.z,
                };
                if taken {
                    self.reg[IP] = jump_target_exec(self.reg[IP], t);
                }
                Ok(Output::Quiet)
            },
            Operation::Alu(f, a, b, d) => {
                let x = match self.read_source(a) {
                    Ok(x) => x,
                    Err(e) => return Err(e),
                };
                let y = match self.read_source(b) {
                    Ok(y) => y,
                    Err(e) => return Err(e),
                };
                if let Some(e) = self.check_dest(d) {
                    return Err(e);
                }
                match alu(f, x, y, self.c) {
                    None => Err(DIVISION_BY_ZERO),
                    Some((n, carry)) => {
                        self.store_result(d, n, carry);
                        Ok(Output::Quiet)
                    },
                }
            },
            Operation::Not(a, d) => {
                let x = match self.read_source(a) {
                    Ok(x) => x,
                    Err(e) => return Err(e),
                };
                if let Some(e) = self.check_dest(d) {
                    return Err(e);
                }
                self.store_result(d, !x, false);
                Ok(Output::Quiet)
            },
            Operation::PrintChar(src) => {
                let v = match src {
                    CharSource::Acc => self.acc,
                    CharSource::Reg(r) => if (r as usize) < REGISTER_COUNT {
                        self.reg[r as usize]
                    } else {
                        return Err(INVALID_REGISTER);
                    },
                    CharSource::Const(k) => k as u32,
                };
                match char_from_u32(v) {
                    Some(ch) => Ok(Output::Char(ch)),
                    None => Err(INVALID_CHAR),
                }
            },
            Operation::Move(from, to) => if (from as usize) < REGISTER_COUNT && (to as usize)
                < REGISTER_COUNT {
                self.reg[to as usize] = self.reg[from as usize];
                Ok(Output::Quiet)
            } else {
                Err(INVALID_REGISTER)
            },
            Operation::Load(r, v) => if (r as usize) < REGISTER_COUNT {
                self.reg[r as usize] = v;
                Ok(Output::Quiet)
            } else {
                Err(INVALID_REGISTER)
            },
            Operation::SetZero(b) => {
                self.z = b;
                Ok(Output::Quiet)
            },
            Operation::SetCarry(b) => {
                self.c = b;
                Ok(Output::Quiet)
            },
            Operation::SetInterrupts(b) => {
                self.int_enable = b;
                Ok(Output::Quiet)
            },
            Operation::Halt => Err(EXPLICIT_HALT_AND_EXIT),
            Operation::ShowAcc => Ok(Output::Value(self.acc)),
            Operation::ShowReg(r) => if (r as usize) < REGISTER_COUNT {
                Ok(Output::Value(self.reg[r as usize]))
            } else {
                Err(INVALID_REGISTER)
            },
            Operation::ShowAll => Ok(Output::Registers),
            Operation::Undefined => Err(INVALID_INSTRUCTION),
        }
    }

    /// Runs one fetch-decode-execute step; see `step`. A step on a running machine counts one
    /// cycle.
    pub fn execute(&mut self) -> (out: Output)
        requires
            old(self).wf(),
        ensures
            final(self).wf(),
            (final(self)@, out) == step(old(self)@),
            final(self).spec_traces() == old(self).spec_traces(),
            final(self).spec_clock_hz() == old(self).spec_clock_hz(),
            old(self)@.fault != 0 ==> final(self).spec_cycles() == old(self).spec_cycles(),
    {
        if self.fault != 0 {
            return Output::Fault(self.fault);
        }
        let ghost s0 = self@;
        self.clock();
        if self.int_enable && self.int_idx != 0 {
            self.int_enable = false;
            self.reg[RP] = self.reg[IP];
            self.reg[IP] = VECTOR_BASE + 8 * (self.int_idx as u32);
        }
        assert(self@.reg =~= s0.enter_interrupt().reg);
        let ghost s1 = self@;
        let ip = self.reg[IP];
        match decode(&self.i_mem, ip as usize) {
            Err(e) => {
                let f = decode_fault_exec(e);
                self.fault = f;
                Output::Fault(f)
            },
            Ok((i, n)) => {
                self.reg[IP] = ((ip as u64 + n as u64) % 0x1_0000_0000) as u32;
                assert(self@.reg =~= s1.set_reg(IP as int, wrap(s1.ip() + n)).reg);
                let op = i.operation();
                match self.perform(op) {
                    Ok(out) => out,
                    Err(f) => {
                        self.reg[IP] = ip;
                        assert(self@.reg =~= s1.reg);
                        self.fault = f;
                        Output::Fault(f)
                    },
                }
            },
        }
    }
}

/// A step on a running machine with no interrupt to enter, whose IP starts the canonical bytes
/// of `i`, moves IP past those bytes and performs `i`'s operation; if that faults, the
/// machine keeps its state and records the fault.
pub proof fn lemma_step_performs_encoded(s: MachineView, i: Instruction)
    requires
        s.fault == 0,
        !(s.int_enable && s.int_idx != 0),
        encoding(i) is Ok,
        s.ip() + encoding(i)->Ok_0.len() <= s.i_mem.len(),
        s.i_mem.subrange(s.ip() as int, s.ip() + encoding(i)->Ok_0.len()) == encoding(i)->Ok_0,
    ensures
        step(s) == match apply(
            s.set_reg(IP as int, wrap(s.ip() + encoding(i)->Ok_0.len())),
            operation_of(i),
        ) {
            Ok((t, o)) => (t, o),
            Err(f) => (s.faulted(f), Output::Fault(f)),
        },
{
    lemma_decode_encoding(i, s.i_mem, s.ip() as int);
}

/// Addition carries exactly when the true sum reaches 2^32; subtraction borrows exactly when
/// the minuend is the smaller; both give the result modulo 2^32.
pub proof fn lemma_add_sub_carry(a: u32, b: u32, carry: bool)
    ensures
        alu_result(AluOp::Add, a, b, carry) == Some((wrap(a + b), a + b >= 0x1_0000_0000)),
        alu_result(AluOp::Sub, a, b, carry) == Some((wrap(a - b + 0x1_0000_0000), a < b)),
{
}

/// After an arithmetic or logical operation, the destination holds the result, Z tells whether
/// the result is 0, and C is the operation's carry-out.
pub proof fn lemma_alu_flags(s: MachineView, f: AluOp, a: Source, b: Source, d: Dest)
    requires
        apply(s, Operation::Alu(f, a, b, d)) is Ok,
    ensures
        ({
            let (n, carry) = alu_result(f, s.source_value(a), s.source_value(b), s.c)->0;
            let t = apply(s, Operation::Alu(f, a, b, d))->Ok_0.0;
            &&& t == s.write_result(d, n, carry)
            &&& t.z == (n == 0)
            &&& t.c == carry
        }),
{
}

/// After a bitwise not, Z tells whether the result is 0 and C is clear.
pub proof fn lemma_not_flags(s: MachineView, a: Source, d: Dest)
    requires
        apply(s, Operation::Not(a, d)) is Ok,
    ensures
        ({
            let t = apply(s, Operation::Not(a, d))->Ok_0.0;
            &&& t == s.write_result(d, !s.source_value(a), false)
            &&& t.z == (!s.source_value(a) == 0)
            &&& !t.c
        }),
{
}

/// Writing a word to zero-page slot `p` and reading the slot back gives the word; the write
/// touches exactly data-memory bytes `[4p, 4p + 4)`.
pub proof fn lemma_page_round_trip(s: MachineView, p: u8, v: u32)
    requires
        s.page_ok(p),
    ensures
        s.set_page(p, v).page(p) == v,
        s.set_page(p, v).d_mem.len() == s.d_mem.len(),
        forall|k: int|
            0 <= k < s.d_mem.len() && !(4 * p <= k < 4 * p + 4) ==> #[trigger] s.set_page(p, v).d_mem[k]
                == s.d_mem[k],
        forall|j: int| 0 <= j < 4 ==> #[trigger] s.set_page(p, v).d_mem[4 * p + j] == byte_of(v, j),
{
    lemma_join_split(v);
}

/// A jump performed at `ip` lands where its target says when its condition holds, and stays at
/// `ip` otherwise: an absolute target is the constant itself, an offset is added or
/// subtracted modulo 2^32.
pub proof fn lemma_jump(s: MachineView, cond: Condition, t: Target)
    requires
        s.reg.len() == 16,
    ensures
        apply(s, Operation::Jump(cond, t))->Ok_0.0.ip() == if s.condition_holds(cond) {
            jump_target(s.ip(), t)
        } else {
            s.ip()
        },
        apply(s, Operation::Jump(cond, t))->Ok_0.1 == Output::Quiet,
        jump_target(s.ip(), t) == match t {
            Target::Absolute(x) => x,
            Target::Forward(x) => wrap(s.ip() + x),
            Target::Backward(x) => wrap(s.ip() - x + 0x1_0000_0000),
        },
{
}

/// A jump instruction encoded at IP sets IP from the address right after its last operand
/// byte: to the target when its condition holds, else to that address.
pub proof fn lemma_jump_step(s: MachineView, i: Instruction, cond: Condition, t: Target)
    requires
        s.reg.len() == 16,
        s.fault == 0,
        !(s.int_enable && s.int_idx != 0),
        operation_of(i) == Operation::Jump(cond, t),
        encoding(i) is Ok,
        s.ip() + encoding(i)->Ok_0.len() <= s.i_mem.len(),
        s.i_mem.subrange(s.ip() as int, s.ip() + encoding(i)->Ok_0.len()) == encoding(i)->Ok_0,
    ensures
        ({
            let next = wrap(s.ip() + encoding(i)->Ok_0.len());
            step(s).0.ip() == if s.condition_holds(cond) {
                jump_target(next, t)
            } else {
                next
            }
        }),
        step(s).0.fault == 0,
{
    lemma_step_performs_encoded(s, i);
}

/// An opcode byte that names no instruction faults with `INVALID_INSTRUCTION`, and changes
/// nothing else.
pub proof fn lemma_unknown_opcode(s: MachineView)
    requires
        s.fault == 0,
        !(s.int_enable && s.int_idx != 0),
        s.ip() < s.i_mem.len(),
        !known_opcode(s.i_mem[s.ip() as int]),
    ensures
        step(s) == (s.faulted(INVALID_INSTRUCTION), Output::Fault(INVALID_INSTRUCTION)),
{
}

/// A known opcode followed by a variant byte that names no member of its family faults with
/// `INVALID_INSTRUCTION_VARIANT`, and changes nothing else.
pub proof fn lemma_unknown_variant(s: MachineView)
    requires
        s.fault == 0,
        !(s.int_enable && s.int_idx != 0),
        s.ip() + 1 < s.i_mem.len(),
        has_variant(s.i_mem[s.ip() as int]),
        operand_len(s.i_mem[s.ip() as int], s.i_mem[s.ip() + 1]) is None,
    ensures
        step(s) == (s.faulted(INVALID_INSTRUCTION_VARIANT), Output::Fault(
            INVALID_INSTRUCTION_VARIANT,
        )),
{
}

/// A faulted machine stays as it is, and every further step reports its fault.
pub proof fn lemma_fault_is_terminal(s: MachineView)
    requires
        s.fault != 0,
    ensures
        step(s) == (s, Output::Fault(s.fault)),
{
}

} // verus!
