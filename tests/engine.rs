use kmm0::assembler::{AssemblyError, Ver0};
use kmm0::decode::{decode, DecodeError};
use kmm0::emulator::{
    MachineState, Output, DIVISION_BY_ZERO, EXPLICIT_HALT_AND_EXIT, INVALID_ADDRESS, INVALID_CHAR,
    INVALID_INSTRUCTION, INVALID_INSTRUCTION_VARIANT, INVALID_REGISTER, IP, KMM0, LOAD_BASE, RP, SP,
};
use kmm0::encode::{encode_instruction, EncodeError};
use kmm0::isa::Instruction as I;

fn image(code: &[u8]) -> Vec<u8> {
    let mut v = vec![0u8; LOAD_BASE as usize];
    v.extend_from_slice(code);
    v
}

fn machine(program: Vec<I>) -> KMM0 {
    let bytes = match Ver0::assemble_to_bytes(program) {
        Ok(b) => b,
        Err(e) => panic!("program does not assemble: {:?}", e),
    };
    KMM0::new().init_mem(1024).load_code(image(&bytes))
}

fn run(m: &mut KMM0, steps: usize) -> Output {
    let mut out = Output::Quiet;
    for _ in 0..steps {
        out = m.execute();
    }
    out
}

fn regs(m: &KMM0) -> Vec<u32> {
    (0..16).map(|r| m.reg(r)).collect()
}

#[test]
fn scenario_add_two_loaded_registers() {
    let mut m = machine(vec![I::ConstRegU8(0, 0xFF), I::ConstRegU8(1, 0x07), I::AddRRR(0, 1, 0)]);
    run(&mut m, 3);
    assert_eq!(m.reg(0), 0x106);
    assert!(!m.zero_flag());
    assert!(!m.carry_flag());
    assert_eq!(m.state(), MachineState::Running);
}

#[test]
fn scenario_add_overflow_sets_carry() {
    let mut m = machine(vec![I::ConstRegU32(0, 0xFFFF_FFFF), I::AddRRR(0, 0, 0)]);
    run(&mut m, 2);
    assert_eq!(m.reg(0), 0xFFFF_FFFE);
    assert!(m.carry_flag());
    assert!(!m.zero_flag());
}

#[test]
fn scenario_halt_is_terminal() {
    let mut m = machine(vec![I::ExplicitHaltAndExit]);
    let out = m.execute();
    assert_eq!(out, Output::Fault(EXPLICIT_HALT_AND_EXIT));
    assert_eq!(m.state(), MachineState::Faulted(EXPLICIT_HALT_AND_EXIT));
    let before = regs(&m);
    let cycles = m.uptime_cycles();
    assert_eq!(m.execute(), Output::Fault(EXPLICIT_HALT_AND_EXIT));
    assert_eq!(regs(&m), before);
    assert_eq!(m.uptime_cycles(), cycles);
    assert_eq!(m.state(), MachineState::Faulted(EXPLICIT_HALT_AND_EXIT));
}

fn samples() -> Vec<I> {
    vec![
        I::Nop,
        I::JmpConst24(0x12_3456),
        I::JmpConst32(0x1234_5678),
        I::JmpOffsetA8(9),
        I::JmpOffsetS8(9),
        I::JmpOffsetA16(0xBEEF),
        I::JmpOffsetS16(0x0102),
        I::JmpOffsetA32(0xDEAD_BEEF),
        I::JmpOffsetS32(7),
        I::JCConst24(0xFF_FFFF),
        I::JNCOffsetS8(0x0d),
        I::JZOffsetA16(300),
        I::JNZConst32(0xFFFF_FFFF),
        I::AddRRR(0, 1, 2),
        I::AddZRR(3, 4, 5),
        I::IncR1(6),
        I::IncR4(7),
        I::AddcZZZ(1, 2, 3),
        I::SubRZR(1, 2, 3),
        I::SubbRRZ(4, 5, 6),
        I::MulZZZ(7, 8, 9),
        I::DivRZR(1, 1, 1),
        I::AndRZZ(2, 3, 4),
        I::OrZRR(5, 6, 7),
        I::XorRRZ(8, 9, 10),
        I::NotRR(1, 2),
        I::NotZZ(3, 4),
        I::DecR1(5),
        I::DecR4(6),
        I::RemZZZ(1, 2, 3),
        I::ShlRCR(1, 4, 2),
        I::ShrZCZ(3, 31, 4),
        I::PrintChar_R(3),
        I::PrintChar_C8(b'A'),
        I::PrintCharAcc,
        I::MovRR(1, 2),
        I::Mov44(0x21),
        I::ConstRegU8(1, 0xAB),
        I::ConstRegU16(2, 0xBEEF),
        I::ConstRegU32(3, 0xCAFE_F00D),
        I::SetZF,
        I::ClrZF,
        I::SetCF,
        I::ClrCF,
        I::IntEnable,
        I::IntDisable,
        I::MovR2ToR0,
        I::AddR0R1,
        I::NotR0,
        I::RemR0R1,
        I::ExplicitHaltAndExit,
        I::DebugPrintAcc,
        I::DebugPrintReg(4),
        I::DebugPrintAll,
    ]
}

#[test]
fn every_sample_decodes_to_itself() {
    for i in samples() {
        let bytes = encode_instruction(&i).unwrap();
        assert_eq!(decode(&bytes, 0), Ok((i, bytes.len())), "{:?}", i);
        let mut padded = vec![0xAA, 0xBB];
        padded.extend_from_slice(&bytes);
        padded.push(0x77);
        assert_eq!(decode(&padded, 2), Ok((i, bytes.len())), "{:?}", i);
    }
}

#[test]
fn assembled_program_decodes_in_order() {
    let program = samples();
    let bytes = Ver0::assemble_to_bytes(program.clone()).unwrap();
    let mut at = 0usize;
    for i in program {
        let (j, n) = decode(&bytes, at).unwrap();
        assert_eq!(j, i);
        at += n;
    }
    assert_eq!(at, bytes.len());
}

#[test]
fn encodings_are_little_endian() {
    assert_eq!(encode_instruction(&I::AddRRR(0, 1, 2)).unwrap(), vec![0x04, 0x00, 0, 1, 2]);
    assert_eq!(
        encode_instruction(&I::JmpConst32(0x1234_5678)).unwrap(),
        vec![0x02, 0x01, 0x78, 0x56, 0x34, 0x12]
    );
    assert_eq!(encode_instruction(&I::JmpConst24(0x12_3456)).unwrap(), vec![0x02, 0x00, 0x56, 0x34, 0x12]);
    assert_eq!(encode_instruction(&I::JNZOffsetS16(0x0102)).unwrap(), vec![0x03, 0x1d, 0x02, 0x01]);
    assert_eq!(encode_instruction(&I::ConstRegU8(5, 0xAB)).unwrap(), vec![0x14, 5, 0xAB]);
    assert_eq!(encode_instruction(&I::ConstRegU16(3, 0xBEEF)).unwrap(), vec![0x15, 3, 0xEF, 0xBE]);
    assert_eq!(
        encode_instruction(&I::ConstRegU32(1, 0xCAFE_F00D)).unwrap(),
        vec![0x16, 1, 0x0D, 0xF0, 0xFE, 0xCA]
    );
    assert_eq!(encode_instruction(&I::PrintChar_R(3)).unwrap(), vec![0x06, 0x01, 3]);
    assert_eq!(encode_instruction(&I::PrintChar_C8(b'x')).unwrap(), vec![0x06, 0x02, b'x']);
    assert_eq!(encode_instruction(&I::ShrZCZ(1, 2, 3)).unwrap(), vec![0x04, 0x49, 1, 2, 3]);
    assert_eq!(encode_instruction(&I::IntDisable).unwrap(), vec![0x25]);
    assert_eq!(encode_instruction(&I::ExplicitHaltAndExit).unwrap(), vec![0xFE]);
    assert_eq!(encode_instruction(&I::DebugPrintReg(7)).unwrap(), vec![0xFF, 0x01, 7]);
}

#[test]
fn undefined_encodings_fail_the_assembly() {
    assert_eq!(encode_instruction(&I::Read8_Cptr_R(0x10, 1)), Err(EncodeError::Undefined));
    assert_eq!(encode_instruction(&I::MovR4R4(1, 2, 3)), Err(EncodeError::Undefined));
    assert_eq!(encode_instruction(&I::JmpConst24(0x100_0000)), Err(EncodeError::OperandTooWide));
    let r = Ver0::assemble_to_bytes(vec![I::Nop, I::Write8_R_Rptr(1, 2), I::JZConst24(0x100_0000)]);
    assert_eq!(r, Err(AssemblyError::Unencodable(1, EncodeError::Undefined)));
    let r = Ver0::assemble_to_bytes(vec![I::Nop, I::JZConst24(0x100_0000), I::Write8_R_Rptr(1, 2)]);
    assert_eq!(r, Err(AssemblyError::Unencodable(1, EncodeError::OperandTooWide)));
    assert_eq!(Ver0::assemble_to_bytes(vec![]), Ok(vec![]));
}

#[test]
fn decode_reports_bad_streams() {
    assert_eq!(decode(&vec![0x05], 0), Err(DecodeError::InvalidOpcode));
    assert_eq!(decode(&vec![0x04, 0x4a, 0, 0, 0], 0), Err(DecodeError::InvalidVariant));
    assert_eq!(decode(&vec![0x04, 0x00, 1, 2], 0), Err(DecodeError::OutOfBounds));
    assert_eq!(decode(&vec![0x02], 0), Err(DecodeError::OutOfBounds));
    assert_eq!(decode(&vec![0x00], 1), Err(DecodeError::OutOfBounds));
}

fn alu_run(program: Vec<I>, steps: usize) -> KMM0 {
    let mut m = machine(program);
    run(&mut m, steps);
    m
}

#[test]
fn add_carry_flag_matches_overflow() {
    let m = alu_run(vec![I::ConstRegU32(0, 0x8000_0000), I::ConstRegU32(1, 0x8000_0000), I::AddRRR(0, 1, 2)], 3);
    assert_eq!(m.reg(2), 0);
    assert!(m.carry_flag());
    assert!(m.zero_flag());
    let m = alu_run(vec![I::ConstRegU32(0, 0xFFFF_FFFE), I::ConstRegU32(1, 1), I::AddRRR(0, 1, 2)], 3);
    assert_eq!(m.reg(2), 0xFFFF_FFFF);
    assert!(!m.carry_flag());
    assert!(!m.zero_flag());
}

#[test]
fn add_with_carry_consumes_carry() {
    let m = alu_run(vec![I::ConstRegU32(0, 0xFFFF_FFFE), I::ConstRegU32(1, 1), I::SetCF, I::AddcRRR(0, 1, 2)], 4);
    assert_eq!(m.reg(2), 0);
    assert!(m.carry_flag());
    assert!(m.zero_flag());
}

#[test]
fn sub_borrow_flag_matches_order() {
    let m = alu_run(vec![I::ConstRegU8(0, 3), I::ConstRegU8(1, 5), I::SubRRR(0, 1, 2)], 3);
    assert_eq!(m.reg(2), 0xFFFF_FFFE);
    assert!(m.carry_flag());
    let m = alu_run(vec![I::ConstRegU8(0, 5), I::ConstRegU8(1, 5), I::SubRRR(0, 1, 2)], 3);
    assert_eq!(m.reg(2), 0);
    assert!(!m.carry_flag());
    assert!(m.zero_flag());
    let m = alu_run(vec![I::ConstRegU8(0, 5), I::ConstRegU8(1, 5), I::SetCF, I::SubbRRR(0, 1, 2)], 4);
    assert_eq!(m.reg(2), 0xFFFF_FFFF);
    assert!(m.carry_flag());
}

#[test]
fn mul_div_rem_and_logic() {
    let m = alu_run(vec![I::ConstRegU32(0, 0x1_0000), I::ConstRegU32(1, 0x1_0001), I::MulRRR(0, 1, 2)], 3);
    assert_eq!(m.reg(2), 0x1_0000);
    assert!(m.carry_flag());
    let m = alu_run(vec![I::ConstRegU8(0, 17), I::ConstRegU8(1, 5), I::DivRRR(0, 1, 2), I::RemRRR(0, 1, 3)], 4);
    assert_eq!(m.reg(2), 3);
    assert_eq!(m.reg(3), 2);
    assert!(!m.carry_flag());
    let m = alu_run(
        vec![
            I::ConstRegU8(0, 0b1100),
            I::ConstRegU8(1, 0b1010),
            I::AndRRR(0, 1, 2),
            I::OrRRR(0, 1, 3),
            I::XorRRR(0, 1, 4),
            I::NotRR(0, 5),
        ],
        6,
    );
    assert_eq!(m.reg(2), 0b1000);
    assert_eq!(m.reg(3), 0b1110);
    assert_eq!(m.reg(4), 0b0110);
    assert_eq!(m.reg(5), !0b1100u32);
    assert!(!m.zero_flag());
    let m = alu_run(vec![I::ConstRegU8(0, 0b1100), I::ConstRegU8(1, 0b0011), I::AndRRR(0, 1, 2)], 3);
    assert!(m.zero_flag());
}

#[test]
fn shifts_take_a_constant_amount() {
    let m = alu_run(vec![I::ConstRegU8(0, 3), I::ShlRCR(0, 4, 1), I::ShrRCR(1, 2, 2)], 3);
    assert_eq!(m.reg(1), 48);
    assert_eq!(m.reg(2), 12);
    assert!(!m.carry_flag());
    let m = alu_run(vec![I::ConstRegU8(0, 3), I::ShlRCR(0, 33, 1)], 2);
    assert_eq!(m.reg(1), 6);
    assert!(m.carry_flag());
}

#[test]
fn increments_and_decrements() {
    let m = alu_run(vec![I::ConstRegU32(0, 0xFFFF_FFFF), I::IncR1(0)], 2);
    assert_eq!(m.reg(0), 0);
    assert!(m.carry_flag());
    assert!(m.zero_flag());
    let m = alu_run(vec![I::ConstRegU8(0, 2), I::DecR4(0)], 2);
    assert_eq!(m.reg(0), 0xFFFF_FFFE);
    assert!(m.carry_flag());
    let m = alu_run(vec![I::ConstRegU8(0, 2), I::IncR4(0), I::DecR1(0)], 3);
    assert_eq!(m.reg(0), 5);
}

#[test]
fn division_by_zero_faults() {
    let mut m = machine(vec![I::ConstRegU8(0, 9), I::DivRRR(0, 1, 2)]);
    m.execute();
    let before = regs(&m);
    assert_eq!(m.execute(), Output::Fault(DIVISION_BY_ZERO));
    assert_eq!(regs(&m), before);
    assert_eq!(m.state(), MachineState::Faulted(DIVISION_BY_ZERO));
}

#[test]
fn zero_page_write_then_read() {
    let mut m = KMM0::new().init_mem(64);
    m.zpw(0xDEAD_BEEF, 3);
    assert_eq!(m.zpr(3), 0xDEAD_BEEF);
    let d = m.data_memory();
    assert_eq!(&d[12..16], &[0xEF, 0xBE, 0xAD, 0xDE]);
    assert!(d[..12].iter().all(|b| *b == 0));
    assert!(d[16..].iter().all(|b| *b == 0));
    assert!(m.page_in_bounds(15));
    assert!(!m.page_in_bounds(16));
}

#[test]
fn zero_page_operands() {
    let mut m = machine(vec![
        I::ConstRegU32(0, 40),
        I::ConstRegU32(1, 2),
        I::AddRRZ(0, 1, 5),
        I::AddZZZ(5, 5, 6),
        I::SubZRR(6, 1, 2),
    ]);
    run(&mut m, 5);
    assert_eq!(m.zpr(5), 42);
    assert_eq!(m.zpr(6), 84);
    assert_eq!(m.reg(2), 82);
}

#[test]
fn zero_page_outside_memory_faults() {
    let bytes = Ver0::assemble_to_bytes(vec![I::AddRRZ(0, 1, 200)]).unwrap();
    let mut m = KMM0::new().init_mem(16).load_code(image(&bytes));
    assert_eq!(m.execute(), Output::Fault(INVALID_ADDRESS));
    assert_eq!(m.ip_reg(), LOAD_BASE as usize);
}

#[test]
fn absolute_jump_sets_ip() {
    let mut m = machine(vec![I::JmpConst32(0x1234)]);
    m.execute();
    assert_eq!(m.ip_reg(), 0x1234);
    let mut m = machine(vec![I::JmpConst24(0x0105)]);
    m.execute();
    assert_eq!(m.ip_reg(), 0x105);
}

#[test]
fn offset_jumps_count_from_after_the_operand() {
    let mut m = machine(vec![I::JmpOffsetA8(4)]);
    m.execute();
    assert_eq!(m.ip_reg(), 0x100 + 3 + 4);
    let mut m = machine(vec![I::JmpOffsetS16(0x10)]);
    m.execute();
    assert_eq!(m.ip_reg(), 0x100 + 4 - 0x10);
    let mut m = machine(vec![I::JmpOffsetA32(0x20)]);
    m.execute();
    assert_eq!(m.ip_reg(), 0x100 + 6 + 0x20);
}

#[test]
fn conditional_jumps_follow_flags() {
    let mut m = machine(vec![I::SetCF, I::JCOffsetA8(2)]);
    run(&mut m, 2);
    assert_eq!(m.ip_reg(), 0x101 + 3 + 2);
    let mut m = machine(vec![I::ClrCF, I::JCOffsetA8(2)]);
    run(&mut m, 2);
    assert_eq!(m.ip_reg(), 0x101 + 3);
    let mut m = machine(vec![I::SetZF, I::JNZConst32(0x400)]);
    run(&mut m, 2);
    assert_eq!(m.ip_reg(), 0x101 + 6);
    let mut m = machine(vec![I::ClrZF, I::JNZConst32(0x400)]);
    run(&mut m, 2);
    assert_eq!(m.ip_reg(), 0x400);
    let mut m = machine(vec![I::SetZF, I::JZOffsetS8(0x20)]);
    run(&mut m, 2);
    assert_eq!(m.ip_reg(), 0x101 + 3 - 0x20);
}

#[test]
fn unknown_opcode_faults_without_other_effect() {
    let mut m = KMM0::new().init_mem(16).load_code(image(&[0x05, 0x00]));
    let before = regs(&m);
    assert_eq!(m.execute(), Output::Fault(INVALID_INSTRUCTION));
    assert_eq!(regs(&m), before);
    assert_eq!(m.fault_code(), INVALID_INSTRUCTION);
    assert!(!m.zero_flag() && !m.carry_flag());
}

#[test]
fn unknown_variant_faults_without_other_effect() {
    for code in [[0x02u8, 0x08], [0x03, 0x20], [0x04, 0x4a], [0x06, 0x03], [0xFF, 0x03]] {
        let mut m = KMM0::new().init_mem(16).load_code(image(&code));
        let before = regs(&m);
        assert_eq!(m.execute(), Output::Fault(INVALID_INSTRUCTION_VARIANT));
        assert_eq!(regs(&m), before);
    }
}

#[test]
fn running_off_the_end_faults() {
    let mut m = machine(vec![I::Nop]);
    assert_eq!(m.execute(), Output::Quiet);
    assert_eq!(m.execute(), Output::Fault(INVALID_ADDRESS));
}

#[test]
fn bad_register_faults() {
    let mut m = machine(vec![I::MovRR(0, 16)]);
    assert_eq!(m.execute(), Output::Fault(INVALID_REGISTER));
    let mut m = machine(vec![I::AddRRR(0, 99, 1)]);
    assert_eq!(m.execute(), Output::Fault(INVALID_REGISTER));
}

#[test]
fn print_char_outputs_scalars_only() {
    let mut m = machine(vec![
        I::ConstRegU32(3, 0x1F600),
        I::PrintChar_R(3),
        I::PrintChar_C8(b'A'),
        I::PrintCharAcc,
        I::ConstRegU32(3, 0xD800),
        I::PrintChar_R(3),
    ]);
    assert_eq!(m.execute(), Output::Quiet);
    assert_eq!(m.execute(), Output::Char('\u{1F600}'));
    assert_eq!(m.execute(), Output::Char('A'));
    assert_eq!(m.execute(), Output::Char('\0'));
    m.execute();
    assert_eq!(m.execute(), Output::Fault(INVALID_CHAR));
    assert_eq!(m.state(), MachineState::Faulted(INVALID_CHAR));
}

#[test]
fn debug_instructions_report() {
    let mut m = machine(vec![I::ConstRegU16(4, 0xBEEF), I::DebugPrintReg(4), I::DebugPrintAcc, I::DebugPrintAll]);
    m.execute();
    assert_eq!(m.execute(), Output::Value(0xBEEF));
    assert_eq!(m.execute(), Output::Value(0));
    assert_eq!(m.execute(), Output::Registers);
}

#[test]
fn moves_copy_registers() {
    let mut m = machine(vec![
        I::ConstRegU8(1, 7),
        I::MovRR(1, 5),
        I::Mov44(0x61),
        I::ConstRegU8(2, 9),
        I::MovR2ToR0,
        I::MovR1ToR0,
        I::MovR0ToR1,
        I::MovR2ToR1,
    ]);
    run(&mut m, 4);
    assert_eq!(m.reg(5), 7);
    assert_eq!(m.reg(6), 7);
    m.execute();
    assert_eq!(m.reg(0), 9);
    m.execute();
    assert_eq!(m.reg(0), 7);
    m.execute();
    assert_eq!(m.reg(1), 7);
    m.execute();
    assert_eq!(m.reg(1), 9);
}

#[test]
fn fixed_register_arithmetic() {
    let m = alu_run(vec![I::ConstRegU8(0, 20), I::ConstRegU8(1, 6), I::SubR0R1], 3);
    assert_eq!(m.reg(2), 14);
    let m = alu_run(vec![I::ConstRegU8(0, 20), I::ConstRegU8(1, 6), I::RemR0R1], 3);
    assert_eq!(m.reg(2), 2);
    let m = alu_run(vec![I::ConstRegU8(0, 0), I::NotR0], 2);
    assert_eq!(m.reg(2), 0xFFFF_FFFF);
    assert!(!m.zero_flag());
}

#[test]
fn interrupt_enters_vector() {
    let mut m = machine(vec![I::IntEnable, I::Nop]);
    assert!(!m.request_interrupt(32));
    assert!(!m.request_interrupt(0));
    assert!(m.request_interrupt(2));
    m.execute();
    assert!(m.interrupts_enabled());
    m.execute();
    assert_eq!(m.reg(RP), 0x101);
    assert_eq!(m.ip_reg(), 16 + 1);
    assert!(!m.interrupts_enabled());
    assert_eq!(m.reg(IP), 17);
}

#[test]
fn stack_push_then_pop() {
    let mut m = KMM0::new().init_mem(8);
    assert_eq!(m.sp_reg(), 0);
    m.mwn8_sp();
    assert_eq!(m.sp_reg(), 1);
    assert_eq!(m.mrn8_sp(), 0);
    assert_eq!(m.sp_reg(), 0);
    assert_eq!(m.reg(SP), 0);
}

#[test]
fn instruction_stream_readers() {
    let mut m = KMM0::new().load_code(image(&[0xAB, 0x34, 0x12, 0x56, 0x34, 0x12, 0x78, 0x56, 0x34, 0x12]));
    assert_eq!(m.mrn8_ip(), 0xAB);
    assert_eq!(m.mrn16_ip(), 0x1234);
    assert_eq!(m.mrn24_ip(), 0x12_3456);
    assert_eq!(m.mrn32_ip(), 0x1234_5678);
    assert_eq!(m.ip_reg(), 0x100 + 10);
}

#[test]
fn builders_set_configuration() {
    let mut m = KMM0::new().print_exec().clock_speed_hz(10).init_mem(32);
    assert!(m.traces());
    assert_eq!(m.clock_hz(), 10);
    assert_eq!(m.data_memory().len(), 32);
    assert_eq!(m.uptime_cycles(), 0);
    m.clock();
    assert_eq!(m.uptime_cycles(), 1);
    assert_eq!(m.ix_reg(), 0);
    m.fault(0x42);
    assert_eq!(m.state(), MachineState::Faulted(0x42));
}
