use rvem::{
    ElfImage, Emulator, EmulatorError, ExecError, Inst, Reg, Section, Symbol, Syscall,
    DEFAULT_MEMORY_SIZE,
};

const TEXT: usize = 0x1000;

fn image(insts: &[Inst]) -> (Vec<u8>, ElfImage) {
    let mut bytes = Vec::new();
    for i in insts {
        bytes.extend_from_slice(&i.encode().to_le_bytes());
    }
    let sections = vec![Section {
        name: ".text".to_string(),
        addr: TEXT,
        size: bytes.len(),
        offset: Some(0),
        alloc: true,
    }];
    (bytes, ElfImage { sections, symbols: vec![] })
}

fn start(insts: &[Inst]) -> Emulator {
    let (bytes, image) = image(insts);
    let mut em = Emulator::load_from(&bytes, &image, Some(0x1_0000)).unwrap();
    em.init().unwrap();
    em
}

/// Runs a program until it falls off the end of `.text`.
fn run_to_end(insts: &[Inst]) -> Emulator {
    let mut em = start(insts);
    let end = (TEXT + 4 * insts.len()) as u32;
    assert_eq!(em.run(1000), Err(EmulatorError::Execution(ExecError::PcOutsideText(end))));
    em
}

fn li(rd: Reg, imm: i32) -> Inst {
    Inst::ADDI { rd, rs1: Reg::zero, imm }
}

#[test]
fn add_wraps() {
    let em = run_to_end(&[
        Inst::LUI { rd: Reg::a0, imm: 0x80000 },
        Inst::LUI { rd: Reg::a1, imm: 0x80000 },
        Inst::ADD { rd: Reg::a2, rs1: Reg::a0, rs2: Reg::a1 },
        Inst::SUB { rd: Reg::a3, rs1: Reg::zero, rs2: Reg::a0 },
        li(Reg::a4, -1),
        Inst::ADDI { rd: Reg::a5, rs1: Reg::a4, imm: 2 },
    ]);
    assert_eq!(em.reg(Reg::a0), 0x8000_0000);
    assert_eq!(em.reg(Reg::a2), 0);
    assert_eq!(em.reg(Reg::a3), 0x8000_0000);
    assert_eq!(em.reg(Reg::a5), 1);
}

#[test]
fn shifts_of_int_min() {
    let em = run_to_end(&[
        Inst::LUI { rd: Reg::a0, imm: 0x80000 },
        li(Reg::a1, 1),
        Inst::SRA { rd: Reg::a2, rs1: Reg::a0, rs2: Reg::a1 },
        Inst::SRL { rd: Reg::a3, rs1: Reg::a0, rs2: Reg::a1 },
        Inst::SRAI { rd: Reg::a4, rs1: Reg::a0, shamt: 1 },
        Inst::SRLI { rd: Reg::a5, rs1: Reg::a0, shamt: 1 },
        li(Reg::a6, 33),
        Inst::SLL { rd: Reg::a7, rs1: Reg::a1, rs2: Reg::a6 },
        Inst::SLLI { rd: Reg::s2, rs1: Reg::a1, shamt: 31 },
    ]);
    assert_eq!(em.reg(Reg::a2), 0xC000_0000);
    assert_eq!(em.reg(Reg::a3), 0x4000_0000);
    assert_eq!(em.reg(Reg::a4), 0xC000_0000);
    assert_eq!(em.reg(Reg::a5), 0x4000_0000);
    // only the low five bits of rs2 count
    assert_eq!(em.reg(Reg::a7), 2);
    assert_eq!(em.reg(Reg::s2), 0x8000_0000);
}

#[test]
fn division_corner_cases() {
    let em = run_to_end(&[
        Inst::LUI { rd: Reg::a0, imm: 0x80000 },
        li(Reg::a1, -1),
        Inst::DIV { rd: Reg::a2, rs1: Reg::a0, rs2: Reg::a1 },
        Inst::REM { rd: Reg::a3, rs1: Reg::a0, rs2: Reg::a1 },
        Inst::DIV { rd: Reg::a4, rs1: Reg::a0, rs2: Reg::zero },
        Inst::REM { rd: Reg::a5, rs1: Reg::a0, rs2: Reg::zero },
        Inst::DIVU { rd: Reg::a6, rs1: Reg::a0, rs2: Reg::zero },
        Inst::REMU { rd: Reg::a7, rs1: Reg::a0, rs2: Reg::zero },
    ]);
    assert_eq!(em.reg(Reg::a2), 0x8000_0000);
    assert_eq!(em.reg(Reg::a3), 0);
    assert_eq!(em.reg(Reg::a4), 0xffff_ffff);
    assert_eq!(em.reg(Reg::a5), 0x8000_0000);
    assert_eq!(em.reg(Reg::a6), 0xffff_ffff);
    assert_eq!(em.reg(Reg::a7), 0x8000_0000);
}

#[test]
fn division_truncates_toward_zero() {
    let em = run_to_end(&[
        li(Reg::a0, -7),
        li(Reg::a1, 2),
        Inst::DIV { rd: Reg::a2, rs1: Reg::a0, rs2: Reg::a1 },
        Inst::REM { rd: Reg::a3, rs1: Reg::a0, rs2: Reg::a1 },
        Inst::DIVU { rd: Reg::a4, rs1: Reg::a1, rs2: Reg::a1 },
        Inst::REMU { rd: Reg::a5, rs1: Reg::a0, rs2: Reg::a1 },
    ]);
    assert_eq!(em.reg(Reg::a2) as i32, -3);
    assert_eq!(em.reg(Reg::a3) as i32, -1);
    assert_eq!(em.reg(Reg::a4), 1);
    assert_eq!(em.reg(Reg::a5), 1);
}

#[test]
fn multiply_high_words() {
    let em = run_to_end(&[
        li(Reg::a0, -1),
        li(Reg::a1, -1),
        Inst::MUL { rd: Reg::s2, rs1: Reg::a0, rs2: Reg::a1 },
        Inst::MULH { rd: Reg::s3, rs1: Reg::a0, rs2: Reg::a1 },
        Inst::MULHU { rd: Reg::s4, rs1: Reg::a0, rs2: Reg::a1 },
        Inst::MULHSU { rd: Reg::s5, rs1: Reg::a0, rs2: Reg::a1 },
        li(Reg::a2, -2),
        li(Reg::a3, 3),
        Inst::MUL { rd: Reg::s6, rs1: Reg::a2, rs2: Reg::a3 },
        Inst::MULH { rd: Reg::s7, rs1: Reg::a2, rs2: Reg::a3 },
        Inst::MULHU { rd: Reg::s8, rs1: Reg::a2, rs2: Reg::a3 },
    ]);
    assert_eq!(em.reg(Reg::s2), 1);
    assert_eq!(em.reg(Reg::s3), 0);
    assert_eq!(em.reg(Reg::s4), 0xffff_fffe);
    assert_eq!(em.reg(Reg::s5), 0xffff_ffff);
    assert_eq!(em.reg(Reg::s6) as i32, -6);
    assert_eq!(em.reg(Reg::s7), 0xffff_ffff);
    assert_eq!(em.reg(Reg::s8), 2);
}

#[test]
fn writes_to_zero_are_dropped() {
    let em = run_to_end(&[
        li(Reg::zero, 5),
        Inst::LUI { rd: Reg::zero, imm: 1 },
        Inst::ADD { rd: Reg::a0, rs1: Reg::zero, rs2: Reg::zero },
        Inst::ADDI { rd: Reg::a1, rs1: Reg::zero, imm: 9 },
    ]);
    assert_eq!(em.reg(Reg::zero), 0);
    assert_eq!(em.reg(Reg::a0), 0);
    assert_eq!(em.reg(Reg::a1), 9);
}

#[test]
fn set_reg_zero_is_dropped() {
    let mut em = Emulator::new(Some(64));
    em.set_reg(Reg::zero, 7);
    em.set_reg(Reg::t0, 7);
    assert_eq!(em.reg(Reg::zero), 0);
    assert_eq!(em.reg(Reg::t0), 7);
}

#[test]
fn jalr_clears_low_bit() {
    let em = run_to_end(&[
        Inst::LUI { rd: Reg::t0, imm: 1 },
        Inst::ADDI { rd: Reg::t0, rs1: Reg::t0, imm: 0x11 },
        Inst::JALR { rd: Reg::ra, rs1: Reg::t0, imm: 0 },
        li(Reg::a0, 1),
        li(Reg::a1, 2),
    ]);
    // 0x1011 & !1 = 0x1010: the fifth instruction; the fourth is skipped
    assert_eq!(em.reg(Reg::ra), 0x100c);
    assert_eq!(em.reg(Reg::a0), 0);
    assert_eq!(em.reg(Reg::a1), 2);
}

#[test]
fn jalr_reads_rs1_before_writing_rd() {
    let em = run_to_end(&[
        Inst::LUI { rd: Reg::t0, imm: 1 },
        Inst::JALR { rd: Reg::t0, rs1: Reg::t0, imm: 12 },
        li(Reg::a0, 1),
        li(Reg::a1, 2),
    ]);
    assert_eq!(em.reg(Reg::t0), 0x1008);
    assert_eq!(em.reg(Reg::a0), 0);
    assert_eq!(em.reg(Reg::a1), 2);
}

#[test]
fn jal_links_and_jumps() {
    let em = run_to_end(&[
        Inst::JAL { rd: Reg::ra, imm: 8 },
        li(Reg::a0, 1),
        li(Reg::a1, 2),
    ]);
    assert_eq!(em.reg(Reg::ra), 0x1004);
    assert_eq!(em.reg(Reg::a0), 0);
    assert_eq!(em.reg(Reg::a1), 2);
}

#[test]
fn branches_signed_and_unsigned() {
    let em = run_to_end(&[
        li(Reg::a0, -1),
        li(Reg::a1, 1),
        // signed: -1 < 1, taken, skips the next instruction
        Inst::BLT { rs1: Reg::a0, rs2: Reg::a1, imm: 8 },
        li(Reg::s2, 1),
        // unsigned: 0xffffffff < 1 is false, falls through
        Inst::BLTU { rs1: Reg::a0, rs2: Reg::a1, imm: 8 },
        li(Reg::s3, 1),
        Inst::BGEU { rs1: Reg::a0, rs2: Reg::a1, imm: 8 },
        li(Reg::s4, 1),
        Inst::BGE { rs1: Reg::a0, rs2: Reg::a1, imm: 8 },
        li(Reg::s5, 1),
        Inst::BEQ { rs1: Reg::a0, rs2: Reg::a0, imm: 8 },
        li(Reg::s6, 1),
        Inst::BNE { rs1: Reg::a0, rs2: Reg::a0, imm: 8 },
        li(Reg::s7, 1),
    ]);
    assert_eq!(em.reg(Reg::s2), 0);
    assert_eq!(em.reg(Reg::s3), 1);
    assert_eq!(em.reg(Reg::s4), 0);
    assert_eq!(em.reg(Reg::s5), 1);
    assert_eq!(em.reg(Reg::s6), 0);
    assert_eq!(em.reg(Reg::s7), 1);
}

#[test]
fn backward_branch_loop() {
    // a0 counts down from 5; a1 counts the iterations
    let em = run_to_end(&[
        li(Reg::a0, 5),
        Inst::ADDI { rd: Reg::a1, rs1: Reg::a1, imm: 1 },
        Inst::ADDI { rd: Reg::a0, rs1: Reg::a0, imm: -1 },
        Inst::BNE { rs1: Reg::a0, rs2: Reg::zero, imm: -8 },
    ]);
    assert_eq!(em.reg(Reg::a1), 5);
}

#[test]
fn comparisons_set_flags() {
    let em = run_to_end(&[
        li(Reg::a0, -1),
        Inst::SLTI { rd: Reg::s2, rs1: Reg::a0, imm: 0 },
        Inst::SLTIU { rd: Reg::s3, rs1: Reg::a0, imm: 0 },
        Inst::SLT { rd: Reg::s4, rs1: Reg::zero, rs2: Reg::a0 },
        Inst::SLTU { rd: Reg::s5, rs1: Reg::zero, rs2: Reg::a0 },
        Inst::SLTIU { rd: Reg::s6, rs1: Reg::zero, imm: -1 },
    ]);
    assert_eq!(em.reg(Reg::s2), 1);
    assert_eq!(em.reg(Reg::s3), 0);
    assert_eq!(em.reg(Reg::s4), 0);
    assert_eq!(em.reg(Reg::s5), 1);
    assert_eq!(em.reg(Reg::s6), 1);
}

#[test]
fn logic_with_immediates() {
    let em = run_to_end(&[
        li(Reg::a0, 0x0f0),
        Inst::XORI { rd: Reg::s2, rs1: Reg::a0, imm: -1 },
        Inst::ORI { rd: Reg::s3, rs1: Reg::a0, imm: 0x00f },
        Inst::ANDI { rd: Reg::s4, rs1: Reg::a0, imm: 0x0ff },
        Inst::XOR { rd: Reg::s5, rs1: Reg::a0, rs2: Reg::s3 },
        Inst::OR { rd: Reg::s6, rs1: Reg::a0, rs2: Reg::s3 },
        Inst::AND { rd: Reg::s7, rs1: Reg::a0, rs2: Reg::s3 },
    ]);
    assert_eq!(em.reg(Reg::s2), 0xffff_ff0f);
    assert_eq!(em.reg(Reg::s3), 0x0ff);
    assert_eq!(em.reg(Reg::s4), 0x0f0);
    assert_eq!(em.reg(Reg::s5), 0x00f);
    assert_eq!(em.reg(Reg::s6), 0x0ff);
    assert_eq!(em.reg(Reg::s7), 0x0f0);
}

#[test]
fn upper_immediates() {
    let em = run_to_end(&[
        Inst::LUI { rd: Reg::a0, imm: 0x12345 },
        Inst::AUIPC { rd: Reg::a1, imm: 2 },
    ]);
    assert_eq!(em.reg(Reg::a0), 0x1234_5000);
    assert_eq!(em.reg(Reg::a1), 0x1004 + 0x2000);
}

#[test]
fn stores_and_loads_little_endian() {
    let em = run_to_end(&[
        Inst::LUI { rd: Reg::t0, imm: 2 },
        Inst::LUI { rd: Reg::a0, imm: 0x81828 },
        Inst::ADDI { rd: Reg::a0, rs1: Reg::a0, imm: 0x384 },
        Inst::SW { rs1: Reg::t0, rs2: Reg::a0, imm: 0 },
        Inst::SH { rs1: Reg::t0, rs2: Reg::a0, imm: 4 },
        Inst::SB { rs1: Reg::t0, rs2: Reg::a0, imm: 8 },
        Inst::LW { rd: Reg::s2, rs1: Reg::t0, imm: 0 },
        Inst::LB { rd: Reg::s3, rs1: Reg::t0, imm: 3 },
        Inst::LBU { rd: Reg::s4, rs1: Reg::t0, imm: 3 },
        Inst::LH { rd: Reg::s5, rs1: Reg::t0, imm: 2 },
        Inst::LHU { rd: Reg::s6, rs1: Reg::t0, imm: 2 },
        Inst::LW { rd: Reg::s7, rs1: Reg::t0, imm: 4 },
        Inst::LW { rd: Reg::s8, rs1: Reg::t0, imm: 8 },
    ]);
    assert_eq!(em.reg(Reg::a0), 0x8182_8384);
    assert_eq!(em.byte(0x2000), 0x84);
    assert_eq!(em.byte(0x2001), 0x83);
    assert_eq!(em.byte(0x2002), 0x82);
    assert_eq!(em.byte(0x2003), 0x81);
    assert_eq!(em.reg(Reg::s2), 0x8182_8384);
    assert_eq!(em.reg(Reg::s3), 0xffff_ff81);
    assert_eq!(em.reg(Reg::s4), 0x81);
    assert_eq!(em.reg(Reg::s5), 0xffff_8182);
    assert_eq!(em.reg(Reg::s6), 0x8182);
    assert_eq!(em.reg(Reg::s7), 0x8384);
    assert_eq!(em.reg(Reg::s8), 0x84);
}

#[test]
fn load_past_memory_fails() {
    let mut em = start(&[Inst::LUI { rd: Reg::t0, imm: 0x10 }, Inst::LW { rd: Reg::a0, rs1: Reg::t0, imm: -2 }]);
    // memory is 0x10000 bytes: a word at 0xfffe runs over the end
    assert_eq!(em.run(10), Err(EmulatorError::Execution(ExecError::MemoryAccess(0x1004))));
    assert_eq!(em.pc(), 0x1004);
    assert_eq!(em.reg(Reg::a0), 0);
}

#[test]
fn store_past_memory_fails() {
    let mut em = start(&[Inst::SB { rs1: Reg::t0, rs2: Reg::t0, imm: -1 }]);
    assert_eq!(em.run(10), Err(EmulatorError::Execution(ExecError::MemoryAccess(0x1000))));
}

#[test]
fn ecall_requests_syscalls() {
    let mut em = start(&[
        li(Reg::a7, 64),
        li(Reg::a0, 1),
        li(Reg::a1, 0x100),
        li(Reg::a2, 5),
        Inst::ECALL,
        li(Reg::a7, 93),
        li(Reg::a0, 3),
        Inst::ECALL,
        li(Reg::a7, 1),
        li(Reg::a0, -4),
        Inst::ECALL,
        li(Reg::a7, 4),
        Inst::ECALL,
        li(Reg::a7, 5),
        Inst::ECALL,
        li(Reg::a7, 10),
        Inst::ECALL,
        li(Reg::a7, 7),
        Inst::ECALL,
    ]);
    assert_eq!(em.run(100), Ok(Some(Syscall::Write { fd: 1, addr: 0x100, len: 5 })));
    assert_eq!(em.pc(), 0x1014);
    assert_eq!(em.run(100), Ok(Some(Syscall::Exit(3))));
    assert_eq!(em.run(100), Ok(Some(Syscall::PrintInt(-4))));
    assert_eq!(em.run(100), Ok(Some(Syscall::PrintString(0xffff_fffc))));
    assert_eq!(em.run(100), Ok(Some(Syscall::ReadInt)));
    assert_eq!(em.run(100), Ok(Some(Syscall::Exit(0))));
    assert_eq!(em.run(100), Ok(Some(Syscall::Unknown(7))));
}

#[test]
fn fuel_runs_out() {
    let mut em = start(&[Inst::JAL { rd: Reg::zero, imm: 0 }]);
    assert_eq!(em.run(10), Ok(None));
    assert_eq!(em.pc(), 0x1000);
}

#[test]
fn step_one_instruction() {
    let mut em = start(&[li(Reg::a0, 3), Inst::ECALL]);
    assert_eq!(em.step(), Ok(None));
    assert_eq!(em.reg(Reg::a0), 3);
    assert_eq!(em.curr(), Ok(Inst::ECALL));
    assert_eq!(em.step(), Ok(Some(Syscall::Unknown(0))));
    assert_eq!(em.step(), Err(EmulatorError::Execution(ExecError::PcOutsideText(0x1008))));
}

#[test]
fn undecodable_word_stops_run() {
    let bytes = vec![0xff, 0xff, 0xff, 0xff];
    let image = ElfImage {
        sections: vec![Section { name: ".text".to_string(), addr: 0, size: 4, offset: Some(0), alloc: true }],
        symbols: vec![],
    };
    let mut em = Emulator::load_from(&bytes, &image, Some(64)).unwrap();
    em.init().unwrap();
    match em.run(5) {
        Err(EmulatorError::InstructionDecode(e)) => assert_eq!(e.word, 0xffff_ffff),
        other => panic!("unexpected {:?}", other),
    }
    assert!(matches!(em.inst(0), Err(EmulatorError::InstructionDecode(_))));
    assert_eq!(em.inst(62), Err(EmulatorError::Execution(ExecError::MemoryAccess(62))));
}

#[test]
fn init_uses_symbols() {
    let (bytes, mut image) = image(&[li(Reg::a0, 1), li(Reg::a1, 2)]);
    image.symbols = vec![
        Symbol { name: "_start".to_string(), value: TEXT + 4 },
        Symbol { name: "__global_pointer$".to_string(), value: 0x1800 },
        Symbol { name: String::new(), value: 0x42 },
    ];
    let mut em = Emulator::load_from(&bytes, &image, Some(0x1_0000)).unwrap();
    assert_eq!(em.symbol_list().len(), 2);
    assert_eq!(em.find_symbol("_start"), Some(TEXT + 4));
    em.init().unwrap();
    assert_eq!(em.pc(), 0x1004);
    assert_eq!(em.reg(Reg::gp), 0x1800);
    assert_eq!(em.reg(Reg::sp), 0x8000);
    assert_eq!(em.run(10), Err(EmulatorError::Execution(ExecError::PcOutsideText(0x1008))));
    assert_eq!(em.reg(Reg::a0), 0);
    assert_eq!(em.reg(Reg::a1), 2);
}

#[test]
fn init_without_entry_fails() {
    let mut em = Emulator::new(None);
    assert_eq!(em.mem_len(), DEFAULT_MEMORY_SIZE);
    assert_eq!(em.init(), Err(EmulatorError::EntryPoint));
    assert_eq!(em.pc(), 0);
}

#[test]
fn section_outside_memory_fails() {
    let (bytes, mut image) = image(&[li(Reg::a0, 1)]);
    image.sections[0].addr = 0xfffe;
    assert_eq!(
        Emulator::load_from(&bytes, &image, Some(0x1_0000)).err(),
        Some(EmulatorError::Section { addr: 0xfffe, size: 4 })
    );
}

#[test]
fn section_outside_file_fails() {
    let (bytes, mut image) = image(&[li(Reg::a0, 1)]);
    image.sections[0].offset = Some(2);
    assert_eq!(
        Emulator::load_from(&bytes, &image, None).err(),
        Some(EmulatorError::Section { addr: TEXT, size: 4 })
    );
}

#[test]
fn load_copies_sections_and_clears_bss() {
    let bytes = vec![1u8, 2, 3, 4, 5, 6, 7, 8];
    let image = ElfImage {
        sections: vec![
            Section { name: ".data".to_string(), addr: 0x20, size: 8, offset: Some(0), alloc: true },
            Section { name: ".comment".to_string(), addr: 0x40, size: 4, offset: Some(4), alloc: false },
            Section { name: ".bss".to_string(), addr: 0x26, size: 2, offset: None, alloc: true },
        ],
        symbols: vec![
            Symbol { name: "__bss_start".to_string(), value: 0x26 },
            Symbol { name: "__BSS_END__".to_string(), value: 0x28 },
        ],
    };
    let em = Emulator::load_from(&bytes, &image, Some(0x80)).unwrap();
    let got: Vec<u8> = (0x20..0x28).map(|a| em.byte(a)).collect();
    assert_eq!(got, vec![1, 2, 3, 4, 5, 6, 0, 0]);
    assert_eq!(em.byte(0x40), 0);
    assert_eq!(em.section_list().len(), 1);
    assert_eq!(em.find_section(".data"), Some((0x20, 0x28)));
    assert_eq!(em.find_section(".bss"), None);
}

#[test]
fn bss_past_memory_fails() {
    let image = ElfImage {
        sections: vec![],
        symbols: vec![
            Symbol { name: "__bss_start".to_string(), value: 0x10 },
            Symbol { name: "__BSS_END__".to_string(), value: 0x100 },
        ],
    };
    assert_eq!(
        Emulator::load_from(&vec![], &image, Some(0x80)).err(),
        Some(EmulatorError::Section { addr: 0x10, size: 0xf0 })
    );
}

#[test]
fn host_reads_memory() {
    let bytes = b"Hi!\0xy".to_vec();
    let image = ElfImage {
        sections: vec![Section { name: ".rodata".to_string(), addr: 8, size: 6, offset: Some(0), alloc: true }],
        symbols: vec![],
    };
    let em = Emulator::load_from(&bytes, &image, Some(14)).unwrap();
    assert_eq!(em.read_cstr(8), Ok(b"Hi!".to_vec()));
    assert_eq!(em.read_cstr(11), Ok(vec![]));
    assert_eq!(em.read_cstr(12), Err(EmulatorError::Execution(ExecError::MemoryAccess(12))));
    assert_eq!(em.read_bytes(12, 2), Ok(b"xy".to_vec()));
    assert_eq!(em.read_bytes(12, 3), Err(EmulatorError::Execution(ExecError::MemoryAccess(12))));
}

#[test]
fn write_result_values() {
    assert_eq!(Syscall::write_result(Some(12)), 12);
    assert_eq!(Syscall::write_result(None), 0xffff_ffff);
}

#[test]
fn new_zeroes_everything() {
    let em = Emulator::new(Some(16));
    assert_eq!(em.mem_len(), 16);
    assert_eq!(em.pc(), 0);
    for i in 0..32 {
        assert_eq!(em.reg(Reg::from_index(i)), 0);
    }
    assert_eq!(em.byte(15), 0);
}

#[test]
fn hello_world_program() {
    let insts = vec![
        Inst::AUIPC { rd: Reg::a1, imm: 1 },
        li(Reg::a0, 1),
        li(Reg::a2, 13),
        li(Reg::a7, 64),
        Inst::ECALL,
        li(Reg::a0, 0),
        li(Reg::a7, 93),
        Inst::ECALL,
    ];
    let (mut bytes, mut image) = image(&insts);
    let text_len = bytes.len();
    bytes.extend_from_slice(b"Hello World!\n");
    image.sections.push(Section {
        name: ".rodata".to_string(),
        addr: 0x2000,
        size: 13,
        offset: Some(text_len),
        alloc: true,
    });
    let mut em = Emulator::load_from(&bytes, &image, Some(0x1_0000)).unwrap();
    em.init().unwrap();
    assert_eq!(em.run(100), Ok(Some(Syscall::Write { fd: 1, addr: 0x2000, len: 13 })));
    assert_eq!(em.read_bytes(0x2000, 13), Ok(b"Hello World!\n".to_vec()));
    em.set_reg(Reg::a0, Syscall::write_result(Some(13)));
    assert_eq!(em.run(100), Ok(Some(Syscall::Exit(0))));
}

#[test]
fn recursive_factorial_program() {
    let em_insts = [
        // main
        li(Reg::a0, 5),
        Inst::JAL { rd: Reg::ra, imm: 20 },
        li(Reg::a7, 1),
        Inst::ECALL,
        li(Reg::a7, 10),
        Inst::ECALL,
        // fac(a0)
        Inst::ADDI { rd: Reg::sp, rs1: Reg::sp, imm: -8 },
        Inst::SW { rs1: Reg::sp, rs2: Reg::ra, imm: 4 },
        Inst::SW { rs1: Reg::sp, rs2: Reg::a0, imm: 0 },
        li(Reg::t0, 2),
        Inst::BLT { rs1: Reg::a0, rs2: Reg::t0, imm: 24 },
        Inst::ADDI { rd: Reg::a0, rs1: Reg::a0, imm: -1 },
        Inst::JAL { rd: Reg::ra, imm: -24 },
        Inst::LW { rd: Reg::t1, rs1: Reg::sp, imm: 0 },
        Inst::MUL { rd: Reg::a0, rs1: Reg::a0, rs2: Reg::t1 },
        Inst::JAL { rd: Reg::zero, imm: 8 },
        li(Reg::a0, 1),
        Inst::LW { rd: Reg::ra, rs1: Reg::sp, imm: 4 },
        Inst::ADDI { rd: Reg::sp, rs1: Reg::sp, imm: 8 },
        Inst::JALR { rd: Reg::zero, rs1: Reg::ra, imm: 0 },
    ];
    let mut em = start(&em_insts);
    assert_eq!(em.run(1000), Ok(Some(Syscall::PrintInt(120))));
    assert_eq!(em.reg(Reg::sp), 0x8000);
    assert_eq!(em.run(1000), Ok(Some(Syscall::Exit(0))));
}

#[test]
fn default_has_default_memory() {
    let em = Emulator::default();
    assert_eq!(em.mem_len(), DEFAULT_MEMORY_SIZE);
    assert_eq!(em.pc(), 0);
}

#[test]
fn run_without_entry_point_fails() {
    let image = ElfImage {
        sections: vec![Section { name: ".data".to_string(), addr: 0, size: 4, offset: Some(0), alloc: true }],
        symbols: vec![],
    };
    let mut em = Emulator::load_from(&vec![0x13, 0, 0, 0], &image, Some(64)).unwrap();
    assert_eq!(em.run(10), Err(EmulatorError::EntryPoint));
    assert_eq!(em.step(), Err(EmulatorError::EntryPoint));
    assert_eq!(em.pc(), 0);
    assert_eq!(em.reg(Reg::sp), 0);
}

#[test]
fn run_does_the_start_up() {
    let (bytes, mut image) = image(&[li(Reg::a0, 1), li(Reg::a1, 2), Inst::ECALL]);
    image.symbols = vec![
        Symbol { name: "_start".to_string(), value: TEXT + 4 },
        Symbol { name: "__global_pointer$".to_string(), value: 0x1800 },
    ];
    let mut em = Emulator::load_from(&bytes, &image, Some(0x1_0000)).unwrap();
    assert_eq!(em.run(10), Ok(Some(Syscall::Unknown(0))));
    assert_eq!(em.reg(Reg::a0), 0);
    assert_eq!(em.reg(Reg::a1), 2);
    assert_eq!(em.reg(Reg::gp), 0x1800);
    assert_eq!(em.reg(Reg::sp), 0x8000);
    // a second call goes on from the current state
    em.set_reg(Reg::sp, 0x100);
    assert_eq!(em.run(10), Err(EmulatorError::Execution(ExecError::PcOutsideText(0x100c))));
    assert_eq!(em.reg(Reg::sp), 0x100);
}

#[test]
fn step_does_the_start_up_at_text() {
    let (bytes, image) = image(&[li(Reg::a0, 7)]);
    let mut em = Emulator::load_from(&bytes, &image, Some(0x2000)).unwrap();
    assert_eq!(em.step(), Ok(None));
    assert_eq!(em.reg(Reg::a0), 7);
    assert_eq!(em.reg(Reg::sp), 0x1000);
    assert_eq!(em.pc(), 0x1004);
}

#[test]
fn fences_are_no_ops() {
    let em = run_to_end(&[
        li(Reg::a0, 3),
        Inst::FENCE { rd: Reg::zero, rs1: Reg::zero, imm: 0x0ff },
        Inst::FENCE_I { rd: Reg::zero, rs1: Reg::zero, imm: 0 },
        li(Reg::a1, 4),
    ]);
    assert_eq!(em.reg(Reg::a0), 3);
    assert_eq!(em.reg(Reg::a1), 4);
}
