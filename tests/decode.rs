use rvem::{sext, DecodeError, Inst, Reg};

#[test]
fn test_sext() {
    let value = 0xff0u32;
    assert_eq!(sext(value, 12), 0xfffffff0);

    let value = 0x7f0u32;
    assert_eq!(sext(value, 12), value);
}

#[test]
fn sext_full_width_is_identity() {
    assert_eq!(sext(0x8000_0000, 32), 0x8000_0000);
    assert_eq!(sext(1, 1), 0xffff_ffff);
}

fn round_trip(word: u32) -> Inst {
    let inst = Inst::decode(word).unwrap();
    assert_eq!(inst.encode(), word);
    assert_eq!(u32::from(inst), word);
    inst
}

#[test]
fn decode_beq() {
    let inst = round_trip(0x02238a63);
    assert_eq!(inst, Inst::BEQ { rs1: Reg::t2, rs2: Reg::sp, imm: 52 });
}

#[test]
fn decode_addi() {
    let inst = round_trip(0x02058593);
    assert_eq!(inst, Inst::ADDI { rd: Reg::a1, rs1: Reg::a1, imm: 32 });
}

#[test]
fn decode_slli() {
    let inst = round_trip(0x00361613);
    assert_eq!(inst, Inst::SLLI { rd: Reg::a2, rs1: Reg::a2, shamt: 3 });
}

#[test]
fn decode_jal_negative() {
    let inst = round_trip(0xfedff06f);
    assert_eq!(inst, Inst::JAL { rd: Reg::zero, imm: -20 });
}

#[test]
fn decode_add() {
    let inst = round_trip(0x00e787b3);
    assert_eq!(inst, Inst::ADD { rd: Reg::a5, rs1: Reg::a5, rs2: Reg::a4 });
}

#[test]
fn decode_sw_negative_offset() {
    let inst = round_trip(0xd6a1a023);
    assert_eq!(inst, Inst::SW { rs1: Reg::gp, rs2: Reg::a0, imm: -672 });
}

#[test]
fn decode_lui_keeps_raw_upper_field() {
    let inst = round_trip(0x808088b7);
    assert_eq!(inst, Inst::LUI { rd: Reg::a7, imm: 0x80808 });
}

#[test]
fn decode_ecall_exact_word() {
    assert_eq!(round_trip(0x0000_0073), Inst::ECALL);
    let err = Inst::decode(0x0010_0073).unwrap_err();
    assert_eq!(err.opcode, 0x73);
}

#[test]
fn decode_add_zero_registers() {
    let inst = round_trip(0x0000_00b3);
    assert_eq!(inst, Inst::ADD { rd: Reg::ra, rs1: Reg::zero, rs2: Reg::zero });
}

#[test]
fn decode_shift_by_31() {
    let srai = Inst::SRAI { rd: Reg::t0, rs1: Reg::t1, shamt: 31 };
    let word = srai.encode();
    assert_eq!(Inst::decode(word), Ok(srai));
    assert_eq!(Inst::shamt(word), 31);
    assert_eq!(Inst::funct7(word), 0x20);
}

#[test]
fn decode_branch_offset_extremes() {
    let fwd = Inst::BNE { rs1: Reg::a0, rs2: Reg::a1, imm: 4094 };
    let back = Inst::BLTU { rs1: Reg::a0, rs2: Reg::a1, imm: -4096 };
    assert_eq!(Inst::decode(fwd.encode()), Ok(fwd));
    assert_eq!(Inst::decode(back.encode()), Ok(back));
    assert_eq!(Inst::imm_b(back.encode()), -4096);
}

#[test]
fn decode_jump_offset_extremes() {
    let fwd = Inst::JAL { rd: Reg::ra, imm: 0xf_fffe };
    let back = Inst::JAL { rd: Reg::ra, imm: -0x10_0000 };
    assert_eq!(Inst::decode(fwd.encode()), Ok(fwd));
    assert_eq!(Inst::decode(back.encode()), Ok(back));
}

#[test]
fn decode_rv32m() {
    let cases = [
        Inst::MUL { rd: Reg::a0, rs1: Reg::a1, rs2: Reg::a2 },
        Inst::MULH { rd: Reg::a0, rs1: Reg::a1, rs2: Reg::a2 },
        Inst::MULHSU { rd: Reg::a0, rs1: Reg::a1, rs2: Reg::a2 },
        Inst::MULHU { rd: Reg::a0, rs1: Reg::a1, rs2: Reg::a2 },
        Inst::DIV { rd: Reg::a0, rs1: Reg::a1, rs2: Reg::a2 },
        Inst::DIVU { rd: Reg::a0, rs1: Reg::a1, rs2: Reg::a2 },
        Inst::REM { rd: Reg::a0, rs1: Reg::a1, rs2: Reg::a2 },
        Inst::REMU { rd: Reg::a0, rs1: Reg::a1, rs2: Reg::a2 },
    ];
    for inst in cases {
        assert_eq!(Inst::decode(inst.encode()), Ok(inst));
    }
    // mul a0, a1, a2
    assert_eq!(Inst::decode(0x02c58533), Ok(cases[0]));
}

#[test]
fn encode_decode_every_format() {
    let cases = [
        Inst::LB { rd: Reg::s1, rs1: Reg::sp, imm: -2048 },
        Inst::LHU { rd: Reg::s1, rs1: Reg::sp, imm: 2047 },
        Inst::SB { rs1: Reg::s11, rs2: Reg::t6, imm: -1 },
        Inst::SH { rs1: Reg::s11, rs2: Reg::t6, imm: 2047 },
        Inst::JALR { rd: Reg::ra, rs1: Reg::t0, imm: -12 },
        Inst::AUIPC { rd: Reg::gp, imm: 0xfffff },
        Inst::SLTIU { rd: Reg::a0, rs1: Reg::a0, imm: -1 },
        Inst::SRA { rd: Reg::a0, rs1: Reg::a0, rs2: Reg::a1 },
        Inst::SUB { rd: Reg::t3, rs1: Reg::t4, rs2: Reg::t5 },
    ];
    for inst in cases {
        assert!(Inst::decode(inst.encode()) == Ok(inst), "{:?}", inst);
    }
}

#[test]
fn decode_errors_carry_fields() {
    // unknown opcode
    assert_eq!(
        Inst::decode(0x0000_007f),
        Err(DecodeError { word: 0x7f, opcode: 0x7f, funct3: None, funct7: None })
    );
    // branch with funct3 = 2
    let w = 0x0000_2063;
    assert_eq!(
        Inst::decode(w),
        Err(DecodeError { word: w, opcode: 0x63, funct3: Some(2), funct7: None })
    );
    // R-type with funct7 = 0x7f
    let w = 0xfe00_0033;
    assert_eq!(
        Inst::decode(w),
        Err(DecodeError { word: w, opcode: 0x33, funct3: Some(0), funct7: Some(0x7f) })
    );
    // shift-immediate with a bad funct7
    let w = 0x4000_1013;
    assert_eq!(
        Inst::decode(w),
        Err(DecodeError { word: w, opcode: 0x13, funct3: Some(1), funct7: Some(0x20) })
    );
}

#[test]
fn field_extractors() {
    let w = 0xd6a1a023;
    assert_eq!(Inst::opcode(w), 0x23);
    assert_eq!(Inst::funct3(w), 2);
    assert_eq!(Inst::rs1(w), Reg::gp);
    assert_eq!(Inst::rs2(w), Reg::a0);
    assert_eq!(Inst::imm_s(w), -672);
    assert_eq!(Inst::rd(0x02058593), Reg::a1);
    assert_eq!(Inst::imm_i(0xfff0_0093), -1);
    assert_eq!(Inst::imm_u(0x808088b7), 0x80808);
    assert_eq!(Inst::imm_j(0xfedff06f), -20);
}

#[test]
fn branch_offsets_are_even() {
    for w in [0xffff_ffe3u32, 0x8000_0063, 0x7fff_ffe3, 0xffff_f06f, 0x0000_0f63] {
        assert_eq!(Inst::imm_b(w) & 1, 0);
        assert_eq!(Inst::imm_j(w) & 1, 0);
    }
}

#[test]
fn register_numbers_and_names() {
    for i in 0..32u32 {
        assert_eq!(Reg::from_index(i).index(), i);
        assert_eq!(u32::from(Reg::from_index(i)), i);
    }
    assert_eq!(Reg::from_index(8), Reg::s0);
    assert_eq!(Reg::s0.name(), "s0");
    assert_eq!(Reg::t6.name(), "t6");
    assert_eq!(Reg::zero.name(), "zero");
}

#[test]
fn disassemble_branch() {
    let inst = Inst::decode(0x02238a63).unwrap();
    assert_eq!(inst.disassemble(None), "beq t2, sp, PC+52");
    assert_eq!(inst.disassemble(Some(0x100)), "beq t2, sp, 134");
    let back = Inst::BGE { rs1: Reg::a0, rs2: Reg::zero, imm: -8 };
    assert_eq!(back.disassemble(None), "bge a0, zero, PC+-8");
    assert_eq!(back.disassemble(Some(0x1008)), "bge a0, zero, 1000");
}

#[test]
fn disassemble_immediates() {
    assert_eq!(Inst::decode(0x02058593).unwrap().disassemble(None), "addi a1, a1, 32");
    assert_eq!(Inst::ADDI { rd: Reg::a0, rs1: Reg::zero, imm: -5 }.disassemble(None), "li a0, -5");
    assert_eq!(Inst::SLTIU { rd: Reg::t0, rs1: Reg::t1, imm: 2047 }.disassemble(None), "sltiu t0, t1, 2047");
    assert_eq!(Inst::SRAI { rd: Reg::t0, rs1: Reg::t1, shamt: 31 }.disassemble(None), "srai t0, t1, 31");
    assert_eq!(Inst::decode(0x00361613).unwrap().disassemble(None), "slli a2, a2, 3");
}

#[test]
fn disassemble_memory() {
    assert_eq!(Inst::decode(0xd6a1a023).unwrap().disassemble(None), "sw a0, -672(gp)");
    assert_eq!(Inst::LW { rd: Reg::s2, rs1: Reg::t0, imm: 0 }.disassemble(None), "lw s2, 0(t0)");
    assert_eq!(Inst::JALR { rd: Reg::ra, rs1: Reg::t0, imm: -2048 }.disassemble(None), "jalr ra, -2048(t0)");
}

#[test]
fn disassemble_jumps_and_upper() {
    let jal = Inst::decode(0xfedff06f).unwrap();
    assert_eq!(jal.disassemble(Some(0x1014)), "j 1000");
    assert_eq!(jal.disassemble(None), "jal zero, ffffffec");
    assert_eq!(Inst::decode(0x808088b7).unwrap().disassemble(None), "lui a7, 0x80808");
    assert_eq!(Inst::AUIPC { rd: Reg::gp, imm: 0 }.disassemble(None), "auipc gp, 0x0");
}

#[test]
fn disassemble_register_ops() {
    assert_eq!(Inst::decode(0x00e787b3).unwrap().disassemble(None), "add a5, a5, a4");
    assert_eq!(Inst::decode(0x02c58533).unwrap().disassemble(None), "mul a0, a1, a2");
    assert_eq!(Inst::REMU { rd: Reg::s10, rs1: Reg::s11, rs2: Reg::t6 }.disassemble(None), "remu s10, s11, t6");
    assert_eq!(Inst::ECALL.disassemble(None), "ecall");
}

#[test]
fn decode_fences() {
    // fence iorw, iorw
    assert_eq!(round_trip(0x0ff0_000f), Inst::FENCE { rd: Reg::zero, rs1: Reg::zero, imm: 0x0ff });
    assert_eq!(round_trip(0x0000_100f), Inst::FENCE_I { rd: Reg::zero, rs1: Reg::zero, imm: 0 });
    assert_eq!(
        Inst::decode(0x0000_200f),
        Err(DecodeError { word: 0x200f, opcode: 0x0f, funct3: Some(2), funct7: None })
    );
    assert_eq!(Inst::decode(0x0ff0_000f).unwrap().disassemble(None), "fence");
    assert_eq!(Inst::decode(0x0000_100f).unwrap().disassemble(None), "fence.i");
}

#[test]
fn layout_encoders() {
    assert_eq!(Inst::b_type(0x63, 0, Reg::t2, Reg::sp, 52), 0x02238a63);
    assert_eq!(Inst::i_type(0x13, 0, Reg::a1, Reg::a1, 32), 0x02058593);
    assert_eq!(Inst::i_type_shamt(0x13, 1, 0, Reg::a2, Reg::a2, 3), 0x00361613);
    assert_eq!(Inst::j_type(0x6f, Reg::zero, -20), 0xfedff06f);
    assert_eq!(Inst::r_type(0x33, 0, 0, Reg::a5, Reg::a5, Reg::a4), 0x00e787b3);
    assert_eq!(Inst::s_type(0x23, 2, Reg::gp, Reg::a0, -672), 0xd6a1a023);
    assert_eq!(Inst::u_type(0x37, Reg::a7, 0x80808), 0x808088b7);
}
