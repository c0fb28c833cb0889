//! Instructions: bit fields of an instruction word, the decoder from words to
//! [`Inst`], and the encoder back to words.
use vstd::prelude::*;

use crate::reg::Reg;

verus! {

/// Major opcode of conditional branches (B-type).
pub const OPC_BRANCH: u32 = 0x63;
/// Major opcode of loads (I-type).
pub const OPC_LOAD: u32 = 0x03;
/// Major opcode of stores (S-type).
pub const OPC_STORE: u32 = 0x23;
/// Major opcode of register-immediate arithmetic (I-type and shift-immediate).
pub const OPC_OP_IMM: u32 = 0x13;
/// Major opcode of register-register arithmetic, RV32M included (R-type).
pub const OPC_OP: u32 = 0x33;
/// Major opcode of `JALR` (I-type).
pub const OPC_JALR: u32 = 0x67;
/// Major opcode of `JAL` (J-type).
pub const OPC_JAL: u32 = 0x6f;
/// Major opcode of `LUI` (U-type).
pub const OPC_LUI: u32 = 0x37;
/// Major opcode of `AUIPC` (U-type).
pub const OPC_AUIPC: u32 = 0x17;
/// Major opcode of memory ordering instructions (`FENCE`, `FENCE.I`; I-type).
pub const OPC_MISC_MEM: u32 = 0x0f;
/// Major opcode of system instructions.
pub const OPC_SYSTEM: u32 = 0x73;
/// The one system instruction word that is supported: `ECALL`.
pub const ECALL_WORD: u32 = 0x73;

/// `w[6:0]`
pub open spec fn spec_opcode(w: u32) -> u32 {
    w & 0x7f
}

/// `w[11:7]`
pub open spec fn spec_rd(w: u32) -> u32 {
    (w >> 7) & 0x1f
}

/// `w[19:15]`
pub open spec fn spec_rs1(w: u32) -> u32 {
    (w >> 15) & 0x1f
}

/// `w[24:20]`
pub open spec fn spec_rs2(w: u32) -> u32 {
    (w >> 20) & 0x1f
}

/// `w[24:20]`, read as a shift amount.
pub open spec fn spec_shamt(w: u32) -> u32 {
    (w >> 20) & 0x1f
}

/// `w[14:12]`
pub open spec fn spec_funct3(w: u32) -> u32 {
    (w >> 12) & 0x7
}

/// `w[31:25]`
pub open spec fn spec_funct7(w: u32) -> u32 {
    (w >> 25) & 0x7f
}

/// Sign-extension of the low `bits` bits of `v`: shift them to the top, then
/// shift back arithmetically.
pub open spec fn spec_sext(v: u32, bits: u32) -> u32 {
    (((v << (32 - bits) as u32) as i32) >> (32 - bits) as u32) as u32
}

/// `sext(w[31:20], 12)`
pub open spec fn spec_imm_i(w: u32) -> i32 {
    spec_sext(w >> 20, 12) as i32
}

/// `sext(w[31:25] ++ w[11:7], 12)`
pub open spec fn spec_imm_s(w: u32) -> i32 {
    spec_sext(((w >> 25) << 5) | ((w >> 7) & 0x1f), 12) as i32
}

/// `sext(w[31] ++ w[7] ++ w[30:25] ++ w[11:8] ++ 0, 13)`
pub open spec fn spec_imm_b(w: u32) -> i32 {
    spec_sext(
        (((w >> 31) & 1) << 12) | (((w >> 7) & 1) << 11) | (((w >> 25) & 0x3f) << 5) | (((w >> 8)
            & 0xf) << 1),
        13,
    ) as i32
}

/// `w[31:12]`, unshifted and not sign-extended.
pub open spec fn spec_imm_u(w: u32) -> i32 {
    (w >> 12) as i32
}

/// `sext(w[31] ++ w[19:12] ++ w[20] ++ w[30:21] ++ 0, 21)`
pub open spec fn spec_imm_j(w: u32) -> i32 {
    spec_sext(
        (((w >> 31) & 1) << 20) | (((w >> 12) & 0xff) << 12) | (((w >> 20) & 1) << 11) | (((w >> 21)
            & 0x3ff) << 1),
        21,
    ) as i32
}

/// R-type layout: `funct7 | rs2 | rs1 | funct3 | rd | opcode`.
pub open spec fn spec_r_type(op: u32, f3: u32, f7: u32, rd: u32, rs1: u32, rs2: u32) -> u32 {
    (f7 << 25) | (rs2 << 20) | (rs1 << 15) | (f3 << 12) | (rd << 7) | op
}

/// I-type layout: `imm[11:0] | rs1 | funct3 | rd | opcode`.
pub open spec fn spec_i_type(op: u32, f3: u32, rd: u32, rs1: u32, imm: i32) -> u32 {
    (((imm as u32) & 0xfff) << 20) | (rs1 << 15) | (f3 << 12) | (rd << 7) | op
}

/// Shift-immediate layout: `funct7 | shamt | rs1 | funct3 | rd | opcode`.
pub open spec fn spec_i_type_shamt(
    op: u32,
    f3: u32,
    f7: u32,
    rd: u32,
    rs1: u32,
    shamt: u32,
) -> u32 {
    (f7 << 25) | ((shamt & 0x1f) << 20) | (rs1 << 15) | (f3 << 12) | (rd << 7) | op
}

/// S-type layout: `imm[11:5] | rs2 | rs1 | funct3 | imm[4:0] | opcode`.
pub open spec fn spec_s_type(op: u32, f3: u32, rs1: u32, rs2: u32, imm: i32) -> u32 {
    let bits = imm as u32;
    ((bits & 0xfe0) << 20) | ((bits & 0x1f) << 7) | (rs2 << 20) | (rs1 << 15) | (f3 << 12) | op
}

/// B-type layout: `imm[12|10:5] | rs2 | rs1 | funct3 | imm[4:1|11] | opcode`.
pub open spec fn spec_b_type(op: u32, f3: u32, rs1: u32, rs2: u32, imm: i32) -> u32 {
    let bits = imm as u32;
    ((bits & 0x1000) << 19) | ((bits & 0x7e0) << 20) | ((bits & 0x1e) << 7) | ((bits & 0x800) >> 4)
        | (rs2 << 20) | (rs1 << 15) | (f3 << 12) | op
}

/// U-type layout: `imm[19:0] | rd | opcode`.
pub open spec fn spec_u_type(op: u32, rd: u32, imm: i32) -> u32 {
    ((imm as u32) << 12) | (rd << 7) | op
}

/// J-type layout: `imm[20|10:1|11|19:12] | rd | opcode`.
pub open spec fn spec_j_type(op: u32, rd: u32, imm: i32) -> u32 {
    let bits = imm as u32;
    ((bits & 0x10_0000) << 11) | ((bits & 0x7fe) << 20) | ((bits & 0x800) << 9) | (bits & 0xf_f000)
        | (rd << 7) | op
}

/// Sign-extends the low `bits` bits of `value` to 32 bits.
pub fn sext(value: u32, bits: usize) -> (r: u32)
    requires
        1 <= bits <= 32,
    ensures
        r == spec_sext(value, bits as u32),
{
    let s: u32 = (32 - bits) as u32;
    (((value << s) as i32) >> s) as u32
}

/// Why a word is not a supported instruction: the word and the fields that
/// were consulted before the decoder gave up.
#[derive(Clone, Copy, Debug, PartialEq, Eq)]
pub struct DecodeError {
    pub word: u32,
    pub opcode: u32,
    pub funct3: Option<u32>,
    pub funct7: Option<u32>,
}

/// The major opcode is unknown.
pub open spec fn spec_err_opcode(w: u32) -> DecodeError {
    DecodeError { word: w, opcode: spec_opcode(w), funct3: None, funct7: None }
}

/// The major opcode is known, its `funct3` is not.
pub open spec fn spec_err_funct3(w: u32) -> DecodeError {
    DecodeError { word: w, opcode: spec_opcode(w), funct3: Some(spec_funct3(w)), funct7: None }
}

/// Opcode and `funct3` are known, the upper bits (`funct7`) are not.
pub open spec fn spec_err_funct7(w: u32) -> DecodeError {
    DecodeError {
        word: w,
        opcode: spec_opcode(w),
        funct3: Some(spec_funct3(w)),
        funct7: Some(spec_funct7(w)),
    }
}

impl DecodeError {
    fn with_opcode(w: u32) -> (e: DecodeError)
        ensures
            e == spec_err_opcode(w),
    {
        DecodeError { word: w, opcode: w & 0x7f, funct3: None, funct7: None }
    }

    fn with_funct3(w: u32) -> (e: DecodeError)
        ensures
            e == spec_err_funct3(w),
    {
        DecodeError { word: w, opcode: w & 0x7f, funct3: Some((w >> 12) & 0x7), funct7: None }
    }

    fn with_funct7(w: u32) -> (e: DecodeError)
        ensures
            e == spec_err_funct7(w),
    {
        DecodeError {
            word: w,
            opcode: w & 0x7f,
            funct3: Some((w >> 12) & 0x7),
            funct7: Some((w >> 25) & 0x7f),
        }
    }
}

/// Every field extracted from a word lies in its range.
pub proof fn lemma_fields_bounded(w: u32)
    by (bit_vector)
    ensures
        (w >> 7) & 0x1f < 32,
        (w >> 15) & 0x1f < 32,
        (w >> 20) & 0x1f < 32,
        (w >> 12) & 0x7 < 8,
        ECALL_WORD & 0x7f == OPC_SYSTEM,
{
}

/// A decoded RV32I/RV32M instruction: one variant per mnemonic, each with the
/// operands of its format.
#[allow(non_camel_case_types)]
#[derive(Clone, Copy, Debug, PartialEq, Eq, Structural)]
pub enum Inst {
    BEQ { rs1: Reg, rs2: Reg, imm: i32 },
    BNE { rs1: Reg, rs2: Reg, imm: i32 },
    BLT { rs1: Reg, rs2: Reg, imm: i32 },
    BGE { rs1: Reg, rs2: Reg, imm: i32 },
    BLTU { rs1: Reg, rs2: Reg, imm: i32 },
    BGEU { rs1: Reg, rs2: Reg, imm: i32 },
    LB { rd: Reg, rs1: Reg, imm: i32 },
    LH { rd: Reg, rs1: Reg, imm: i32 },
    LW { rd: Reg, rs1: Reg, imm: i32 },
    LBU { rd: Reg, rs1: Reg, imm: i32 },
    LHU { rd: Reg, rs1: Reg, imm: i32 },
    ADDI { rd: Reg, rs1: Reg, imm: i32 },
    SLTI { rd: Reg, rs1: Reg, imm: i32 },
    SLTIU { rd: Reg, rs1: Reg, imm: i32 },
    XORI { rd: Reg, rs1: Reg, imm: i32 },
    ORI { rd: Reg, rs1: Reg, imm: i32 },
    ANDI { rd: Reg, rs1: Reg, imm: i32 },
    SLLI { rd: Reg, rs1: Reg, shamt: u32 },
    SRLI { rd: Reg, rs1: Reg, shamt: u32 },
    SRAI { rd: Reg, rs1: Reg, shamt: u32 },
    JALR { rd: Reg, rs1: Reg, imm: i32 },
    SB { rs1: Reg, rs2: Reg, imm: i32 },
    SH { rs1: Reg, rs2: Reg, imm: i32 },
    SW { rs1: Reg, rs2: Reg, imm: i32 },
    ADD { rd: Reg, rs1: Reg, rs2: Reg },
    SUB { rd: Reg, rs1: Reg, rs2: Reg },
    SLL { rd: Reg, rs1: Reg, rs2: Reg },
    SLT { rd: Reg, rs1: Reg, rs2: Reg },
    SLTU { rd: Reg, rs1: Reg, rs2: Reg },
    XOR { rd: Reg, rs1: Reg, rs2: Reg },
    SRL { rd: Reg, rs1: Reg, rs2: Reg },
    SRA { rd: Reg, rs1: Reg, rs2: Reg },
    OR { rd: Reg, rs1: Reg, rs2: Reg },
    AND { rd: Reg, rs1: Reg, rs2: Reg },
    MUL { rd: Reg, rs1: Reg, rs2: Reg },
    MULH { rd: Reg, rs1: Reg, rs2: Reg },
    MULHSU { rd: Reg, rs1: Reg, rs2: Reg },
    MULHU { rd: Reg, rs1: Reg, rs2: Reg },
    DIV { rd: Reg, rs1: Reg, rs2: Reg },
    DIVU { rd: Reg, rs1: Reg, rs2: Reg },
    REM { rd: Reg, rs1: Reg, rs2: Reg },
    REMU { rd: Reg, rs1: Reg, rs2: Reg },
    LUI { rd: Reg, imm: i32 },
    AUIPC { rd: Reg, imm: i32 },
    JAL { rd: Reg, imm: i32 },
    /// Memory ordering; a no-op on this single-hart machine.
    FENCE { rd: Reg, rs1: Reg, imm: i32 },
    /// Instruction-fetch ordering; a no-op here, since each fetch reads current memory.
    FENCE_I { rd: Reg, rs1: Reg, imm: i32 },
    ECALL,
}


/// Decoding under the branch opcode, by `funct3`.
pub open spec fn spec_decode_branch(w: u32) -> Result<Inst, DecodeError> {
    match spec_funct3(w) {
        0 => Ok(Inst::BEQ { rs1: Reg::spec_from_index(spec_rs1(w)), rs2: Reg::spec_from_index(spec_rs2(w)), imm: spec_imm_b(w) }),
        1 => Ok(Inst::BNE { rs1: Reg::spec_from_index(spec_rs1(w)), rs2: Reg::spec_from_index(spec_rs2(w)), imm: spec_imm_b(w) }),
        4 => Ok(Inst::BLT { rs1: Reg::spec_from_index(spec_rs1(w)), rs2: Reg::spec_from_index(spec_rs2(w)), imm: spec_imm_b(w) }),
        5 => Ok(Inst::BGE { rs1: Reg::spec_from_index(spec_rs1(w)), rs2: Reg::spec_from_index(spec_rs2(w)), imm: spec_imm_b(w) }),
        6 => Ok(Inst::BLTU { rs1: Reg::spec_from_index(spec_rs1(w)), rs2: Reg::spec_from_index(spec_rs2(w)), imm: spec_imm_b(w) }),
        7 => Ok(Inst::BGEU { rs1: Reg::spec_from_index(spec_rs1(w)), rs2: Reg::spec_from_index(spec_rs2(w)), imm: spec_imm_b(w) }),
        _ => Err(spec_err_funct3(w)),
    }
}

/// Decoding under the load opcode, by `funct3`.
pub open spec fn spec_decode_load(w: u32) -> Result<Inst, DecodeError> {
    match spec_funct3(w) {
        0 => Ok(Inst::LB { rd: Reg::spec_from_index(spec_rd(w)), rs1: Reg::spec_from_index(spec_rs1(w)), imm: spec_imm_i(w) }),
        1 => Ok(Inst::LH { rd: Reg::spec_from_index(spec_rd(w)), rs1: Reg::spec_from_index(spec_rs1(w)), imm: spec_imm_i(w) }),
        2 => Ok(Inst::LW { rd: Reg::spec_from_index(spec_rd(w)), rs1: Reg::spec_from_index(spec_rs1(w)), imm: spec_imm_i(w) }),
        4 => Ok(Inst::LBU { rd: Reg::spec_from_index(spec_rd(w)), rs1: Reg::spec_from_index(spec_rs1(w)), imm: spec_imm_i(w) }),
        5 => Ok(Inst::LHU { rd: Reg::spec_from_index(spec_rd(w)), rs1: Reg::spec_from_index(spec_rs1(w)), imm: spec_imm_i(w) }),
        _ => Err(spec_err_funct3(w)),
    }
}

/// Decoding under the store opcode, by `funct3`.
pub open spec fn spec_decode_store(w: u32) -> Result<Inst, DecodeError> {
    match spec_funct3(w) {
        0 => Ok(Inst::SB { rs1: Reg::spec_from_index(spec_rs1(w)), rs2: Reg::spec_from_index(spec_rs2(w)), imm: spec_imm_s(w) }),
        1 => Ok(Inst::SH { rs1: Reg::spec_from_index(spec_rs1(w)), rs2: Reg::spec_from_index(spec_rs2(w)), imm: spec_imm_s(w) }),
        2 => Ok(Inst::SW { rs1: Reg::spec_from_index(spec_rs1(w)), rs2: Reg::spec_from_index(spec_rs2(w)), imm: spec_imm_s(w) }),
        _ => Err(spec_err_funct3(w)),
    }
}

/// Decoding under the `JALR` opcode.
pub open spec fn spec_decode_jalr(w: u32) -> Result<Inst, DecodeError> {
    if spec_funct3(w) == 0 {
        Ok(Inst::JALR { rd: Reg::spec_from_index(spec_rd(w)), rs1: Reg::spec_from_index(spec_rs1(w)), imm: spec_imm_i(w) })
    } else {
        Err(spec_err_funct3(w))
    }
}

/// Decoding under the memory-ordering opcode, by `funct3`.
pub open spec fn spec_decode_misc_mem(w: u32) -> Result<Inst, DecodeError> {
    match spec_funct3(w) {
        0 => Ok(Inst::FENCE { rd: Reg::spec_from_index(spec_rd(w)), rs1: Reg::spec_from_index(spec_rs1(w)), imm: spec_imm_i(w) }),
        1 => Ok(Inst::FENCE_I { rd: Reg::spec_from_index(spec_rd(w)), rs1: Reg::spec_from_index(spec_rs1(w)), imm: spec_imm_i(w) }),
        _ => Err(spec_err_funct3(w)),
    }
}

/// Decoding under the register-immediate opcode, by `funct3` and, for shifts, `funct7`.
pub open spec fn spec_decode_op_imm(w: u32) -> Result<Inst, DecodeError> {
    match spec_funct3(w) {
        0 => Ok(Inst::ADDI { rd: Reg::spec_from_index(spec_rd(w)), rs1: Reg::spec_from_index(spec_rs1(w)), imm: spec_imm_i(w) }),
        2 => Ok(Inst::SLTI { rd: Reg::spec_from_index(spec_rd(w)), rs1: Reg::spec_from_index(spec_rs1(w)), imm: spec_imm_i(w) }),
        3 => Ok(Inst::SLTIU { rd: Reg::spec_from_index(spec_rd(w)), rs1: Reg::spec_from_index(spec_rs1(w)), imm: spec_imm_i(w) }),
        4 => Ok(Inst::XORI { rd: Reg::spec_from_index(spec_rd(w)), rs1: Reg::spec_from_index(spec_rs1(w)), imm: spec_imm_i(w) }),
        6 => Ok(Inst::ORI { rd: Reg::spec_from_index(spec_rd(w)), rs1: Reg::spec_from_index(spec_rs1(w)), imm: spec_imm_i(w) }),
        7 => Ok(Inst::ANDI { rd: Reg::spec_from_index(spec_rd(w)), rs1: Reg::spec_from_index(spec_rs1(w)), imm: spec_imm_i(w) }),
        1 => if spec_funct7(w) == 0 {
            Ok(Inst::SLLI { rd: Reg::spec_from_index(spec_rd(w)), rs1: Reg::spec_from_index(spec_rs1(w)), shamt: spec_shamt(w) })
        } else {
            Err(spec_err_funct7(w))
        },
        _ => if spec_funct7(w) == 0 {
            Ok(Inst::SRLI { rd: Reg::spec_from_index(spec_rd(w)), rs1: Reg::spec_from_index(spec_rs1(w)), shamt: spec_shamt(w) })
        } else if spec_funct7(w) == 0x20 {
            Ok(Inst::SRAI { rd: Reg::spec_from_index(spec_rd(w)), rs1: Reg::spec_from_index(spec_rs1(w)), shamt: spec_shamt(w) })
        } else {
            Err(spec_err_funct7(w))
        },
    }
}

/// Decoding under the register-register opcode, by `funct7`, then `funct3`.
pub open spec fn spec_decode_op(w: u32) -> Result<Inst, DecodeError> {
    match spec_funct7(w) {
        0x0 => match spec_funct3(w) {
            0 => Ok(Inst::ADD { rd: Reg::spec_from_index(spec_rd(w)), rs1: Reg::spec_from_index(spec_rs1(w)), rs2: Reg::spec_from_index(spec_rs2(w)) }),
            1 => Ok(Inst::SLL { rd: Reg::spec_from_index(spec_rd(w)), rs1: Reg::spec_from_index(spec_rs1(w)), rs2: Reg::spec_from_index(spec_rs2(w)) }),
            2 => Ok(Inst::SLT { rd: Reg::spec_from_index(spec_rd(w)), rs1: Reg::spec_from_index(spec_rs1(w)), rs2: Reg::spec_from_index(spec_rs2(w)) }),
            3 => Ok(Inst::SLTU { rd: Reg::spec_from_index(spec_rd(w)), rs1: Reg::spec_from_index(spec_rs1(w)), rs2: Reg::spec_from_index(spec_rs2(w)) }),
            4 => Ok(Inst::XOR { rd: Reg::spec_from_index(spec_rd(w)), rs1: Reg::spec_from_index(spec_rs1(w)), rs2: Reg::spec_from_index(spec_rs2(w)) }),
            5 => Ok(Inst::SRL { rd: Reg::spec_from_index(spec_rd(w)), rs1: Reg::spec_from_index(spec_rs1(w)), rs2: Reg::spec_from_index(spec_rs2(w)) }),
            6 => Ok(Inst::OR { rd: Reg::spec_from_index(spec_rd(w)), rs1: Reg::spec_from_index(spec_rs1(w)), rs2: Reg::spec_from_index(spec_rs2(w)) }),
            _ => Ok(Inst::AND { rd: Reg::spec_from_index(spec_rd(w)), rs1: Reg::spec_from_index(spec_rs1(w)), rs2: Reg::spec_from_index(spec_rs2(w)) }),
        },
        0x20 => match spec_funct3(w) {
            0 => Ok(Inst::SUB { rd: Reg::spec_from_index(spec_rd(w)), rs1: Reg::spec_from_index(spec_rs1(w)), rs2: Reg::spec_from_index(spec_rs2(w)) }),
            5 => Ok(Inst::SRA { rd: Reg::spec_from_index(spec_rd(w)), rs1: Reg::spec_from_index(spec_rs1(w)), rs2: Reg::spec_from_index(spec_rs2(w)) }),
            _ => Err(spec_err_funct7(w)),
        },
        0x1 => match spec_funct3(w) {
            0 => Ok(Inst::MUL { rd: Reg::spec_from_index(spec_rd(w)), rs1: Reg::spec_from_index(spec_rs1(w)), rs2: Reg::spec_from_index(spec_rs2(w)) }),
            1 => Ok(Inst::MULH { rd: Reg::spec_from_index(spec_rd(w)), rs1: Reg::spec_from_index(spec_rs1(w)), rs2: Reg::spec_from_index(spec_rs2(w)) }),
            2 => Ok(Inst::MULHSU { rd: Reg::spec_from_index(spec_rd(w)), rs1: Reg::spec_from_index(spec_rs1(w)), rs2: Reg::spec_from_index(spec_rs2(w)) }),
            3 => Ok(Inst::MULHU { rd: Reg::spec_from_index(spec_rd(w)), rs1: Reg::spec_from_index(spec_rs1(w)), rs2: Reg::spec_from_index(spec_rs2(w)) }),
            4 => Ok(Inst::DIV { rd: Reg::spec_from_index(spec_rd(w)), rs1: Reg::spec_from_index(spec_rs1(w)), rs2: Reg::spec_from_index(spec_rs2(w)) }),
            5 => Ok(Inst::DIVU { rd: Reg::spec_from_index(spec_rd(w)), rs1: Reg::spec_from_index(spec_rs1(w)), rs2: Reg::spec_from_index(spec_rs2(w)) }),
            6 => Ok(Inst::REM { rd: Reg::spec_from_index(spec_rd(w)), rs1: Reg::spec_from_index(spec_rs1(w)), rs2: Reg::spec_from_index(spec_rs2(w)) }),
            _ => Ok(Inst::REMU { rd: Reg::spec_from_index(spec_rd(w)), rs1: Reg::spec_from_index(spec_rs1(w)), rs2: Reg::spec_from_index(spec_rs2(w)) }),
        },
        _ => Err(spec_err_funct7(w)),
    }
}

impl Inst {
    /// Extracts the opcode (`inst[6:0]`).
    pub fn opcode(inst: u32) -> (r: u32)
        ensures
            r == spec_opcode(inst),
    {
        inst & 0x7f
    }

    /// Extracts the destination register (`inst[11:7]`).
    pub fn rd(inst: u32) -> (r: Reg)
        ensures
            r == Reg::spec_from_index(spec_rd(inst)),
    {
        proof {
            lemma_fields_bounded(inst);
        }
        Reg::from_index((inst >> 7) & 0x1f)
    }

    /// Extracts the first source register (`inst[19:15]`).
    pub fn rs1(inst: u32) -> (r: Reg)
        ensures
            r == Reg::spec_from_index(spec_rs1(inst)),
    {
        proof {
            lemma_fields_bounded(inst);
        }
        Reg::from_index((inst >> 15) & 0x1f)
    }

    /// Extracts the second source register (`inst[24:20]`).
    pub fn rs2(inst: u32) -> (r: Reg)
        ensures
            r == Reg::spec_from_index(spec_rs2(inst)),
    {
        proof {
            lemma_fields_bounded(inst);
        }
        Reg::from_index((inst >> 20) & 0x1f)
    }

    /// Extracts the shift amount (`inst[24:20]`).
    pub fn shamt(inst: u32) -> (r: u32)
        ensures
            r == spec_shamt(inst),
    {
        (inst >> 20) & 0x1f
    }

    /// Extracts `funct3` (`inst[14:12]`).
    pub fn funct3(inst: u32) -> (r: u32)
        ensures
            r == spec_funct3(inst),
    {
        (inst >> 12) & 0x7
    }

    /// Extracts `funct7` (`inst[31:25]`).
    pub fn funct7(inst: u32) -> (r: u32)
        ensures
            r == spec_funct7(inst),
    {
        (inst >> 25) & 0x7f
    }

    /// Extracts the immediate of a B-type instruction.
    pub fn imm_b(inst: u32) -> (r: i32)
        ensures
            r == spec_imm_b(inst),
    {
        let base = (((inst >> 31) & 1) << 12) | (((inst >> 7) & 1) << 11) | (((inst >> 25) & 0x3f)
            << 5) | (((inst >> 8) & 0xf) << 1);
        sext(base, 13) as i32
    }

    /// Extracts the immediate of an I-type instruction.
    pub fn imm_i(inst: u32) -> (r: i32)
        ensures
            r == spec_imm_i(inst),
    {
        sext(inst >> 20, 12) as i32
    }

    /// Extracts the immediate of a J-type instruction.
    pub fn imm_j(inst: u32) -> (r: i32)
        ensures
            r == spec_imm_j(inst),
    {
        let base = (((inst >> 31) & 1) << 20) | (((inst >> 12) & 0xff) << 12) | (((inst >> 20) & 1)
            << 11) | (((inst >> 21) & 0x3ff) << 1);
        sext(base, 21) as i32
    }

    /// Extracts the immediate of an S-type instruction.
    pub fn imm_s(inst: u32) -> (r: i32)
        ensures
            r == spec_imm_s(inst),
    {
        let base = ((inst >> 25) << 5) | ((inst >> 7) & 0x1f);
        sext(base, 12) as i32
    }

    /// Extracts the (unshifted) immediate of a U-type instruction.
    pub fn imm_u(inst: u32) -> (r: i32)
        ensures
            r == spec_imm_u(inst),
    {
        (inst >> 12) as i32
    }

    /// Lays out a B-type instruction.
    pub fn b_type(opcode: u32, funct3: u32, rs1: Reg, rs2: Reg, imm: i32) -> (r: u32)
        ensures
            r == spec_b_type(opcode, funct3, rs1.spec_index(), rs2.spec_index(), imm),
    {
        let bits = imm as u32;
        ((bits & 0x1000) << 19) | ((bits & 0x7e0) << 20) | ((bits & 0x1e) << 7) | ((bits & 0x800)
            >> 4) | (rs2.index() << 20) | (rs1.index() << 15) | (funct3 << 12) | opcode
    }

    /// Lays out an I-type instruction.
    pub fn i_type(opcode: u32, funct3: u32, rd: Reg, rs1: Reg, imm: i32) -> (r: u32)
        ensures
            r == spec_i_type(opcode, funct3, rd.spec_index(), rs1.spec_index(), imm),
    {
        (((imm as u32) & 0xfff) << 20) | (rs1.index() << 15) | (funct3 << 12) | (rd.index() << 7)
            | opcode
    }

    /// Lays out a shift-immediate instruction.
    pub fn i_type_shamt(opcode: u32, funct3: u32, funct7: u32, rd: Reg, rs1: Reg, shamt: u32) -> (r:
        u32)
        ensures
            r == spec_i_type_shamt(opcode, funct3, funct7, rd.spec_index(), rs1.spec_index(), shamt),
    {
        (funct7 << 25) | ((shamt & 0x1f) << 20) | (rs1.index() << 15) | (funct3 << 12) | (
        rd.index() << 7) | opcode
    }

    /// Lays out a J-type instruction.
    pub fn j_type(opcode: u32, rd: Reg, imm: i32) -> (r: u32)
        ensures
            r == spec_j_type(opcode, rd.spec_index(), imm),
    {
        let bits = imm as u32;
        ((bits & 0x10_0000) << 11) | ((bits & 0x7fe) << 20) | ((bits & 0x800) << 9) | (bits
            & 0xf_f000) | (rd.index() << 7) | opcode
    }

    /// Lays out an R-type instruction.
    pub fn r_type(opcode: u32, funct3: u32, funct7: u32, rd: Reg, rs1: Reg, rs2: Reg) -> (r: u32)
        ensures
            r == spec_r_type(
                opcode,
                funct3,
                funct7,
                rd.spec_index(),
                rs1.spec_index(),
                rs2.spec_index(),
            ),
    {
        (funct7 << 25) | (rs2.index() << 20) | (rs1.index() << 15) | (funct3 << 12) | (rd.index()
            << 7) | opcode
    }

    /// Lays out an S-type instruction.
    pub fn s_type(opcode: u32, funct3: u32, rs1: Reg, rs2: Reg, imm: i32) -> (r: u32)
        ensures
            r == spec_s_type(opcode, funct3, rs1.spec_index(), rs2.spec_index(), imm),
    {
        let bits = imm as u32;
        ((bits & 0xfe0) << 20) | ((bits & 0x1f) << 7) | (rs2.index() << 20) | (rs1.index() << 15)
            | (funct3 << 12) | opcode
    }

    /// Lays out a U-type instruction.
    pub fn u_type(opcode: u32, rd: Reg, imm: i32) -> (r: u32)
        ensures
            r == spec_u_type(opcode, rd.spec_index(), imm),
    {
        ((imm as u32) << 12) | (rd.index() << 7) | opcode
    }

    /// The operands fit their format: immediates in the range the format can
    /// hold (branch and jump offsets even), shift amounts below 32.
    pub open spec fn wf(self) -> bool {
        match self {
            Inst::BEQ { imm, .. } => -4096 <= imm < 4096 && imm & 1 == 0,
            Inst::BNE { imm, .. } => -4096 <= imm < 4096 && imm & 1 == 0,
            Inst::BLT { imm, .. } => -4096 <= imm < 4096 && imm & 1 == 0,
            Inst::BGE { imm, .. } => -4096 <= imm < 4096 && imm & 1 == 0,
            Inst::BLTU { imm, .. } => -4096 <= imm < 4096 && imm & 1 == 0,
            Inst::BGEU { imm, .. } => -4096 <= imm < 4096 && imm & 1 == 0,
            Inst::LB { imm, .. } => -2048 <= imm < 2048,
            Inst::LH { imm, .. } => -2048 <= imm < 2048,
            Inst::LW { imm, .. } => -2048 <= imm < 2048,
            Inst::LBU { imm, .. } => -2048 <= imm < 2048,
            Inst::LHU { imm, .. } => -2048 <= imm < 2048,
            Inst::ADDI { imm, .. } => -2048 <= imm < 2048,
            Inst::SLTI { imm, .. } => -2048 <= imm < 2048,
            Inst::SLTIU { imm, .. } => -2048 <= imm < 2048,
            Inst::XORI { imm, .. } => -2048 <= imm < 2048,
            Inst::ORI { imm, .. } => -2048 <= imm < 2048,
            Inst::ANDI { imm, .. } => -2048 <= imm < 2048,
            Inst::SLLI { shamt, .. } => shamt < 32,
            Inst::SRLI { shamt, .. } => shamt < 32,
            Inst::SRAI { shamt, .. } => shamt < 32,
            Inst::JALR { imm, .. } => -2048 <= imm < 2048,
            Inst::SB { imm, .. } => -2048 <= imm < 2048,
            Inst::SH { imm, .. } => -2048 <= imm < 2048,
            Inst::SW { imm, .. } => -2048 <= imm < 2048,
            Inst::ADD { .. } => true,
            Inst::SUB { .. } => true,
            Inst::SLL { .. } => true,
            Inst::SLT { .. } => true,
            Inst::SLTU { .. } => true,
            Inst::XOR { .. } => true,
            Inst::SRL { .. } => true,
            Inst::SRA { .. } => true,
            Inst::OR { .. } => true,
            Inst::AND { .. } => true,
            Inst::MUL { .. } => true,
            Inst::MULH { .. } => true,
            Inst::MULHSU { .. } => true,
            Inst::MULHU { .. } => true,
            Inst::DIV { .. } => true,
            Inst::DIVU { .. } => true,
            Inst::REM { .. } => true,
            Inst::REMU { .. } => true,
            Inst::LUI { imm, .. } => 0 <= imm < 0x10_0000,
            Inst::AUIPC { imm, .. } => 0 <= imm < 0x10_0000,
            Inst::JAL { imm, .. } => -0x10_0000 <= imm < 0x10_0000 && imm & 1 == 0,
            Inst::FENCE { imm, .. } => -2048 <= imm < 2048,
            Inst::FENCE_I { imm, .. } => -2048 <= imm < 2048,
            Inst::ECALL => true,
        }
    }

    /// What the decoder makes of a word: dispatch on the opcode, then on
    /// `funct3`, then (R-type and shift-immediate) on `funct7`.
    pub open spec fn spec_decode(w: u32) -> Result<Inst, DecodeError> {
        match spec_opcode(w) {
            OPC_BRANCH => spec_decode_branch(w),
            OPC_LOAD => spec_decode_load(w),
            OPC_STORE => spec_decode_store(w),
            OPC_JALR => spec_decode_jalr(w),
            OPC_OP_IMM => spec_decode_op_imm(w),
            OPC_OP => spec_decode_op(w),
            OPC_LUI => Ok(Inst::LUI { rd: Reg::spec_from_index(spec_rd(w)), imm: spec_imm_u(w) }),
            OPC_AUIPC => Ok(Inst::AUIPC { rd: Reg::spec_from_index(spec_rd(w)), imm: spec_imm_u(w) }),
            OPC_JAL => Ok(Inst::JAL { rd: Reg::spec_from_index(spec_rd(w)), imm: spec_imm_j(w) }),
            OPC_MISC_MEM => spec_decode_misc_mem(w),
            OPC_SYSTEM => if w == ECALL_WORD {
                Ok(Inst::ECALL)
            } else {
                Err(spec_err_funct7(w))
            },
            _ => Err(spec_err_opcode(w)),
        }
    }

    /// The word that encodes the instruction.
    pub open spec fn spec_encode(self) -> u32 {
        match self {
            Inst::BEQ { rs1, rs2, imm } => spec_b_type(OPC_BRANCH, 0, rs1.spec_index(), rs2.spec_index(), imm),
            Inst::BNE { rs1, rs2, imm } => spec_b_type(OPC_BRANCH, 1, rs1.spec_index(), rs2.spec_index(), imm),
            Inst::BLT { rs1, rs2, imm } => spec_b_type(OPC_BRANCH, 4, rs1.spec_index(), rs2.spec_index(), imm),
            Inst::BGE { rs1, rs2, imm } => spec_b_type(OPC_BRANCH, 5, rs1.spec_index(), rs2.spec_index(), imm),
            Inst::BLTU { rs1, rs2, imm } => spec_b_type(OPC_BRANCH, 6, rs1.spec_index(), rs2.spec_index(), imm),
            Inst::BGEU { rs1, rs2, imm } => spec_b_type(OPC_BRANCH, 7, rs1.spec_index(), rs2.spec_index(), imm),
            Inst::LB { rd, rs1, imm } => spec_i_type(OPC_LOAD, 0, rd.spec_index(), rs1.spec_index(), imm),
            Inst::LH { rd, rs1, imm } => spec_i_type(OPC_LOAD, 1, rd.spec_index(), rs1.spec_index(), imm),
            Inst::LW { rd, rs1, imm } => spec_i_type(OPC_LOAD, 2, rd.spec_index(), rs1.spec_index(), imm),
            Inst::LBU { rd, rs1, imm } => spec_i_type(OPC_LOAD, 4, rd.spec_index(), rs1.spec_index(), imm),
            Inst::LHU { rd, rs1, imm } => spec_i_type(OPC_LOAD, 5, rd.spec_index(), rs1.spec_index(), imm),
            Inst::ADDI { rd, rs1, imm } => spec_i_type(OPC_OP_IMM, 0, rd.spec_index(), rs1.spec_index(), imm),
            Inst::SLTI { rd, rs1, imm } => spec_i_type(OPC_OP_IMM, 2, rd.spec_index(), rs1.spec_index(), imm),
            Inst::SLTIU { rd, rs1, imm } => spec_i_type(OPC_OP_IMM, 3, rd.spec_index(), rs1.spec_index(), imm),
            Inst::XORI { rd, rs1, imm } => spec_i_type(OPC_OP_IMM, 4, rd.spec_index(), rs1.spec_index(), imm),
            Inst::ORI { rd, rs1, imm } => spec_i_type(OPC_OP_IMM, 6, rd.spec_index(), rs1.spec_index(), imm),
            Inst::ANDI { rd, rs1, imm } => spec_i_type(OPC_OP_IMM, 7, rd.spec_index(), rs1.spec_index(), imm),
            Inst::SLLI { rd, rs1, shamt } => spec_i_type_shamt(OPC_OP_IMM, 1, 0x0, rd.spec_index(), rs1.spec_index(), shamt),
            Inst::SRLI { rd, rs1, shamt } => spec_i_type_shamt(OPC_OP_IMM, 5, 0x0, rd.spec_index(), rs1.spec_index(), shamt),
            Inst::SRAI { rd, rs1, shamt } => spec_i_type_shamt(OPC_OP_IMM, 5, 0x20, rd.spec_index(), rs1.spec_index(), shamt),
            Inst::JALR { rd, rs1, imm } => spec_i_type(OPC_JALR, 0, rd.spec_index(), rs1.spec_index(), imm),
            Inst::SB { rs1, rs2, imm } => spec_s_type(OPC_STORE, 0, rs1.spec_index(), rs2.spec_index(), imm),
            Inst::SH { rs1, rs2, imm } => spec_s_type(OPC_STORE, 1, rs1.spec_index(), rs2.spec_index(), imm),
            Inst::SW { rs1, rs2, imm } => spec_s_type(OPC_STORE, 2, rs1.spec_index(), rs2.spec_index(), imm),
            Inst::ADD { rd, rs1, rs2 } => spec_r_type(OPC_OP, 0, 0x0, rd.spec_index(), rs1.spec_index(), rs2.spec_index()),
            Inst::SUB { rd, rs1, rs2 } => spec_r_type(OPC_OP, 0, 0x20, rd.spec_index(), rs1.spec_index(), rs2.spec_index()),
            Inst::SLL { rd, rs1, rs2 } => spec_r_type(OPC_OP, 1, 0x0, rd.spec_index(), rs1.spec_index(), rs2.spec_index()),
            Inst::SLT { rd, rs1, rs2 } => spec_r_type(OPC_OP, 2, 0x0, rd.spec_index(), rs1.spec_index(), rs2.spec_index()),
            Inst::SLTU { rd, rs1, rs2 } => spec_r_type(OPC_OP, 3, 0x0, rd.spec_index(), rs1.spec_index(), rs2.spec_index()),
            Inst::XOR { rd, rs1, rs2 } => spec_r_type(OPC_OP, 4, 0x0, rd.spec_index(), rs1.spec_index(), rs2.spec_index()),
            Inst::SRL { rd, rs1, rs2 } => spec_r_type(OPC_OP, 5, 0x0, rd.spec_index(), rs1.spec_index(), rs2.spec_index()),
            Inst::SRA { rd, rs1, rs2 } => spec_r_type(OPC_OP, 5, 0x20, rd.spec_index(), rs1.spec_index(), rs2.spec_index()),
            Inst::OR { rd, rs1, rs2 } => spec_r_type(OPC_OP, 6, 0x0, rd.spec_index(), rs1.spec_index(), rs2.spec_index()),
            Inst::AND { rd, rs1, rs2 } => spec_r_type(OPC_OP, 7, 0x0, rd.spec_index(), rs1.spec_index(), rs2.spec_index()),
            Inst::MUL { rd, rs1, rs2 } => spec_r_type(OPC_OP, 0, 0x1, rd.spec_index(), rs1.spec_index(), rs2.spec_index()),
            Inst::MULH { rd, rs1, rs2 } => spec_r_type(OPC_OP, 1, 0x1, rd.spec_index(), rs1.spec_index(), rs2.spec_index()),
            Inst::MULHSU { rd, rs1, rs2 } => spec_r_type(OPC_OP, 2, 0x1, rd.spec_index(), rs1.spec_index(), rs2.spec_index()),
            Inst::MULHU { rd, rs1, rs2 } => spec_r_type(OPC_OP, 3, 0x1, rd.spec_index(), rs1.spec_index(), rs2.spec_index()),
            Inst::DIV { rd, rs1, rs2 } => spec_r_type(OPC_OP, 4, 0x1, rd.spec_index(), rs1.spec_index(), rs2.spec_index()),
            Inst::DIVU { rd, rs1, rs2 } => spec_r_type(OPC_OP, 5, 0x1, rd.spec_index(), rs1.spec_index(), rs2.spec_index()),
            Inst::REM { rd, rs1, rs2 } => spec_r_type(OPC_OP, 6, 0x1, rd.spec_index(), rs1.spec_index(), rs2.spec_index()),
            Inst::REMU { rd, rs1, rs2 } => spec_r_type(OPC_OP, 7, 0x1, rd.spec_index(), rs1.spec_index(), rs2.spec_index()),
            Inst::LUI { rd, imm } => spec_u_type(OPC_LUI, rd.spec_index(), imm),
            Inst::AUIPC { rd, imm } => spec_u_type(OPC_AUIPC, rd.spec_index(), imm),
            Inst::JAL { rd, imm } => spec_j_type(OPC_JAL, rd.spec_index(), imm),
            Inst::FENCE { rd, rs1, imm } => spec_i_type(OPC_MISC_MEM, 0, rd.spec_index(), rs1.spec_index(), imm),
            Inst::FENCE_I { rd, rs1, imm } => spec_i_type(OPC_MISC_MEM, 1, rd.spec_index(), rs1.spec_index(), imm),
            Inst::ECALL => ECALL_WORD,
        }
    }

    /// Decodes an instruction word.
    pub fn decode(w: u32) -> (r: Result<Inst, DecodeError>)
        ensures
            r == Inst::spec_decode(w),
    {
        let opcode = Inst::opcode(w);
        let funct3 = Inst::funct3(w);
        let funct7 = Inst::funct7(w);
        match opcode {
            OPC_BRANCH => match funct3 {
                0 => Ok(Inst::BEQ { rs1: Inst::rs1(w), rs2: Inst::rs2(w), imm: Inst::imm_b(w) }),
                1 => Ok(Inst::BNE { rs1: Inst::rs1(w), rs2: Inst::rs2(w), imm: Inst::imm_b(w) }),
                4 => Ok(Inst::BLT { rs1: Inst::rs1(w), rs2: Inst::rs2(w), imm: Inst::imm_b(w) }),
                5 => Ok(Inst::BGE { rs1: Inst::rs1(w), rs2: Inst::rs2(w), imm: Inst::imm_b(w) }),
                6 => Ok(Inst::BLTU { rs1: Inst::rs1(w), rs2: Inst::rs2(w), imm: Inst::imm_b(w) }),
                7 => Ok(Inst::BGEU { rs1: Inst::rs1(w), rs2: Inst::rs2(w), imm: Inst::imm_b(w) }),
                _ => Err(DecodeError::with_funct3(w)),
            },
            OPC_LOAD => match funct3 {
                0 => Ok(Inst::LB { rd: Inst::rd(w), rs1: Inst::rs1(w), imm: Inst::imm_i(w) }),
                1 => Ok(Inst::LH { rd: Inst::rd(w), rs1: Inst::rs1(w), imm: Inst::imm_i(w) }),
                2 => Ok(Inst::LW { rd: Inst::rd(w), rs1: Inst::rs1(w), imm: Inst::imm_i(w) }),
                4 => Ok(Inst::LBU { rd: Inst::rd(w), rs1: Inst::rs1(w), imm: Inst::imm_i(w) }),
                5 => Ok(Inst::LHU { rd: Inst::rd(w), rs1: Inst::rs1(w), imm: Inst::imm_i(w) }),
                _ => Err(DecodeError::with_funct3(w)),
            },
            OPC_STORE => match funct3 {
                0 => Ok(Inst::SB { rs1: Inst::rs1(w), rs2: Inst::rs2(w), imm: Inst::imm_s(w) }),
                1 => Ok(Inst::SH { rs1: Inst::rs1(w), rs2: Inst::rs2(w), imm: Inst::imm_s(w) }),
                2 => Ok(Inst::SW { rs1: Inst::rs1(w), rs2: Inst::rs2(w), imm: Inst::imm_s(w) }),
                _ => Err(DecodeError::with_funct3(w)),
            },
            OPC_JALR => if funct3 == 0 {
                Ok(Inst::JALR { rd: Inst::rd(w), rs1: Inst::rs1(w), imm: Inst::imm_i(w) })
            } else {
                Err(DecodeError::with_funct3(w))
            },
            OPC_OP_IMM => match funct3 {
                0 => Ok(Inst::ADDI { rd: Inst::rd(w), rs1: Inst::rs1(w), imm: Inst::imm_i(w) }),
                2 => Ok(Inst::SLTI { rd: Inst::rd(w), rs1: Inst::rs1(w), imm: Inst::imm_i(w) }),
                3 => Ok(Inst::SLTIU { rd: Inst::rd(w), rs1: Inst::rs1(w), imm: Inst::imm_i(w) }),
                4 => Ok(Inst::XORI { rd: Inst::rd(w), rs1: Inst::rs1(w), imm: Inst::imm_i(w) }),
                6 => Ok(Inst::ORI { rd: Inst::rd(w), rs1: Inst::rs1(w), imm: Inst::imm_i(w) }),
                7 => Ok(Inst::ANDI { rd: Inst::rd(w), rs1: Inst::rs1(w), imm: Inst::imm_i(w) }),
                1 => if funct7 == 0 {
                    Ok(Inst::SLLI { rd: Inst::rd(w), rs1: Inst::rs1(w), shamt: Inst::shamt(w) })
                } else {
                    Err(DecodeError::with_funct7(w))
                },
                _ => if funct7 == 0 {
                    Ok(Inst::SRLI { rd: Inst::rd(w), rs1: Inst::rs1(w), shamt: Inst::shamt(w) })
                } else if funct7 == 0x20 {
                    Ok(Inst::SRAI { rd: Inst::rd(w), rs1: Inst::rs1(w), shamt: Inst::shamt(w) })
                } else {
                    Err(DecodeError::with_funct7(w))
                },
            },
            OPC_OP => match funct7 {
                0x0 => match funct3 {
                    0 => Ok(Inst::ADD { rd: Inst::rd(w), rs1: Inst::rs1(w), rs2: Inst::rs2(w) }),
                    1 => Ok(Inst::SLL { rd: Inst::rd(w), rs1: Inst::rs1(w), rs2: Inst::rs2(w) }),
                    2 => Ok(Inst::SLT { rd: Inst::rd(w), rs1: Inst::rs1(w), rs2: Inst::rs2(w) }),
                    3 => Ok(Inst::SLTU { rd: Inst::rd(w), rs1: Inst::rs1(w), rs2: Inst::rs2(w) }),
                    4 => Ok(Inst::XOR { rd: Inst::rd(w), rs1: Inst::rs1(w), rs2: Inst::rs2(w) }),
                    5 => Ok(Inst::SRL { rd: Inst::rd(w), rs1: Inst::rs1(w), rs2: Inst::rs2(w) }),
                    6 => Ok(Inst::OR { rd: Inst::rd(w), rs1: Inst::rs1(w), rs2: Inst::rs2(w) }),
                    _ => Ok(Inst::AND { rd: Inst::rd(w), rs1: Inst::rs1(w), rs2: Inst::rs2(w) }),
                },
                0x20 => match funct3 {
                    0 => Ok(Inst::SUB { rd: Inst::rd(w), rs1: Inst::rs1(w), rs2: Inst::rs2(w) }),
                    5 => Ok(Inst::SRA { rd: Inst::rd(w), rs1: Inst::rs1(w), rs2: Inst::rs2(w) }),
                    _ => Err(DecodeError::with_funct7(w)),
                },
                0x1 => match funct3 {
                    0 => Ok(Inst::MUL { rd: Inst::rd(w), rs1: Inst::rs1(w), rs2: Inst::rs2(w) }),
                    1 => Ok(Inst::MULH { rd: Inst::rd(w), rs1: Inst::rs1(w), rs2: Inst::rs2(w) }),
                    2 => Ok(Inst::MULHSU { rd: Inst::rd(w), rs1: Inst::rs1(w), rs2: Inst::rs2(w) }),
                    3 => Ok(Inst::MULHU { rd: Inst::rd(w), rs1: Inst::rs1(w), rs2: Inst::rs2(w) }),
                    4 => Ok(Inst::DIV { rd: Inst::rd(w), rs1: Inst::rs1(w), rs2: Inst::rs2(w) }),
                    5 => Ok(Inst::DIVU { rd: Inst::rd(w), rs1: Inst::rs1(w), rs2: Inst::rs2(w) }),
                    6 => Ok(Inst::REM { rd: Inst::rd(w), rs1: Inst::rs1(w), rs2: Inst::rs2(w) }),
                    _ => Ok(Inst::REMU { rd: Inst::rd(w), rs1: Inst::rs1(w), rs2: Inst::rs2(w) }),
                },
                _ => Err(DecodeError::with_funct7(w)),
            },
            OPC_LUI => Ok(Inst::LUI { rd: Inst::rd(w), imm: Inst::imm_u(w) }),
            OPC_AUIPC => Ok(Inst::AUIPC { rd: Inst::rd(w), imm: Inst::imm_u(w) }),
            OPC_JAL => Ok(Inst::JAL { rd: Inst::rd(w), imm: Inst::imm_j(w) }),
            OPC_MISC_MEM => match funct3 {
                0 => Ok(Inst::FENCE { rd: Inst::rd(w), rs1: Inst::rs1(w), imm: Inst::imm_i(w) }),
                1 => Ok(Inst::FENCE_I { rd: Inst::rd(w), rs1: Inst::rs1(w), imm: Inst::imm_i(w) }),
                _ => Err(DecodeError::with_funct3(w)),
            },
            OPC_SYSTEM => if w == ECALL_WORD {
                Ok(Inst::ECALL)
            } else {
                Err(DecodeError::with_funct7(w))
            },
            _ => Err(DecodeError::with_opcode(w)),
        }
    }

    /// Encodes the instruction as a word.
    pub fn encode(&self) -> (r: u32)
        ensures
            r == self.spec_encode(),
    {
        match *self {
            Inst::BEQ { rs1, rs2, imm } => Inst::b_type(OPC_BRANCH, 0, rs1, rs2, imm),
            Inst::BNE { rs1, rs2, imm } => Inst::b_type(OPC_BRANCH, 1, rs1, rs2, imm),
            Inst::BLT { rs1, rs2, imm } => Inst::b_type(OPC_BRANCH, 4, rs1, rs2, imm),
            Inst::BGE { rs1, rs2, imm } => Inst::b_type(OPC_BRANCH, 5, rs1, rs2, imm),
            Inst::BLTU { rs1, rs2, imm } => Inst::b_type(OPC_BRANCH, 6, rs1, rs2, imm),
            Inst::BGEU { rs1, rs2, imm } => Inst::b_type(OPC_BRANCH, 7, rs1, rs2, imm),
            Inst::LB { rd, rs1, imm } => Inst::i_type(OPC_LOAD, 0, rd, rs1, imm),
            Inst::LH { rd, rs1, imm } => Inst::i_type(OPC_LOAD, 1, rd, rs1, imm),
            Inst::LW { rd, rs1, imm } => Inst::i_type(OPC_LOAD, 2, rd, rs1, imm),
            Inst::LBU { rd, rs1, imm } => Inst::i_type(OPC_LOAD, 4, rd, rs1, imm),
            Inst::LHU { rd, rs1, imm } => Inst::i_type(OPC_LOAD, 5, rd, rs1, imm),
            Inst::ADDI { rd, rs1, imm } => Inst::i_type(OPC_OP_IMM, 0, rd, rs1, imm),
            Inst::SLTI { rd, rs1, imm } => Inst::i_type(OPC_OP_IMM, 2, rd, rs1, imm),
            Inst::SLTIU { rd, rs1, imm } => Inst::i_type(OPC_OP_IMM, 3, rd, rs1, imm),
            Inst::XORI { rd, rs1, imm } => Inst::i_type(OPC_OP_IMM, 4, rd, rs1, imm),
            Inst::ORI { rd, rs1, imm } => Inst::i_type(OPC_OP_IMM, 6, rd, rs1, imm),
            Inst::ANDI { rd, rs1, imm } => Inst::i_type(OPC_OP_IMM, 7, rd, rs1, imm),
            Inst::SLLI { rd, rs1, shamt } => Inst::i_type_shamt(OPC_OP_IMM, 1, 0x0, rd, rs1, shamt),
            Inst::SRLI { rd, rs1, shamt } => Inst::i_type_shamt(OPC_OP_IMM, 5, 0x0, rd, rs1, shamt),
            Inst::SRAI { rd, rs1, shamt } => Inst::i_type_shamt(OPC_OP_IMM, 5, 0x20, rd, rs1, shamt),
            Inst::JALR { rd, rs1, imm } => Inst::i_type(OPC_JALR, 0, rd, rs1, imm),
            Inst::SB { rs1, rs2, imm } => Inst::s_type(OPC_STORE, 0, rs1, rs2, imm),
            Inst::SH { rs1, rs2, imm } => Inst::s_type(OPC_STORE, 1, rs1, rs2, imm),
            Inst::SW { rs1, rs2, imm } => Inst::s_type(OPC_STORE, 2, rs1, rs2, imm),
            Inst::ADD { rd, rs1, rs2 } => Inst::r_type(OPC_OP, 0, 0x0, rd, rs1, rs2),
            Inst::SUB { rd, rs1, rs2 } => Inst::r_type(OPC_OP, 0, 0x20, rd, rs1, rs2),
            Inst::SLL { rd, rs1, rs2 } => Inst::r_type(OPC_OP, 1, 0x0, rd, rs1, rs2),
            Inst::SLT { rd, rs1, rs2 } => Inst::r_type(OPC_OP, 2, 0x0, rd, rs1, rs2),
            Inst::SLTU { rd, rs1, rs2 } => Inst::r_type(OPC_OP, 3, 0x0, rd, rs1, rs2),
            Inst::XOR { rd, rs1, rs2 } => Inst::r_type(OPC_OP, 4, 0x0, rd, rs1, rs2),
            Inst::SRL { rd, rs1, rs2 } => Inst::r_type(OPC_OP, 5, 0x0, rd, rs1, rs2),
            Inst::SRA { rd, rs1, rs2 } => Inst::r_type(OPC_OP, 5, 0x20, rd, rs1, rs2),
            Inst::OR { rd, rs1, rs2 } => Inst::r_type(OPC_OP, 6, 0x0, rd, rs1, rs2),
            Inst::AND { rd, rs1, rs2 } => Inst::r_type(OPC_OP, 7, 0x0, rd, rs1, rs2),
            Inst::MUL { rd, rs1, rs2 } => Inst::r_type(OPC_OP, 0, 0x1, rd, rs1, rs2),
            Inst::MULH { rd, rs1, rs2 } => Inst::r_type(OPC_OP, 1, 0x1, rd, rs1, rs2),
            Inst::MULHSU { rd, rs1, rs2 } => Inst::r_type(OPC_OP, 2, 0x1, rd, rs1, rs2),
            Inst::MULHU { rd, rs1, rs2 } => Inst::r_type(OPC_OP, 3, 0x1, rd, rs1, rs2),
            Inst::DIV { rd, rs1, rs2 } => Inst::r_type(OPC_OP, 4, 0x1, rd, rs1, rs2),
            Inst::DIVU { rd, rs1, rs2 } => Inst::r_type(OPC_OP, 5, 0x1, rd, rs1, rs2),
            Inst::REM { rd, rs1, rs2 } => Inst::r_type(OPC_OP, 6, 0x1, rd, rs1, rs2),
            Inst::REMU { rd, rs1, rs2 } => Inst::r_type(OPC_OP, 7, 0x1, rd, rs1, rs2),
            Inst::LUI { rd, imm } => Inst::u_type(OPC_LUI, rd, imm),
            Inst::AUIPC { rd, imm } => Inst::u_type(OPC_AUIPC, rd, imm),
            Inst::JAL { rd, imm } => Inst::j_type(OPC_JAL, rd, imm),
            Inst::FENCE { rd, rs1, imm } => Inst::i_type(OPC_MISC_MEM, 0, rd, rs1, imm),
            Inst::FENCE_I { rd, rs1, imm } => Inst::i_type(OPC_MISC_MEM, 1, rd, rs1, imm),
            Inst::ECALL => ECALL_WORD,
        }
    }
}

impl From<Inst> for u32 {
    fn from(i: Inst) -> (r: u32) {
        i.encode()
    }
}

impl vstd::std_specs::convert::FromSpecImpl<Inst> for u32 {
    open spec fn obeys_from_spec() -> bool {
        true
    }

    open spec fn from_spec(i: Inst) -> u32 {
        i.spec_encode()
    }
}

/// R-type words are their own fields laid out again.
pub proof fn lemma_r_word(w: u32)
    by (bit_vector)
    ensures
        spec_r_type(spec_opcode(w), spec_funct3(w), spec_funct7(w), spec_rd(w), spec_rs1(w), spec_rs2(w)) == w,
{
}

/// I-type words are their own fields laid out again.
pub proof fn lemma_i_word(w: u32)
    by (bit_vector)
    ensures
        spec_i_type(spec_opcode(w), spec_funct3(w), spec_rd(w), spec_rs1(w), spec_imm_i(w)) == w,
{
}

/// Shift-immediate words are their own fields laid out again.
pub proof fn lemma_shamt_word(w: u32)
    by (bit_vector)
    ensures
        spec_i_type_shamt(spec_opcode(w), spec_funct3(w), spec_funct7(w), spec_rd(w), spec_rs1(w), spec_shamt(w)) == w,
{
}

/// S-type words are their own fields laid out again.
pub proof fn lemma_s_word(w: u32)
    by (bit_vector)
    ensures
        spec_s_type(spec_opcode(w), spec_funct3(w), spec_rs1(w), spec_rs2(w), spec_imm_s(w)) == w,
{
}

/// B-type words are their own fields laid out again.
pub proof fn lemma_b_word(w: u32)
    by (bit_vector)
    ensures
        spec_b_type(spec_opcode(w), spec_funct3(w), spec_rs1(w), spec_rs2(w), spec_imm_b(w)) == w,
{
}

/// U-type and J-type words are their own fields laid out again.
pub proof fn lemma_u_j_word(w: u32)
    by (bit_vector)
    ensures
        spec_u_type(spec_opcode(w), spec_rd(w), spec_imm_u(w)) == w,
        spec_j_type(spec_opcode(w), spec_rd(w), spec_imm_j(w)) == w,
{
}

/// The fields of a laid-out R-type word are the ones it was made from.
pub proof fn lemma_r_fields(op: u32, f3: u32, f7: u32, rd: u32, rs1: u32, rs2: u32)
    by (bit_vector)
    requires
        op < 128,
        f3 < 8,
        f7 < 128,
        rd < 32,
        rs1 < 32,
        rs2 < 32,
    ensures
        spec_opcode(spec_r_type(op, f3, f7, rd, rs1, rs2)) == op,
        spec_funct3(spec_r_type(op, f3, f7, rd, rs1, rs2)) == f3,
        spec_funct7(spec_r_type(op, f3, f7, rd, rs1, rs2)) == f7,
        spec_rd(spec_r_type(op, f3, f7, rd, rs1, rs2)) == rd,
        spec_rs1(spec_r_type(op, f3, f7, rd, rs1, rs2)) == rs1,
        spec_rs2(spec_r_type(op, f3, f7, rd, rs1, rs2)) == rs2,
{
}

/// The fields of a laid-out I-type word are the ones it was made from.
pub proof fn lemma_i_fields(op: u32, f3: u32, rd: u32, rs1: u32, imm: i32)
    by (bit_vector)
    requires
        op < 128,
        f3 < 8,
        rd < 32,
        rs1 < 32,
        -2048 <= imm < 2048,
    ensures
        spec_opcode(spec_i_type(op, f3, rd, rs1, imm)) == op,
        spec_funct3(spec_i_type(op, f3, rd, rs1, imm)) == f3,
        spec_rd(spec_i_type(op, f3, rd, rs1, imm)) == rd,
        spec_rs1(spec_i_type(op, f3, rd, rs1, imm)) == rs1,
        spec_imm_i(spec_i_type(op, f3, rd, rs1, imm)) == imm,
{
}

/// The fields of a laid-out shift-immediate word are the ones it was made from.
pub proof fn lemma_shamt_fields(op: u32, f3: u32, f7: u32, rd: u32, rs1: u32, shamt: u32)
    by (bit_vector)
    requires
        op < 128,
        f3 < 8,
        f7 < 128,
        rd < 32,
        rs1 < 32,
        shamt < 32,
    ensures
        spec_opcode(spec_i_type_shamt(op, f3, f7, rd, rs1, shamt)) == op,
        spec_funct3(spec_i_type_shamt(op, f3, f7, rd, rs1, shamt)) == f3,
        spec_funct7(spec_i_type_shamt(op, f3, f7, rd, rs1, shamt)) == f7,
        spec_rd(spec_i_type_shamt(op, f3, f7, rd, rs1, shamt)) == rd,
        spec_rs1(spec_i_type_shamt(op, f3, f7, rd, rs1, shamt)) == rs1,
        spec_shamt(spec_i_type_shamt(op, f3, f7, rd, rs1, shamt)) == shamt,
{
}

/// The fields of a laid-out S-type word are the ones it was made from.
pub proof fn lemma_s_fields(op: u32, f3: u32, rs1: u32, rs2: u32, imm: i32)
    by (bit_vector)
    requires
        op < 128,
        f3 < 8,
        rs1 < 32,
        rs2 < 32,
        -2048 <= imm < 2048,
    ensures
        spec_opcode(spec_s_type(op, f3, rs1, rs2, imm)) == op,
        spec_funct3(spec_s_type(op, f3, rs1, rs2, imm)) == f3,
        spec_rs1(spec_s_type(op, f3, rs1, rs2, imm)) == rs1,
        spec_rs2(spec_s_type(op, f3, rs1, rs2, imm)) == rs2,
        spec_imm_s(spec_s_type(op, f3, rs1, rs2, imm)) == imm,
{
}

/// The fields of a laid-out B-type word are the ones it was made from.
pub proof fn lemma_b_fields(op: u32, f3: u32, rs1: u32, rs2: u32, imm: i32)
    by (bit_vector)
    requires
        op < 128,
        f3 < 8,
        rs1 < 32,
        rs2 < 32,
        -4096 <= imm < 4096,
        imm & 1 == 0,
    ensures
        spec_opcode(spec_b_type(op, f3, rs1, rs2, imm)) == op,
        spec_funct3(spec_b_type(op, f3, rs1, rs2, imm)) == f3,
        spec_rs1(spec_b_type(op, f3, rs1, rs2, imm)) == rs1,
        spec_rs2(spec_b_type(op, f3, rs1, rs2, imm)) == rs2,
        spec_imm_b(spec_b_type(op, f3, rs1, rs2, imm)) == imm,
{
}

/// The fields of a laid-out U-type word are the ones it was made from.
pub proof fn lemma_u_fields(op: u32, rd: u32, imm: i32)
    by (bit_vector)
    requires
        op < 128,
        rd < 32,
        0 <= imm < 0x10_0000,
    ensures
        spec_opcode(spec_u_type(op, rd, imm)) == op,
        spec_rd(spec_u_type(op, rd, imm)) == rd,
        spec_imm_u(spec_u_type(op, rd, imm)) == imm,
{
}

/// The fields of a laid-out J-type word are the ones it was made from.
pub proof fn lemma_j_fields(op: u32, rd: u32, imm: i32)
    by (bit_vector)
    requires
        op < 128,
        rd < 32,
        -0x10_0000 <= imm < 0x10_0000,
        imm & 1 == 0,
    ensures
        spec_opcode(spec_j_type(op, rd, imm)) == op,
        spec_rd(spec_j_type(op, rd, imm)) == rd,
        spec_imm_j(spec_j_type(op, rd, imm)) == imm,
{
}

/// Encoding a decoded word gives the word back: for every word the decoder
/// accepts, `encode(decode(w)) == w`.
pub proof fn lemma_encode_decode(w: u32)
    requires
        Inst::spec_decode(w) is Ok,
    ensures
        Inst::spec_decode(w)->Ok_0.spec_encode() == w,
{
    lemma_fields_bounded(w);
    Reg::lemma_index_round_trip(Reg::zero, spec_rd(w));
    Reg::lemma_index_round_trip(Reg::zero, spec_rs1(w));
    Reg::lemma_index_round_trip(Reg::zero, spec_rs2(w));
    lemma_r_word(w);
    lemma_i_word(w);
    lemma_shamt_word(w);
    lemma_s_word(w);
    lemma_b_word(w);
    lemma_u_j_word(w);
}

/// Decoding undoes encoding for conditional branches.
proof fn lemma_decode_encode_branch(i: Inst)
    requires
        i.wf(),
        i is BEQ || i is BNE || i is BLT || i is BGE || i is BLTU || i is BGEU,
    ensures
        Inst::spec_decode(i.spec_encode()) == Ok::<Inst, DecodeError>(i),
{
    match i {
        Inst::BEQ { rs1, rs2, imm } => {
            Reg::lemma_index_round_trip(rs1, 0);
            Reg::lemma_index_round_trip(rs2, 0);
            lemma_b_fields(OPC_BRANCH, 0, rs1.spec_index(), rs2.spec_index(), imm);
        },
        Inst::BNE { rs1, rs2, imm } => {
            Reg::lemma_index_round_trip(rs1, 0);
            Reg::lemma_index_round_trip(rs2, 0);
            lemma_b_fields(OPC_BRANCH, 1, rs1.spec_index(), rs2.spec_index(), imm);
        },
        Inst::BLT { rs1, rs2, imm } => {
            Reg::lemma_index_round_trip(rs1, 0);
            Reg::lemma_index_round_trip(rs2, 0);
            lemma_b_fields(OPC_BRANCH, 4, rs1.spec_index(), rs2.spec_index(), imm);
        },
        Inst::BGE { rs1, rs2, imm } => {
            Reg::lemma_index_round_trip(rs1, 0);
            Reg::lemma_index_round_trip(rs2, 0);
            lemma_b_fields(OPC_BRANCH, 5, rs1.spec_index(), rs2.spec_index(), imm);
        },
        Inst::BLTU { rs1, rs2, imm } => {
            Reg::lemma_index_round_trip(rs1, 0);
            Reg::lemma_index_round_trip(rs2, 0);
            lemma_b_fields(OPC_BRANCH, 6, rs1.spec_index(), rs2.spec_index(), imm);
        },
        Inst::BGEU { rs1, rs2, imm } => {
            Reg::lemma_index_round_trip(rs1, 0);
            Reg::lemma_index_round_trip(rs2, 0);
            lemma_b_fields(OPC_BRANCH, 7, rs1.spec_index(), rs2.spec_index(), imm);
        },
        _ => {},
    }
}

/// Decoding undoes encoding for loads and stores.
proof fn lemma_decode_encode_load_store(i: Inst)
    requires
        i.wf(),
        i is LB || i is LH || i is LW || i is LBU || i is LHU || i is SB || i is SH || i is SW,
    ensures
        Inst::spec_decode(i.spec_encode()) == Ok::<Inst, DecodeError>(i),
{
    match i {
        Inst::LB { rd, rs1, imm } => {
            Reg::lemma_index_round_trip(rd, 0);
            Reg::lemma_index_round_trip(rs1, 0);
            lemma_i_fields(OPC_LOAD, 0, rd.spec_index(), rs1.spec_index(), imm);
        },
        Inst::LH { rd, rs1, imm } => {
            Reg::lemma_index_round_trip(rd, 0);
            Reg::lemma_index_round_trip(rs1, 0);
            lemma_i_fields(OPC_LOAD, 1, rd.spec_index(), rs1.spec_index(), imm);
        },
        Inst::LW { rd, rs1, imm } => {
            Reg::lemma_index_round_trip(rd, 0);
            Reg::lemma_index_round_trip(rs1, 0);
            lemma_i_fields(OPC_LOAD, 2, rd.spec_index(), rs1.spec_index(), imm);
        },
        Inst::LBU { rd, rs1, imm } => {
            Reg::lemma_index_round_trip(rd, 0);
            Reg::lemma_index_round_trip(rs1, 0);
            lemma_i_fields(OPC_LOAD, 4, rd.spec_index(), rs1.spec_index(), imm);
        },
        Inst::LHU { rd, rs1, imm } => {
            Reg::lemma_index_round_trip(rd, 0);
            Reg::lemma_index_round_trip(rs1, 0);
            lemma_i_fields(OPC_LOAD, 5, rd.spec_index(), rs1.spec_index(), imm);
        },
        Inst::SB { rs1, rs2, imm } => {
            Reg::lemma_index_round_trip(rs1, 0);
            Reg::lemma_index_round_trip(rs2, 0);
            lemma_s_fields(OPC_STORE, 0, rs1.spec_index(), rs2.spec_index(), imm);
        },
        Inst::SH { rs1, rs2, imm } => {
            Reg::lemma_index_round_trip(rs1, 0);
            Reg::lemma_index_round_trip(rs2, 0);
            lemma_s_fields(OPC_STORE, 1, rs1.spec_index(), rs2.spec_index(), imm);
        },
        Inst::SW { rs1, rs2, imm } => {
            Reg::lemma_index_round_trip(rs1, 0);
            Reg::lemma_index_round_trip(rs2, 0);
            lemma_s_fields(OPC_STORE, 2, rs1.spec_index(), rs2.spec_index(), imm);
        },
        _ => {},
    }
}

/// Decoding undoes encoding for register-immediate arithmetic and `JALR`.
proof fn lemma_decode_encode_op_imm(i: Inst)
    requires
        i.wf(),
        i is ADDI || i is SLTI || i is SLTIU || i is XORI || i is ORI || i is ANDI || i is SLLI || i is SRLI || i is SRAI || i is JALR,
    ensures
        Inst::spec_decode(i.spec_encode()) == Ok::<Inst, DecodeError>(i),
{
    match i {
        Inst::ADDI { rd, rs1, imm } => {
            Reg::lemma_index_round_trip(rd, 0);
            Reg::lemma_index_round_trip(rs1, 0);
            lemma_i_fields(OPC_OP_IMM, 0, rd.spec_index(), rs1.spec_index(), imm);
        },
        Inst::SLTI { rd, rs1, imm } => {
            Reg::lemma_index_round_trip(rd, 0);
            Reg::lemma_index_round_trip(rs1, 0);
            lemma_i_fields(OPC_OP_IMM, 2, rd.spec_index(), rs1.spec_index(), imm);
        },
        Inst::SLTIU { rd, rs1, imm } => {
            Reg::lemma_index_round_trip(rd, 0);
            Reg::lemma_index_round_trip(rs1, 0);
            lemma_i_fields(OPC_OP_IMM, 3, rd.spec_index(), rs1.spec_index(), imm);
        },
        Inst::XORI { rd, rs1, imm } => {
            Reg::lemma_index_round_trip(rd, 0);
            Reg::lemma_index_round_trip(rs1, 0);
            lemma_i_fields(OPC_OP_IMM, 4, rd.spec_index(), rs1.spec_index(), imm);
        },
        Inst::ORI { rd, rs1, imm } => {
            Reg::lemma_index_round_trip(rd, 0);
            Reg::lemma_index_round_trip(rs1, 0);
            lemma_i_fields(OPC_OP_IMM, 6, rd.spec_index(), rs1.spec_index(), imm);
        },
        Inst::ANDI { rd, rs1, imm } => {
            Reg::lemma_index_round_trip(rd, 0);
            Reg::lemma_index_round_trip(rs1, 0);
            lemma_i_fields(OPC_OP_IMM, 7, rd.spec_index(), rs1.spec_index(), imm);
        },
        Inst::SLLI { rd, rs1, shamt } => {
            Reg::lemma_index_round_trip(rd, 0);
            Reg::lemma_index_round_trip(rs1, 0);
            lemma_shamt_fields(OPC_OP_IMM, 1, 0x0, rd.spec_index(), rs1.spec_index(), shamt);
        },
        Inst::SRLI { rd, rs1, shamt } => {
            Reg::lemma_index_round_trip(rd, 0);
            Reg::lemma_index_round_trip(rs1, 0);
            lemma_shamt_fields(OPC_OP_IMM, 5, 0x0, rd.spec_index(), rs1.spec_index(), shamt);
        },
        Inst::SRAI { rd, rs1, shamt } => {
            Reg::lemma_index_round_trip(rd, 0);
            Reg::lemma_index_round_trip(rs1, 0);
            lemma_shamt_fields(OPC_OP_IMM, 5, 0x20, rd.spec_index(), rs1.spec_index(), shamt);
        },
        Inst::JALR { rd, rs1, imm } => {
            Reg::lemma_index_round_trip(rd, 0);
            Reg::lemma_index_round_trip(rs1, 0);
            lemma_i_fields(OPC_JALR, 0, rd.spec_index(), rs1.spec_index(), imm);
        },
        _ => {},
    }
}

/// Decoding undoes encoding for RV32I register-register arithmetic.
proof fn lemma_decode_encode_op_base(i: Inst)
    requires
        i.wf(),
        i is ADD || i is SUB || i is SLL || i is SLT || i is SLTU || i is XOR || i is SRL || i is SRA || i is OR || i is AND,
    ensures
        Inst::spec_decode(i.spec_encode()) == Ok::<Inst, DecodeError>(i),
{
    match i {
        Inst::ADD { rd, rs1, rs2 } => {
            Reg::lemma_index_round_trip(rd, 0);
            Reg::lemma_index_round_trip(rs1, 0);
            Reg::lemma_index_round_trip(rs2, 0);
            lemma_r_fields(OPC_OP, 0, 0x0, rd.spec_index(), rs1.spec_index(), rs2.spec_index());
        },
        Inst::SUB { rd, rs1, rs2 } => {
            Reg::lemma_index_round_trip(rd, 0);
            Reg::lemma_index_round_trip(rs1, 0);
            Reg::lemma_index_round_trip(rs2, 0);
            lemma_r_fields(OPC_OP, 0, 0x20, rd.spec_index(), rs1.spec_index(), rs2.spec_index());
        },
        Inst::SLL { rd, rs1, rs2 } => {
            Reg::lemma_index_round_trip(rd, 0);
            Reg::lemma_index_round_trip(rs1, 0);
            Reg::lemma_index_round_trip(rs2, 0);
            lemma_r_fields(OPC_OP, 1, 0x0, rd.spec_index(), rs1.spec_index(), rs2.spec_index());
        },
        Inst::SLT { rd, rs1, rs2 } => {
            Reg::lemma_index_round_trip(rd, 0);
            Reg::lemma_index_round_trip(rs1, 0);
            Reg::lemma_index_round_trip(rs2, 0);
            lemma_r_fields(OPC_OP, 2, 0x0, rd.spec_index(), rs1.spec_index(), rs2.spec_index());
        },
        Inst::SLTU { rd, rs1, rs2 } => {
            Reg::lemma_index_round_trip(rd, 0);
            Reg::lemma_index_round_trip(rs1, 0);
            Reg::lemma_index_round_trip(rs2, 0);
            lemma_r_fields(OPC_OP, 3, 0x0, rd.spec_index(), rs1.spec_index(), rs2.spec_index());
        },
        Inst::XOR { rd, rs1, rs2 } => {
            Reg::lemma_index_round_trip(rd, 0);
            Reg::lemma_index_round_trip(rs1, 0);
            Reg::lemma_index_round_trip(rs2, 0);
            lemma_r_fields(OPC_OP, 4, 0x0, rd.spec_index(), rs1.spec_index(), rs2.spec_index());
        },
        Inst::SRL { rd, rs1, rs2 } => {
            Reg::lemma_index_round_trip(rd, 0);
            Reg::lemma_index_round_trip(rs1, 0);
            Reg::lemma_index_round_trip(rs2, 0);
            lemma_r_fields(OPC_OP, 5, 0x0, rd.spec_index(), rs1.spec_index(), rs2.spec_index());
        },
        Inst::SRA { rd, rs1, rs2 } => {
            Reg::lemma_index_round_trip(rd, 0);
            Reg::lemma_index_round_trip(rs1, 0);
            Reg::lemma_index_round_trip(rs2, 0);
            lemma_r_fields(OPC_OP, 5, 0x20, rd.spec_index(), rs1.spec_index(), rs2.spec_index());
        },
        Inst::OR { rd, rs1, rs2 } => {
            Reg::lemma_index_round_trip(rd, 0);
            Reg::lemma_index_round_trip(rs1, 0);
            Reg::lemma_index_round_trip(rs2, 0);
            lemma_r_fields(OPC_OP, 6, 0x0, rd.spec_index(), rs1.spec_index(), rs2.spec_index());
        },
        Inst::AND { rd, rs1, rs2 } => {
            Reg::lemma_index_round_trip(rd, 0);
            Reg::lemma_index_round_trip(rs1, 0);
            Reg::lemma_index_round_trip(rs2, 0);
            lemma_r_fields(OPC_OP, 7, 0x0, rd.spec_index(), rs1.spec_index(), rs2.spec_index());
        },
        _ => {},
    }
}

/// Decoding undoes encoding for RV32M multiply and divide.
proof fn lemma_decode_encode_op_m(i: Inst)
    requires
        i.wf(),
        i is MUL || i is MULH || i is MULHSU || i is MULHU || i is DIV || i is DIVU || i is REM || i is REMU,
    ensures
        Inst::spec_decode(i.spec_encode()) == Ok::<Inst, DecodeError>(i),
{
    match i {
        Inst::MUL { rd, rs1, rs2 } => {
            Reg::lemma_index_round_trip(rd, 0);
            Reg::lemma_index_round_trip(rs1, 0);
            Reg::lemma_index_round_trip(rs2, 0);
            lemma_r_fields(OPC_OP, 0, 0x1, rd.spec_index(), rs1.spec_index(), rs2.spec_index());
        },
        Inst::MULH { rd, rs1, rs2 } => {
            Reg::lemma_index_round_trip(rd, 0);
            Reg::lemma_index_round_trip(rs1, 0);
            Reg::lemma_index_round_trip(rs2, 0);
            lemma_r_fields(OPC_OP, 1, 0x1, rd.spec_index(), rs1.spec_index(), rs2.spec_index());
        },
        Inst::MULHSU { rd, rs1, rs2 } => {
            Reg::lemma_index_round_trip(rd, 0);
            Reg::lemma_index_round_trip(rs1, 0);
            Reg::lemma_index_round_trip(rs2, 0);
            lemma_r_fields(OPC_OP, 2, 0x1, rd.spec_index(), rs1.spec_index(), rs2.spec_index());
        },
        Inst::MULHU { rd, rs1, rs2 } => {
            Reg::lemma_index_round_trip(rd, 0);
            Reg::lemma_index_round_trip(rs1, 0);
            Reg::lemma_index_round_trip(rs2, 0);
            lemma_r_fields(OPC_OP, 3, 0x1, rd.spec_index(), rs1.spec_index(), rs2.spec_index());
        },
        Inst::DIV { rd, rs1, rs2 } => {
            Reg::lemma_index_round_trip(rd, 0);
            Reg::lemma_index_round_trip(rs1, 0);
            Reg::lemma_index_round_trip(rs2, 0);
            lemma_r_fields(OPC_OP, 4, 0x1, rd.spec_index(), rs1.spec_index(), rs2.spec_index());
        },
        Inst::DIVU { rd, rs1, rs2 } => {
            Reg::lemma_index_round_trip(rd, 0);
            Reg::lemma_index_round_trip(rs1, 0);
            Reg::lemma_index_round_trip(rs2, 0);
            lemma_r_fields(OPC_OP, 5, 0x1, rd.spec_index(), rs1.spec_index(), rs2.spec_index());
        },
        Inst::REM { rd, rs1, rs2 } => {
            Reg::lemma_index_round_trip(rd, 0);
            Reg::lemma_index_round_trip(rs1, 0);
            Reg::lemma_index_round_trip(rs2, 0);
            lemma_r_fields(OPC_OP, 6, 0x1, rd.spec_index(), rs1.spec_index(), rs2.spec_index());
        },
        Inst::REMU { rd, rs1, rs2 } => {
            Reg::lemma_index_round_trip(rd, 0);
            Reg::lemma_index_round_trip(rs1, 0);
            Reg::lemma_index_round_trip(rs2, 0);
            lemma_r_fields(OPC_OP, 7, 0x1, rd.spec_index(), rs1.spec_index(), rs2.spec_index());
        },
        _ => {},
    }
}

/// Decoding undoes encoding for `FENCE` and `FENCE.I`.
proof fn lemma_decode_encode_misc_mem(i: Inst)
    requires
        i.wf(),
        i is FENCE || i is FENCE_I,
    ensures
        Inst::spec_decode(i.spec_encode()) == Ok::<Inst, DecodeError>(i),
{
    match i {
        Inst::FENCE { rd, rs1, imm } => {
            Reg::lemma_index_round_trip(rd, 0);
            Reg::lemma_index_round_trip(rs1, 0);
            lemma_i_fields(OPC_MISC_MEM, 0, rd.spec_index(), rs1.spec_index(), imm);
        },
        Inst::FENCE_I { rd, rs1, imm } => {
            Reg::lemma_index_round_trip(rd, 0);
            Reg::lemma_index_round_trip(rs1, 0);
            lemma_i_fields(OPC_MISC_MEM, 1, rd.spec_index(), rs1.spec_index(), imm);
        },
        _ => {},
    }
}

/// Decoding undoes encoding for `LUI`, `AUIPC`, `JAL` and `ECALL`.
proof fn lemma_decode_encode_upper_jump(i: Inst)
    requires
        i.wf(),
        i is LUI || i is AUIPC || i is JAL || i is ECALL,
    ensures
        Inst::spec_decode(i.spec_encode()) == Ok::<Inst, DecodeError>(i),
{
    match i {
        Inst::LUI { rd, imm } => {
            Reg::lemma_index_round_trip(rd, 0);
            lemma_u_fields(OPC_LUI, rd.spec_index(), imm);
        },
        Inst::AUIPC { rd, imm } => {
            Reg::lemma_index_round_trip(rd, 0);
            lemma_u_fields(OPC_AUIPC, rd.spec_index(), imm);
        },
        Inst::JAL { rd, imm } => {
            Reg::lemma_index_round_trip(rd, 0);
            lemma_j_fields(OPC_JAL, rd.spec_index(), imm);
        },
        Inst::ECALL => {
            lemma_fields_bounded(ECALL_WORD);
        },
        _ => {},
    }
}

/// Decoding an encoded instruction gives the instruction back: for every
/// well-formed instruction `i`, `decode(encode(i)) == Ok(i)`.
pub proof fn lemma_decode_encode(i: Inst)
    requires
        i.wf(),
    ensures
        Inst::spec_decode(i.spec_encode()) == Ok::<Inst, DecodeError>(i),
{
    match i {
        Inst::BEQ { .. } => lemma_decode_encode_branch(i),
        Inst::BNE { .. } => lemma_decode_encode_branch(i),
        Inst::BLT { .. } => lemma_decode_encode_branch(i),
        Inst::BGE { .. } => lemma_decode_encode_branch(i),
        Inst::BLTU { .. } => lemma_decode_encode_branch(i),
        Inst::BGEU { .. } => lemma_decode_encode_branch(i),
        Inst::LB { .. } => lemma_decode_encode_load_store(i),
        Inst::LH { .. } => lemma_decode_encode_load_store(i),
        Inst::LW { .. } => lemma_decode_encode_load_store(i),
        Inst::LBU { .. } => lemma_decode_encode_load_store(i),
        Inst::LHU { .. } => lemma_decode_encode_load_store(i),
        Inst::SB { .. } => lemma_decode_encode_load_store(i),
        Inst::SH { .. } => lemma_decode_encode_load_store(i),
        Inst::SW { .. } => lemma_decode_encode_load_store(i),
        Inst::ADDI { .. } => lemma_decode_encode_op_imm(i),
        Inst::SLTI { .. } => lemma_decode_encode_op_imm(i),
        Inst::SLTIU { .. } => lemma_decode_encode_op_imm(i),
        Inst::XORI { .. } => lemma_decode_encode_op_imm(i),
        Inst::ORI { .. } => lemma_decode_encode_op_imm(i),
        Inst::ANDI { .. } => lemma_decode_encode_op_imm(i),
        Inst::SLLI { .. } => lemma_decode_encode_op_imm(i),
        Inst::SRLI { .. } => lemma_decode_encode_op_imm(i),
        Inst::SRAI { .. } => lemma_decode_encode_op_imm(i),
        Inst::JALR { .. } => lemma_decode_encode_op_imm(i),
        Inst::ADD { .. } => lemma_decode_encode_op_base(i),
        Inst::SUB { .. } => lemma_decode_encode_op_base(i),
        Inst::SLL { .. } => lemma_decode_encode_op_base(i),
        Inst::SLT { .. } => lemma_decode_encode_op_base(i),
        Inst::SLTU { .. } => lemma_decode_encode_op_base(i),
        Inst::XOR { .. } => lemma_decode_encode_op_base(i),
        Inst::SRL { .. } => lemma_decode_encode_op_base(i),
        Inst::SRA { .. } => lemma_decode_encode_op_base(i),
        Inst::OR { .. } => lemma_decode_encode_op_base(i),
        Inst::AND { .. } => lemma_decode_encode_op_base(i),
        Inst::MUL { .. } => lemma_decode_encode_op_m(i),
        Inst::MULH { .. } => lemma_decode_encode_op_m(i),
        Inst::MULHSU { .. } => lemma_decode_encode_op_m(i),
        Inst::MULHU { .. } => lemma_decode_encode_op_m(i),
        Inst::DIV { .. } => lemma_decode_encode_op_m(i),
        Inst::DIVU { .. } => lemma_decode_encode_op_m(i),
        Inst::REM { .. } => lemma_decode_encode_op_m(i),
        Inst::REMU { .. } => lemma_decode_encode_op_m(i),
        Inst::LUI { .. } => lemma_decode_encode_upper_jump(i),
        Inst::AUIPC { .. } => lemma_decode_encode_upper_jump(i),
        Inst::JAL { .. } => lemma_decode_encode_upper_jump(i),
        Inst::FENCE { .. } => lemma_decode_encode_misc_mem(i),
        Inst::FENCE_I { .. } => lemma_decode_encode_misc_mem(i),
        Inst::ECALL => lemma_decode_encode_upper_jump(i),
    }
}

/// Branch and jump offsets are even: the decoder never sets their low bit.
pub proof fn lemma_offsets_even(w: u32)
    ensures
        spec_imm_b(w) & 1 == 0,
        spec_imm_j(w) & 1 == 0,
{
    assert(spec_imm_b(w) & 1 == 0 && spec_imm_j(w) & 1 == 0) by (bit_vector);
}

} // verus!
