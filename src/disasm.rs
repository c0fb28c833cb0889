//! Disassembly: the assembler text of an instruction.
use vstd::prelude::*;
use vstd::string::StringExecFns;

use crate::inst::Inst;
use crate::reg::Reg;

verus! {

/// The digit for `d` (below 16), lower case.
pub open spec fn spec_digit(d: nat) -> char {
    if d == 0 {
        '0'
    } else if d == 1 {
        '1'
    } else if d == 2 {
        '2'
    } else if d == 3 {
        '3'
    } else if d == 4 {
        '4'
    } else if d == 5 {
        '5'
    } else if d == 6 {
        '6'
    } else if d == 7 {
        '7'
    } else if d == 8 {
        '8'
    } else if d == 9 {
        '9'
    } else if d == 10 {
        'a'
    } else if d == 11 {
        'b'
    } else if d == 12 {
        'c'
    } else if d == 13 {
        'd'
    } else if d == 14 {
        'e'
    } else {
        'f'
    }
}

/// The digits of `n` in `base`, most significant first, without leading zeros
/// (`0` is one digit).
pub open spec fn spec_digits(n: nat, base: nat) -> Seq<char>
    recommends
        2 <= base <= 16,
    decreases n,
    via lemma_digits_decreases
{
    if n < base || base < 2 {
        seq![spec_digit(n)]
    } else {
        spec_digits(n / base, base) + seq![spec_digit(n % base)]
    }
}

#[via_fn]
proof fn lemma_digits_decreases(n: nat, base: nat) {
    if !(n < base || base < 2) {
        assert(n / base < n) by (nonlinear_arith)
            requires
                n >= base,
                base >= 2,
        ;
    }
}

/// A signed decimal: a minus sign for negative values, then the digits.
pub open spec fn spec_decimal(v: int) -> Seq<char> {
    if v < 0 {
        seq!['-'] + spec_digits((-v) as nat, 10)
    } else {
        spec_digits(v as nat, 10)
    }
}

/// Lower-case hexadecimal digits of `v`, without prefix.
pub open spec fn spec_hex(v: u32) -> Seq<char> {
    spec_digits(v as nat, 16)
}

/// The one-character string of a digit.
fn digit_str(d: u32) -> (r: &'static str)
    requires
        d < 16,
    ensures
        r@ == seq![spec_digit(d as nat)],
{
    proof {
        reveal_strlit("0");
        reveal_strlit("1");
        reveal_strlit("2");
        reveal_strlit("3");
        reveal_strlit("4");
        reveal_strlit("5");
        reveal_strlit("6");
        reveal_strlit("7");
        reveal_strlit("8");
        reveal_strlit("9");
        reveal_strlit("a");
        reveal_strlit("b");
        reveal_strlit("c");
        reveal_strlit("d");
        reveal_strlit("e");
        reveal_strlit("f");
    }
    match d {
        0 => "0",
        1 => "1",
        2 => "2",
        3 => "3",
        4 => "4",
        5 => "5",
        6 => "6",
        7 => "7",
        8 => "8",
        9 => "9",
        10 => "a",
        11 => "b",
        12 => "c",
        13 => "d",
        14 => "e",
        _ => "f",
    }
}

/// Appends the digits of `n` in `base`.
fn append_digits(s: &mut String, n: u32, base: u32)
    requires
        2 <= base <= 16,
    ensures
        final(s)@ == old(s)@ + spec_digits(n as nat, base as nat),
    decreases n,
{
    if n >= base {
        assert(n / base < n) by (nonlinear_arith)
            requires
                n >= base,
                base >= 2,
        ;
        append_digits(s, n / base, base);
        s.append(digit_str(n % base));
        assert(final(s)@ =~= old(s)@ + spec_digits(n as nat, base as nat));
    } else {
        s.append(digit_str(n));
    }
}

/// Appends `v` in signed decimal.
fn append_decimal(s: &mut String, v: i32)
    ensures
        final(s)@ == old(s)@ + spec_decimal(v as int),
{
    if v < 0 {
        proof {
            reveal_strlit("-");
        }
        s.append("-");
        let m: u32 = (-(v as i64)) as u32;
        append_digits(s, m, 10);
        assert(final(s)@ =~= old(s)@ + spec_decimal(v as int));
    } else {
        append_digits(s, v as u32, 10);
    }
}

/// Appends `v` in lower-case hexadecimal.
fn append_hex(s: &mut String, v: u32)
    ensures
        final(s)@ == old(s)@ + spec_hex(v),
{
    append_digits(s, v, 16);
}

/// The target of a branch or jump: an absolute address in hexadecimal when the
/// instruction's own address is known, else `PC+offset`.
pub open spec fn spec_target(pc: Option<u32>, imm: i32) -> Seq<char> {
    match pc {
        Some(p) => spec_hex(p.wrapping_add(imm as u32)),
        None => "PC+"@ + spec_decimal(imm as int),
    }
}

fn append_target(s: &mut String, pc: Option<u32>, imm: i32)
    ensures
        final(s)@ == old(s)@ + spec_target(pc, imm),
{
    match pc {
        Some(p) => append_hex(s, p.wrapping_add(imm as u32)),
        None => {
            s.append("PC+");
            append_decimal(s, imm);
            assert(final(s)@ =~= old(s)@ + spec_target(pc, imm));
        },
    }
}

/// The assembler text of `i`. `pc`, when given, is the address of the
/// instruction: branch and jump targets are then shown as absolute addresses.
pub open spec fn spec_disassembly(i: Inst, pc: Option<u32>) -> Seq<char> {
    match i {
        Inst::BEQ { rs1, rs2, imm } => "beq "@ + rs1.spec_name() + ", "@ + rs2.spec_name() + ", "@ + spec_target(pc, imm),
        Inst::BNE { rs1, rs2, imm } => "bne "@ + rs1.spec_name() + ", "@ + rs2.spec_name() + ", "@ + spec_target(pc, imm),
        Inst::BLT { rs1, rs2, imm } => "blt "@ + rs1.spec_name() + ", "@ + rs2.spec_name() + ", "@ + spec_target(pc, imm),
        Inst::BGE { rs1, rs2, imm } => "bge "@ + rs1.spec_name() + ", "@ + rs2.spec_name() + ", "@ + spec_target(pc, imm),
        Inst::BLTU { rs1, rs2, imm } => "bltu "@ + rs1.spec_name() + ", "@ + rs2.spec_name() + ", "@ + spec_target(pc, imm),
        Inst::BGEU { rs1, rs2, imm } => "bgeu "@ + rs1.spec_name() + ", "@ + rs2.spec_name() + ", "@ + spec_target(pc, imm),
        Inst::LB { rd, rs1, imm } => "lb "@ + rd.spec_name() + ", "@ + spec_decimal(imm as int) + "("@ + rs1.spec_name() + ")"@,
        Inst::LH { rd, rs1, imm } => "lh "@ + rd.spec_name() + ", "@ + spec_decimal(imm as int) + "("@ + rs1.spec_name() + ")"@,
        Inst::LW { rd, rs1, imm } => "lw "@ + rd.spec_name() + ", "@ + spec_decimal(imm as int) + "("@ + rs1.spec_name() + ")"@,
        Inst::LBU { rd, rs1, imm } => "lbu "@ + rd.spec_name() + ", "@ + spec_decimal(imm as int) + "("@ + rs1.spec_name() + ")"@,
        Inst::LHU { rd, rs1, imm } => "lhu "@ + rd.spec_name() + ", "@ + spec_decimal(imm as int) + "("@ + rs1.spec_name() + ")"@,
        Inst::ADDI { rd, rs1, imm } => if rs1 == Reg::zero {
            "li "@ + rd.spec_name() + ", "@ + spec_decimal(imm as int)
        } else {
            "addi "@ + rd.spec_name() + ", "@ + rs1.spec_name() + ", "@ + spec_decimal(imm as int)
        },
        Inst::SLTI { rd, rs1, imm } => "slti "@ + rd.spec_name() + ", "@ + rs1.spec_name() + ", "@ + spec_decimal(imm as int),
        Inst::SLTIU { rd, rs1, imm } => "sltiu "@ + rd.spec_name() + ", "@ + rs1.spec_name() + ", "@ + spec_decimal(imm as int),
        Inst::XORI { rd, rs1, imm } => "xori "@ + rd.spec_name() + ", "@ + rs1.spec_name() + ", "@ + spec_decimal(imm as int),
        Inst::ORI { rd, rs1, imm } => "ori "@ + rd.spec_name() + ", "@ + rs1.spec_name() + ", "@ + spec_decimal(imm as int),
        Inst::ANDI { rd, rs1, imm } => "andi "@ + rd.spec_name() + ", "@ + rs1.spec_name() + ", "@ + spec_decimal(imm as int),
        Inst::SLLI { rd, rs1, shamt } => "slli "@ + rd.spec_name() + ", "@ + rs1.spec_name() + ", "@ + spec_digits(shamt as nat, 10),
        Inst::SRLI { rd, rs1, shamt } => "srli "@ + rd.spec_name() + ", "@ + rs1.spec_name() + ", "@ + spec_digits(shamt as nat, 10),
        Inst::SRAI { rd, rs1, shamt } => "srai "@ + rd.spec_name() + ", "@ + rs1.spec_name() + ", "@ + spec_digits(shamt as nat, 10),
        Inst::JALR { rd, rs1, imm } => "jalr "@ + rd.spec_name() + ", "@ + spec_decimal(imm as int) + "("@ + rs1.spec_name() + ")"@,
        Inst::SB { rs1, rs2, imm } => "sb "@ + rs2.spec_name() + ", "@ + spec_decimal(imm as int) + "("@ + rs1.spec_name() + ")"@,
        Inst::SH { rs1, rs2, imm } => "sh "@ + rs2.spec_name() + ", "@ + spec_decimal(imm as int) + "("@ + rs1.spec_name() + ")"@,
        Inst::SW { rs1, rs2, imm } => "sw "@ + rs2.spec_name() + ", "@ + spec_decimal(imm as int) + "("@ + rs1.spec_name() + ")"@,
        Inst::ADD { rd, rs1, rs2 } => "add "@ + rd.spec_name() + ", "@ + rs1.spec_name() + ", "@ + rs2.spec_name(),
        Inst::SUB { rd, rs1, rs2 } => "sub "@ + rd.spec_name() + ", "@ + rs1.spec_name() + ", "@ + rs2.spec_name(),
        Inst::SLL { rd, rs1, rs2 } => "sll "@ + rd.spec_name() + ", "@ + rs1.spec_name() + ", "@ + rs2.spec_name(),
        Inst::SLT { rd, rs1, rs2 } => "slt "@ + rd.spec_name() + ", "@ + rs1.spec_name() + ", "@ + rs2.spec_name(),
        Inst::SLTU { rd, rs1, rs2 } => "sltu "@ + rd.spec_name() + ", "@ + rs1.spec_name() + ", "@ + rs2.spec_name(),
        Inst::XOR { rd, rs1, rs2 } => "xor "@ + rd.spec_name() + ", "@ + rs1.spec_name() + ", "@ + rs2.spec_name(),
        Inst::SRL { rd, rs1, rs2 } => "srl "@ + rd.spec_name() + ", "@ + rs1.spec_name() + ", "@ + rs2.spec_name(),
        Inst::SRA { rd, rs1, rs2 } => "sra "@ + rd.spec_name() + ", "@ + rs1.spec_name() + ", "@ + rs2.spec_name(),
        Inst::OR { rd, rs1, rs2 } => "or "@ + rd.spec_name() + ", "@ + rs1.spec_name() + ", "@ + rs2.spec_name(),
        Inst::AND { rd, rs1, rs2 } => "and "@ + rd.spec_name() + ", "@ + rs1.spec_name() + ", "@ + rs2.spec_name(),
        Inst::MUL { rd, rs1, rs2 } => "mul "@ + rd.spec_name() + ", "@ + rs1.spec_name() + ", "@ + rs2.spec_name(),
        Inst::MULH { rd, rs1, rs2 } => "mulh "@ + rd.spec_name() + ", "@ + rs1.spec_name() + ", "@ + rs2.spec_name(),
        Inst::MULHSU { rd, rs1, rs2 } => "mulhsu "@ + rd.spec_name() + ", "@ + rs1.spec_name() + ", "@ + rs2.spec_name(),
        Inst::MULHU { rd, rs1, rs2 } => "mulhu "@ + rd.spec_name() + ", "@ + rs1.spec_name() + ", "@ + rs2.spec_name(),
        Inst::DIV { rd, rs1, rs2 } => "div "@ + rd.spec_name() + ", "@ + rs1.spec_name() + ", "@ + rs2.spec_name(),
        Inst::DIVU { rd, rs1, rs2 } => "divu "@ + rd.spec_name() + ", "@ + rs1.spec_name() + ", "@ + rs2.spec_name(),
        Inst::REM { rd, rs1, rs2 } => "rem "@ + rd.spec_name() + ", "@ + rs1.spec_name() + ", "@ + rs2.spec_name(),
        Inst::REMU { rd, rs1, rs2 } => "remu "@ + rd.spec_name() + ", "@ + rs1.spec_name() + ", "@ + rs2.spec_name(),
        Inst::LUI { rd, imm } => "lui "@ + rd.spec_name() + ", 0x"@ + spec_hex(imm as u32),
        Inst::AUIPC { rd, imm } => "auipc "@ + rd.spec_name() + ", 0x"@ + spec_hex(imm as u32),
        Inst::JAL { rd, imm } => match pc {
            Some(p) => "j "@ + spec_hex(p.wrapping_add(imm as u32)),
            None => "jal "@ + rd.spec_name() + ", "@ + spec_hex(imm as u32),
        },
        Inst::FENCE { .. } => "fence"@,
        Inst::FENCE_I { .. } => "fence.i"@,
        Inst::ECALL => "ecall"@,
    }
}

impl Inst {
    /// Disassembles the instruction. `pc`, when given, is its address, and
    /// branch and jump targets are shown as absolute addresses.
    pub fn disassemble(&self, pc: Option<u32>) -> (r: String)
        ensures
            r@ == spec_disassembly(*self, pc),
    {
        match *self {
            Inst::BEQ { rs1, rs2, imm } => {
                let mut s = String::from_str("beq ");
                s.append(rs1.name());
                s.append(", ");
                s.append(rs2.name());
                s.append(", ");
                append_target(&mut s, pc, imm);
                s
            },
            Inst::BNE { rs1, rs2, imm } => {
                let mut s = String::from_str("bne ");
                s.append(rs1.name());
                s.append(", ");
                s.append(rs2.name());
                s.append(", ");
                append_target(&mut s, pc, imm);
                s
            },
            Inst::BLT { rs1, rs2, imm } => {
                let mut s = String::from_str("blt ");
                s.append(rs1.name());
                s.append(", ");
                s.append(rs2.name());
                s.append(", ");
                append_target(&mut s, pc, imm);
                s
            },
            Inst::BGE { rs1, rs2, imm } => {
                let mut s = String::from_str("bge ");
                s.append(rs1.name());
                s.append(", ");
                s.append(rs2.name());
                s.append(", ");
                append_target(&mut s, pc, imm);
                s
            },
            Inst::BLTU { rs1, rs2, imm } => {
                let mut s = String::from_str("bltu ");
                s.append(rs1.name());
                s.append(", ");
                s.append(rs2.name());
                s.append(", ");
                append_target(&mut s, pc, imm);
                s
            },
            Inst::BGEU { rs1, rs2, imm } => {
                let mut s = String::from_str("bgeu ");
                s.append(rs1.name());
                s.append(", ");
                s.append(rs2.name());
                s.append(", ");
                append_target(&mut s, pc, imm);
                s
            },
            Inst::LB { rd, rs1, imm } => {
                let mut s = String::from_str("lb ");
                s.append(rd.name());
                s.append(", ");
                append_decimal(&mut s, imm);
                s.append("(");
                s.append(rs1.name());
                s.append(")");
                s
            },
            Inst::LH { rd, rs1, imm } => {
                let mut s = String::from_str("lh ");
                s.append(rd.name());
                s.append(", ");
                append_decimal(&mut s, imm);
                s.append("(");
                s.append(rs1.name());
                s.append(")");
                s
            },
            Inst::LW { rd, rs1, imm } => {
                let mut s = String::from_str("lw ");
                s.append(rd.name());
                s.append(", ");
                append_decimal(&mut s, imm);
                s.append("(");
                s.append(rs1.name());
                s.append(")");
                s
            },
            Inst::LBU { rd, rs1, imm } => {
                let mut s = String::from_str("lbu ");
                s.append(rd.name());
                s.append(", ");
                append_decimal(&mut s, imm);
                s.append("(");
                s.append(rs1.name());
                s.append(")");
                s
            },
            Inst::LHU { rd, rs1, imm } => {
                let mut s = String::from_str("lhu ");
                s.append(rd.name());
                s.append(", ");
                append_decimal(&mut s, imm);
                s.append("(");
                s.append(rs1.name());
                s.append(")");
                s
            },
            Inst::ADDI { rd, rs1, imm } => if rs1 == Reg::zero {
                let mut s = String::from_str("li ");
                s.append(rd.name());
                s.append(", ");
                append_decimal(&mut s, imm);
                s
            } else {
                let mut s = String::from_str("addi ");
                s.append(rd.name());
                s.append(", ");
                s.append(rs1.name());
                s.append(", ");
                append_decimal(&mut s, imm);
                s
            },
            Inst::SLTI { rd, rs1, imm } => {
                let mut s = String::from_str("slti ");
                s.append(rd.name());
                s.append(", ");
                s.append(rs1.name());
                s.append(", ");
                append_decimal(&mut s, imm);
                s
            },
            Inst::SLTIU { rd, rs1, imm } => {
                let mut s = String::from_str("sltiu ");
                s.append(rd.name());
                s.append(", ");
                s.append(rs1.name());
                s.append(", ");
                append_decimal(&mut s, imm);
                s
            },
            Inst::XORI { rd, rs1, imm } => {
                let mut s = String::from_str("xori ");
                s.append(rd.name());
                s.append(", ");
                s.append(rs1.name());
                s.append(", ");
                append_decimal(&mut s, imm);
                s
            },
            Inst::ORI { rd, rs1, imm } => {
                let mut s = String::from_str("ori ");
                s.append(rd.name());
                s.append(", ");
                s.append(rs1.name());
                s.append(", ");
                append_decimal(&mut s, imm);
                s
            },
            Inst::ANDI { rd, rs1, imm } => {
                let mut s = String::from_str("andi ");
                s.append(rd.name());
                s.append(", ");
                s.append(rs1.name());
                s.append(", ");
                append_decimal(&mut s, imm);
                s
            },
            Inst::SLLI { rd, rs1, shamt } => {
                let mut s = String::from_str("slli ");
                s.append(rd.name());
                s.append(", ");
                s.append(rs1.name());
                s.append(", ");
                append_digits(&mut s, shamt, 10);
                s
            },
            Inst::SRLI { rd, rs1, shamt } => {
                let mut s = String::from_str("srli ");
                s.append(rd.name());
                s.append(", ");
                s.append(rs1.name());
                s.append(", ");
                append_digits(&mut s, shamt, 10);
                s
            },
            Inst::SRAI { rd, rs1, shamt } => {
                let mut s = String::from_str("srai ");
                s.append(rd.name());
                s.append(", ");
                s.append(rs1.name());
                s.append(", ");
                append_digits(&mut s, shamt, 10);
                s
            },
            Inst::JALR { rd, rs1, imm } => {
                let mut s = String::from_str("jalr ");
                s.append(rd.name());
                s.append(", ");
                append_decimal(&mut s, imm);
                s.append("(");
                s.append(rs1.name());
                s.append(")");
                s
            },
            Inst::SB { rs1, rs2, imm } => {
                let mut s = String::from_str("sb ");
                s.append(rs2.name());
                s.append(", ");
                append_decimal(&mut s, imm);
                s.append("(");
                s.append(rs1.name());
                s.append(")");
                s
            },
            Inst::SH { rs1, rs2, imm } => {
                let mut s = String::from_str("sh ");
                s.append(rs2.name());
                s.append(", ");
                append_decimal(&mut s, imm);
                s.append("(");
                s.append(rs1.name());
                s.append(")");
                s
            },
            Inst::SW { rs1, rs2, imm } => {
                let mut s = String::from_str("sw ");
                s.append(rs2.name());
                s.append(", ");
                append_decimal(&mut s, imm);
                s.append("(");
                s.append(rs1.name());
                s.append(")");
                s
            },
            Inst::ADD { rd, rs1, rs2 } => {
                let mut s = String::from_str("add ");
                s.append(rd.name());
                s.append(", ");
                s.append(rs1.name());
                s.append(", ");
                s.append(rs2.name());
                s
            },
            Inst::SUB { rd, rs1, rs2 } => {
                let mut s = String::from_str("sub ");
                s.append(rd.name());
                s.append(", ");
                s.append(rs1.name());
                s.append(", ");
                s.append(rs2.name());
                s
            },
            Inst::SLL { rd, rs1, rs2 } => {
                let mut s = String::from_str("sll ");
                s.append(rd.name());
                s.append(", ");
                s.append(rs1.name());
                s.append(", ");
                s.append(rs2.name());
                s
            },
            Inst::SLT { rd, rs1, rs2 } => {
                let mut s = String::from_str("slt ");
                s.append(rd.name());
                s.append(", ");
                s.append(rs1.name());
                s.append(", ");
                s.append(rs2.name());
                s
            },
            Inst::SLTU { rd, rs1, rs2 } => {
                let mut s = String::from_str("sltu ");
                s.append(rd.name());
                s.append(", ");
                s.append(rs1.name());
                s.append(", ");
                s.append(rs2.name());
                s
            },
            Inst::XOR { rd, rs1, rs2 } => {
                let mut s = String::from_str("xor ");
                s.append(rd.name());
                s.append(", ");
                s.append(rs1.name());
                s.append(", ");
                s.append(rs2.name());
                s
            },
            Inst::SRL { rd, rs1, rs2 } => {
                let mut s = String::from_str("srl ");
                s.append(rd.name());
                s.append(", ");
                s.append(rs1.name());
                s.append(", ");
                s.append(rs2.name());
                s
            },
            Inst::SRA { rd, rs1, rs2 } => {
                let mut s = String::from_str("sra ");
                s.append(rd.name());
                s.append(", ");
                s.append(rs1.name());
                s.append(", ");
                s.append(rs2.name());
                s
            },
            Inst::OR { rd, rs1, rs2 } => {
                let mut s = String::from_str("or ");
                s.append(rd.name());
                s.append(", ");
                s.append(rs1.name());
                s.append(", ");
                s.append(rs2.name());
                s
            },
            Inst::AND { rd, rs1, rs2 } => {
                let mut s = String::from_str("and ");
                s.append(rd.name());
                s.append(", ");
                s.append(rs1.name());
                s.append(", ");
                s.append(rs2.name());
                s
            },
            Inst::MUL { rd, rs1, rs2 } => {
                let mut s = String::from_str("mul ");
                s.append(rd.name());
                s.append(", ");
                s.append(rs1.name());
                s.append(", ");
                s.append(rs2.name());
                s
            },
            Inst::MULH { rd, rs1, rs2 } => {
                let mut s = String::from_str("mulh ");
                s.append(rd.name());
                s.append(", ");
                s.append(rs1.name());
                s.append(", ");
                s.append(rs2.name());
                s
            },
            Inst::MULHSU { rd, rs1, rs2 } => {
                let mut s = String::from_str("mulhsu ");
                s.append(rd.name());
                s.append(", ");
                s.append(rs1.name());
                s.append(", ");
                s.append(rs2.name());
                s
            },
            Inst::MULHU { rd, rs1, rs2 } => {
                let mut s = String::from_str("mulhu ");
                s.append(rd.name());
                s.append(", ");
                s.append(rs1.name());
                s.append(", ");
                s.append(rs2.name());
                s
            },
            Inst::DIV { rd, rs1, rs2 } => {
                let mut s = String::from_str("div ");
                s.append(rd.name());
                s.append(", ");
                s.append(rs1.name());
                s.append(", ");
                s.append(rs2.name());
                s
            },
            Inst::DIVU { rd, rs1, rs2 } => {
                let mut s = String::from_str("divu ");
                s.append(rd.name());
                s.append(", ");
                s.append(rs1.name());
                s.append(", ");
                s.append(rs2.name());
                s
            },
            Inst::REM { rd, rs1, rs2 } => {
                let mut s = String::from_str("rem ");
                s.append(rd.name());
                s.append(", ");
                s.append(rs1.name());
                s.append(", ");
                s.append(rs2.name());
                s
            },
            Inst::REMU { rd, rs1, rs2 } => {
                let mut s = String::from_str("remu ");
                s.append(rd.name());
                s.append(", ");
                s.append(rs1.name());
                s.append(", ");
                s.append(rs2.name());
                s
            },
            Inst::LUI { rd, imm } => {
                let mut s = String::from_str("lui ");
                s.append(rd.name());
                s.append(", 0x");
                append_hex(&mut s, imm as u32);
                s
            },
            Inst::AUIPC { rd, imm } => {
                let mut s = String::from_str("auipc ");
                s.append(rd.name());
                s.append(", 0x");
                append_hex(&mut s, imm as u32);
                s
            },
            Inst::JAL { rd, imm } => match pc {
                Some(p) => {
                    let mut s = String::from_str("j ");
                    append_hex(&mut s, p.wrapping_add(imm as u32));
                    s
                },
                None => {
                    let mut s = String::from_str("jal ");
                    s.append(rd.name());
                    s.append(", ");
                    append_hex(&mut s, imm as u32);
                    s
                },
            },
            Inst::FENCE { .. } => String::from_str("fence"),
            Inst::FENCE_I { .. } => String::from_str("fence.i"),
            Inst::ECALL => String::from_str("ecall"),
        }
    }
}

} // verus!
