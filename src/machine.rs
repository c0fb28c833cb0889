//! The architectural state as a mathematical value, and what each
//! instruction does to it.
use vstd::prelude::*;

use crate::error::{EmulatorError, ExecError};
use crate::inst::{spec_sext, Inst};
use crate::reg::Reg;

verus! {

/// Registers, program counter and memory. `regs` has one cell per register;
/// the cell of `zero` is never read. Memory is byte-addressed from 0 and
/// little-endian; loads and stores need no alignment.
pub struct Machine {
    pub pc: u32,
    pub regs: Seq<u32>,
    pub mem: Seq<u8>,
}

impl Machine {
    /// Exactly one cell per register.
    pub open spec fn wf(self) -> bool {
        self.regs.len() == 32
    }

    /// The value of a register: `zero` reads as 0.
    pub open spec fn reg(self, r: Reg) -> u32 {
        if r == Reg::zero {
            0
        } else {
            self.regs[r.spec_index() as int]
        }
    }

    /// The state after writing `v` to `r`; a write to `zero` changes nothing.
    pub open spec fn with_reg(self, r: Reg, v: u32) -> Machine {
        if r == Reg::zero {
            self
        } else {
            Machine { regs: self.regs.update(r.spec_index() as int, v), ..self }
        }
    }

    /// The state with the program counter set to `pc`.
    pub open spec fn with_pc(self, pc: u32) -> Machine {
        Machine { pc, ..self }
    }

    /// The address of the following instruction.
    pub open spec fn next_pc(self) -> u32 {
        self.pc.wrapping_add(4)
    }

    /// `n` bytes from `addr` on lie in memory.
    pub open spec fn in_bounds(self, addr: u32, n: nat) -> bool {
        addr + n <= self.mem.len()
    }

    /// The byte at `addr`, widened.
    pub open spec fn load_u8(self, addr: u32) -> u32 {
        self.mem[addr as int] as u32
    }

    /// The little-endian halfword at `addr`.
    pub open spec fn load_u16(self, addr: u32) -> u32 {
        (self.mem[addr as int] as u32) | ((self.mem[addr + 1] as u32) << 8)
    }

    /// The little-endian word at `addr`.
    pub open spec fn load_u32(self, addr: u32) -> u32 {
        (self.mem[addr as int] as u32) | ((self.mem[addr + 1] as u32) << 8) | ((self.mem[addr
            + 2] as u32) << 16) | ((self.mem[addr + 3] as u32) << 24)
    }

    /// The state after storing the low byte of `v` at `addr`.
    pub open spec fn store_u8(self, addr: u32, v: u32) -> Machine {
        Machine { mem: self.mem.update(addr as int, (v & 0xff) as u8), ..self }
    }

    /// The state after storing the low halfword of `v`, little-endian, at `addr`.
    pub open spec fn store_u16(self, addr: u32, v: u32) -> Machine {
        Machine {
            mem: self.mem.update(addr as int, (v & 0xff) as u8).update(
                addr + 1,
                ((v >> 8) & 0xff) as u8,
            ),
            ..self
        }
    }

    /// The state after storing `v`, little-endian, at `addr`.
    pub open spec fn store_u32(self, addr: u32, v: u32) -> Machine {
        Machine {
            mem: self.mem.update(addr as int, (v & 0xff) as u8).update(
                addr + 1,
                ((v >> 8) & 0xff) as u8,
            ).update(addr + 2, ((v >> 16) & 0xff) as u8).update(addr + 3, ((v >> 24) & 0xff) as u8),
            ..self
        }
    }

    /// The effective address `rs1 + imm` of a load or store.
    pub open spec fn addr(self, rs1: Reg, imm: i32) -> u32 {
        self.reg(rs1).wrapping_add(imm as u32)
    }
}

/// Signed less-than as 0 or 1.
pub open spec fn spec_slt(a: u32, b: u32) -> u32 {
    if (a as i32) < (b as i32) {
        1
    } else {
        0
    }
}

/// Unsigned less-than as 0 or 1.
pub open spec fn spec_sltu(a: u32, b: u32) -> u32 {
    if a < b {
        1
    } else {
        0
    }
}

/// Logical left shift by the low five bits of `b`.
pub open spec fn spec_sll(a: u32, b: u32) -> u32 {
    a << (b & 0x1f)
}

/// Logical right shift by the low five bits of `b`.
pub open spec fn spec_srl(a: u32, b: u32) -> u32 {
    a >> (b & 0x1f)
}

/// Arithmetic right shift by the low five bits of `b`.
pub open spec fn spec_sra(a: u32, b: u32) -> u32 {
    ((a as i32) >> (b & 0x1f)) as u32
}

/// High word of the signed × signed 64-bit product.
pub open spec fn spec_mulh(a: u32, b: u32) -> u32 {
    ((((a as i32) as int * (b as i32) as int) as i64) >> 32u32) as u32
}

/// High word of the unsigned × unsigned 64-bit product.
pub open spec fn spec_mulhu(a: u32, b: u32) -> u32 {
    (((a as int * b as int) as u64) >> 32u32) as u32
}

/// High word of the signed × unsigned 64-bit product.
pub open spec fn spec_mulhsu(a: u32, b: u32) -> u32 {
    ((((a as i32) as int * b as int) as i64) >> 32u32) as u32
}

/// Signed division rounding toward zero; `x / 0` is all ones, and the one
/// overflowing quotient, `INT_MIN / -1`, is `INT_MIN`.
pub open spec fn spec_div(a: u32, b: u32) -> u32 {
    if b == 0 {
        0xffff_ffff
    } else {
        match (a as i32).checked_div(b as i32) {
            Some(q) => q as u32,
            None => a,
        }
    }
}

/// Unsigned division; `x / 0` is all ones.
pub open spec fn spec_divu(a: u32, b: u32) -> u32 {
    if b == 0 {
        0xffff_ffff
    } else {
        a / b
    }
}

/// Signed remainder with the sign of the dividend; `x % 0` is `x`, and
/// `INT_MIN % -1` is 0.
pub open spec fn spec_rem(a: u32, b: u32) -> u32 {
    if b == 0 {
        a
    } else {
        match (a as i32).checked_rem(b as i32) {
            Some(r) => r as u32,
            None => 0,
        }
    }
}

/// Unsigned remainder; `x % 0` is `x`.
pub open spec fn spec_remu(a: u32, b: u32) -> u32 {
    if b == 0 {
        a
    } else {
        a % b
    }
}

/// Where a branch goes: `pc + imm` when taken, the next instruction otherwise.
pub open spec fn spec_branch(m: Machine, taken: bool, imm: i32) -> Machine {
    if taken {
        m.with_pc(m.pc.wrapping_add(imm as u32))
    } else {
        m.with_pc(m.next_pc())
    }
}

/// `rd <- v`, then on to the next instruction.
pub open spec fn spec_set(m: Machine, rd: Reg, v: u32) -> Machine {
    m.with_reg(rd, v).with_pc(m.next_pc())
}

/// What executing `i` does to `m`; `None` when a load or store reaches past
/// the end of memory. `ECALL` only moves on: its effect is the host's.
/// `FENCE` and `FENCE.I` only move on: with one hart and every fetch reading
/// current memory there is nothing to order.
pub open spec fn spec_execute(m: Machine, i: Inst) -> Option<Machine> {
    match i {
        Inst::BEQ { rs1, rs2, imm } => Some(spec_branch(m, m.reg(rs1) == m.reg(rs2), imm)),
        Inst::BNE { rs1, rs2, imm } => Some(spec_branch(m, m.reg(rs1) != m.reg(rs2), imm)),
        Inst::BLT { rs1, rs2, imm } => Some(
            spec_branch(m, (m.reg(rs1) as i32) < (m.reg(rs2) as i32), imm),
        ),
        Inst::BGE { rs1, rs2, imm } => Some(
            spec_branch(m, (m.reg(rs1) as i32) >= (m.reg(rs2) as i32), imm),
        ),
        Inst::BLTU { rs1, rs2, imm } => Some(spec_branch(m, m.reg(rs1) < m.reg(rs2), imm)),
        Inst::BGEU { rs1, rs2, imm } => Some(spec_branch(m, m.reg(rs1) >= m.reg(rs2), imm)),
        Inst::LB { rd, rs1, imm } => if m.in_bounds(m.addr(rs1, imm), 1) {
            Some(spec_set(m, rd, spec_sext(m.load_u8(m.addr(rs1, imm)), 8)))
        } else {
            None
        },
        Inst::LH { rd, rs1, imm } => if m.in_bounds(m.addr(rs1, imm), 2) {
            Some(spec_set(m, rd, spec_sext(m.load_u16(m.addr(rs1, imm)), 16)))
        } else {
            None
        },
        Inst::LW { rd, rs1, imm } => if m.in_bounds(m.addr(rs1, imm), 4) {
            Some(spec_set(m, rd, m.load_u32(m.addr(rs1, imm))))
        } else {
            None
        },
        Inst::LBU { rd, rs1, imm } => if m.in_bounds(m.addr(rs1, imm), 1) {
            Some(spec_set(m, rd, m.load_u8(m.addr(rs1, imm))))
        } else {
            None
        },
        Inst::LHU { rd, rs1, imm } => if m.in_bounds(m.addr(rs1, imm), 2) {
            Some(spec_set(m, rd, m.load_u16(m.addr(rs1, imm))))
        } else {
            None
        },
        Inst::ADDI { rd, rs1, imm } => Some(spec_set(m, rd, m.reg(rs1).wrapping_add(imm as u32))),
        Inst::SLTI { rd, rs1, imm } => Some(spec_set(m, rd, spec_slt(m.reg(rs1), imm as u32))),
        Inst::SLTIU { rd, rs1, imm } => Some(spec_set(m, rd, spec_sltu(m.reg(rs1), imm as u32))),
        Inst::XORI { rd, rs1, imm } => Some(spec_set(m, rd, m.reg(rs1) ^ (imm as u32))),
        Inst::ORI { rd, rs1, imm } => Some(spec_set(m, rd, m.reg(rs1) | (imm as u32))),
        Inst::ANDI { rd, rs1, imm } => Some(spec_set(m, rd, m.reg(rs1) & (imm as u32))),
        Inst::SLLI { rd, rs1, shamt } => Some(spec_set(m, rd, spec_sll(m.reg(rs1), shamt))),
        Inst::SRLI { rd, rs1, shamt } => Some(spec_set(m, rd, spec_srl(m.reg(rs1), shamt))),
        Inst::SRAI { rd, rs1, shamt } => Some(spec_set(m, rd, spec_sra(m.reg(rs1), shamt))),
        Inst::JALR { rd, rs1, imm } => Some(
            m.with_reg(rd, m.next_pc()).with_pc(m.addr(rs1, imm) & 0xffff_fffe),
        ),
        Inst::SB { rs1, rs2, imm } => if m.in_bounds(m.addr(rs1, imm), 1) {
            Some(m.store_u8(m.addr(rs1, imm), m.reg(rs2)).with_pc(m.next_pc()))
        } else {
            None
        },
        Inst::SH { rs1, rs2, imm } => if m.in_bounds(m.addr(rs1, imm), 2) {
            Some(m.store_u16(m.addr(rs1, imm), m.reg(rs2)).with_pc(m.next_pc()))
        } else {
            None
        },
        Inst::SW { rs1, rs2, imm } => if m.in_bounds(m.addr(rs1, imm), 4) {
            Some(m.store_u32(m.addr(rs1, imm), m.reg(rs2)).with_pc(m.next_pc()))
        } else {
            None
        },
        Inst::ADD { rd, rs1, rs2 } => Some(spec_set(m, rd, m.reg(rs1).wrapping_add(m.reg(rs2)))),
        Inst::SUB { rd, rs1, rs2 } => Some(spec_set(m, rd, m.reg(rs1).wrapping_sub(m.reg(rs2)))),
        Inst::SLL { rd, rs1, rs2 } => Some(spec_set(m, rd, spec_sll(m.reg(rs1), m.reg(rs2)))),
        Inst::SLT { rd, rs1, rs2 } => Some(spec_set(m, rd, spec_slt(m.reg(rs1), m.reg(rs2)))),
        Inst::SLTU { rd, rs1, rs2 } => Some(spec_set(m, rd, spec_sltu(m.reg(rs1), m.reg(rs2)))),
        Inst::XOR { rd, rs1, rs2 } => Some(spec_set(m, rd, m.reg(rs1) ^ m.reg(rs2))),
        Inst::SRL { rd, rs1, rs2 } => Some(spec_set(m, rd, spec_srl(m.reg(rs1), m.reg(rs2)))),
        Inst::SRA { rd, rs1, rs2 } => Some(spec_set(m, rd, spec_sra(m.reg(rs1), m.reg(rs2)))),
        Inst::OR { rd, rs1, rs2 } => Some(spec_set(m, rd, m.reg(rs1) | m.reg(rs2))),
        Inst::AND { rd, rs1, rs2 } => Some(spec_set(m, rd, m.reg(rs1) & m.reg(rs2))),
        Inst::MUL { rd, rs1, rs2 } => Some(spec_set(m, rd, m.reg(rs1).wrapping_mul(m.reg(rs2)))),
        Inst::MULH { rd, rs1, rs2 } => Some(spec_set(m, rd, spec_mulh(m.reg(rs1), m.reg(rs2)))),
        Inst::MULHSU { rd, rs1, rs2 } => Some(
            spec_set(m, rd, spec_mulhsu(m.reg(rs1), m.reg(rs2))),
        ),
        Inst::MULHU { rd, rs1, rs2 } => Some(spec_set(m, rd, spec_mulhu(m.reg(rs1), m.reg(rs2)))),
        Inst::DIV { rd, rs1, rs2 } => Some(spec_set(m, rd, spec_div(m.reg(rs1), m.reg(rs2)))),
        Inst::DIVU { rd, rs1, rs2 } => Some(spec_set(m, rd, spec_divu(m.reg(rs1), m.reg(rs2)))),
        Inst::REM { rd, rs1, rs2 } => Some(spec_set(m, rd, spec_rem(m.reg(rs1), m.reg(rs2)))),
        Inst::REMU { rd, rs1, rs2 } => Some(spec_set(m, rd, spec_remu(m.reg(rs1), m.reg(rs2)))),
        Inst::LUI { rd, imm } => Some(spec_set(m, rd, (imm as u32) << 12)),
        Inst::AUIPC { rd, imm } => Some(spec_set(m, rd, m.pc.wrapping_add((imm as u32) << 12))),
        Inst::JAL { rd, imm } => Some(
            m.with_reg(rd, m.next_pc()).with_pc(m.pc.wrapping_add(imm as u32)),
        ),
        Inst::FENCE { .. } | Inst::FENCE_I { .. } => Some(m.with_pc(m.next_pc())),
        Inst::ECALL => Some(m.with_pc(m.next_pc())),
    }
}

/// A system call requested by `ECALL`, read from `a7` and the argument
/// registers. The host carries it out.
#[derive(Clone, Copy, Debug, PartialEq, Eq)]
pub enum Syscall {
    /// `a7 = 1`: print `a0` as a signed decimal.
    PrintInt(i32),
    /// `a7 = 4`: print the NUL-terminated string at address `a0`.
    PrintString(u32),
    /// `a7 = 5`: read a decimal line; the value goes to `a0`.
    ReadInt,
    /// `a7 = 10` (status 0) or `a7 = 93` (status `a0`): end the program.
    Exit(i32),
    /// `a7 = 64`: write `len` bytes from `addr` to file descriptor `fd`; the
    /// count written, or -1, goes to `a0`.
    Write { fd: u32, addr: u32, len: u32 },
    /// Any other `a7`: nothing is done.
    Unknown(u32),
}

/// The system call that `ECALL` requests in state `m`.
pub open spec fn spec_syscall(m: Machine) -> Syscall {
    let a7 = m.reg(Reg::a7);
    if a7 == 1 {
        Syscall::PrintInt(m.reg(Reg::a0) as i32)
    } else if a7 == 4 {
        Syscall::PrintString(m.reg(Reg::a0))
    } else if a7 == 5 {
        Syscall::ReadInt
    } else if a7 == 10 {
        Syscall::Exit(0)
    } else if a7 == 64 {
        Syscall::Write { fd: m.reg(Reg::a0), addr: m.reg(Reg::a1), len: m.reg(Reg::a2) }
    } else if a7 == 93 {
        Syscall::Exit(m.reg(Reg::a0) as i32)
    } else {
        Syscall::Unknown(a7)
    }
}

/// The instruction under the program counter, if the PC lies in `text`
/// (the half-open range of `.text`) and the word there decodes.
pub open spec fn spec_fetch(m: Machine, text: Option<(usize, usize)>) -> Result<Inst, EmulatorError> {
    match text {
        Some((start, end)) if start <= m.pc < end => if m.in_bounds(m.pc, 4) {
            match Inst::spec_decode(m.load_u32(m.pc)) {
                Ok(i) => Ok(i),
                Err(e) => Err(EmulatorError::InstructionDecode(e)),
            }
        } else {
            Err(EmulatorError::Execution(ExecError::MemoryAccess(m.pc)))
        },
        _ => Err(EmulatorError::Execution(ExecError::PcOutsideText(m.pc))),
    }
}

/// One fetch/decode/execute cycle: the next state, and either the system
/// call an `ECALL` asks for, nothing, or the error that stops execution (the
/// state is then unchanged).
pub open spec fn spec_step(m: Machine, text: Option<(usize, usize)>) -> (
    Machine,
    Result<Option<Syscall>, EmulatorError>,
) {
    match spec_fetch(m, text) {
        Err(e) => (m, Err(e)),
        Ok(i) => match spec_execute(m, i) {
            None => (m, Err(EmulatorError::Execution(ExecError::MemoryAccess(m.pc)))),
            Some(next) => (
                next,
                Ok(
                    if i is ECALL {
                        Some(spec_syscall(m))
                    } else {
                        None
                    },
                ),
            ),
        },
    }
}

/// Up to `fuel` cycles, stopping early at a system call or an error. `Ok(None)`
/// means the fuel ran out.
pub open spec fn spec_run(m: Machine, text: Option<(usize, usize)>, fuel: nat) -> (
    Machine,
    Result<Option<Syscall>, EmulatorError>,
)
    decreases fuel,
{
    if fuel == 0 {
        (m, Ok(None))
    } else {
        let (next, r) = spec_step(m, text);
        match r {
            Ok(None) => spec_run(next, text, (fuel - 1) as nat),
            _ => (next, r),
        }
    }
}

/// `m1` and `m2` differ at most in the backing cell of `zero`.
pub open spec fn same_but_zero(m1: Machine, m2: Machine) -> bool {
    &&& m1.wf()
    &&& m2.wf()
    &&& m1.pc == m2.pc
    &&& m1.mem == m2.mem
    &&& forall|i: int| 1 <= i < 32 ==> m1.regs[i] == m2.regs[i]
}

/// States that differ only in the cell of `zero` read every register alike,
/// and stay so under the same register write, PC update or store.
proof fn lemma_same_but_zero_ops(m1: Machine, m2: Machine)
    requires
        same_but_zero(m1, m2),
    ensures
        forall|r: Reg| #[trigger] m1.reg(r) == m2.reg(r),
        forall|r: Reg, v: u32| same_but_zero(#[trigger] m1.with_reg(r, v), m2.with_reg(r, v)),
        forall|pc: u32| same_but_zero(#[trigger] m1.with_pc(pc), m2.with_pc(pc)),
        forall|a: u32, v: u32| same_but_zero(#[trigger] m1.store_u8(a, v), m2.store_u8(a, v)),
        forall|a: u32, v: u32| same_but_zero(#[trigger] m1.store_u16(a, v), m2.store_u16(a, v)),
        forall|a: u32, v: u32| same_but_zero(#[trigger] m1.store_u32(a, v), m2.store_u32(a, v)),
{
    assert forall|r: Reg| #[trigger] m1.reg(r) == m2.reg(r) by {
        Reg::lemma_index_round_trip(r, 0);
        if r != Reg::zero {
            assert(r.spec_index() != 0);
        }
    }
    assert forall|r: Reg, v: u32| same_but_zero(#[trigger] m1.with_reg(r, v), m2.with_reg(r, v)) by {
        Reg::lemma_index_round_trip(r, 0);
    }
}

/// [`lemma_execute_same_but_zero`] for one group of instructions.
proof fn lemma_execute_same_but_zero_control(m1: Machine, m2: Machine, i: Inst)
    requires
        same_but_zero(m1, m2),
        i is BEQ || i is BNE || i is BLT || i is BGE || i is BLTU || i is BGEU || i is JAL || i is JALR || i is LUI || i is AUIPC || i is ECALL || i is FENCE || i is FENCE_I,
    ensures
        spec_execute(m1, i) is Some <==> spec_execute(m2, i) is Some,
        spec_execute(m1, i) is Some ==> same_but_zero(
            spec_execute(m1, i)->Some_0,
            spec_execute(m2, i)->Some_0,
        ),
{
    lemma_same_but_zero_ops(m1, m2);
}

/// [`lemma_execute_same_but_zero`] for one group of instructions.
proof fn lemma_execute_same_but_zero_load(m1: Machine, m2: Machine, i: Inst)
    requires
        same_but_zero(m1, m2),
        i is LB || i is LH || i is LW || i is LBU || i is LHU,
    ensures
        spec_execute(m1, i) is Some <==> spec_execute(m2, i) is Some,
        spec_execute(m1, i) is Some ==> same_but_zero(
            spec_execute(m1, i)->Some_0,
            spec_execute(m2, i)->Some_0,
        ),
{
    lemma_same_but_zero_ops(m1, m2);
}

/// [`lemma_execute_same_but_zero`] for one group of instructions.
proof fn lemma_execute_same_but_zero_store(m1: Machine, m2: Machine, i: Inst)
    requires
        same_but_zero(m1, m2),
        i is SB || i is SH || i is SW,
    ensures
        spec_execute(m1, i) is Some <==> spec_execute(m2, i) is Some,
        spec_execute(m1, i) is Some ==> same_but_zero(
            spec_execute(m1, i)->Some_0,
            spec_execute(m2, i)->Some_0,
        ),
{
    lemma_same_but_zero_ops(m1, m2);
}

/// [`lemma_execute_same_but_zero`] for one group of instructions.
proof fn lemma_execute_same_but_zero_imm(m1: Machine, m2: Machine, i: Inst)
    requires
        same_but_zero(m1, m2),
        i is ADDI || i is SLTI || i is SLTIU || i is XORI || i is ORI || i is ANDI || i is SLLI || i is SRLI || i is SRAI,
    ensures
        spec_execute(m1, i) is Some <==> spec_execute(m2, i) is Some,
        spec_execute(m1, i) is Some ==> same_but_zero(
            spec_execute(m1, i)->Some_0,
            spec_execute(m2, i)->Some_0,
        ),
{
    lemma_same_but_zero_ops(m1, m2);
}

/// [`lemma_execute_same_but_zero`] for one group of instructions.
proof fn lemma_execute_same_but_zero_reg(m1: Machine, m2: Machine, i: Inst)
    requires
        same_but_zero(m1, m2),
        i is ADD || i is SUB || i is SLL || i is SLT || i is SLTU || i is XOR || i is SRL || i is SRA || i is OR || i is AND,
    ensures
        spec_execute(m1, i) is Some <==> spec_execute(m2, i) is Some,
        spec_execute(m1, i) is Some ==> same_but_zero(
            spec_execute(m1, i)->Some_0,
            spec_execute(m2, i)->Some_0,
        ),
{
    lemma_same_but_zero_ops(m1, m2);
}

/// [`lemma_execute_same_but_zero`] for one group of instructions.
proof fn lemma_execute_same_but_zero_muldiv(m1: Machine, m2: Machine, i: Inst)
    requires
        same_but_zero(m1, m2),
        i is MUL || i is MULH || i is MULHSU || i is MULHU || i is DIV || i is DIVU || i is REM || i is REMU,
    ensures
        spec_execute(m1, i) is Some <==> spec_execute(m2, i) is Some,
        spec_execute(m1, i) is Some ==> same_but_zero(
            spec_execute(m1, i)->Some_0,
            spec_execute(m2, i)->Some_0,
        ),
{
    lemma_same_but_zero_ops(m1, m2);
}

/// The same instruction on states that differ only in the cell of `zero`
/// leads to states that again differ only there, or fails on both.
proof fn lemma_execute_same_but_zero(m1: Machine, m2: Machine, i: Inst)
    requires
        same_but_zero(m1, m2),
    ensures
        spec_execute(m1, i) is Some <==> spec_execute(m2, i) is Some,
        spec_execute(m1, i) is Some ==> same_but_zero(
            spec_execute(m1, i)->Some_0,
            spec_execute(m2, i)->Some_0,
        ),
{
    match i {
        Inst::BEQ { .. } | Inst::BNE { .. } | Inst::BLT { .. } | Inst::BGE { .. } | Inst::BLTU { .. } | Inst::BGEU { .. } | Inst::JAL { .. } | Inst::JALR { .. } | Inst::LUI { .. } | Inst::AUIPC { .. } | Inst::ECALL | Inst::FENCE { .. } | Inst::FENCE_I { .. } => lemma_execute_same_but_zero_control(m1, m2, i),
        Inst::LB { .. } | Inst::LH { .. } | Inst::LW { .. } | Inst::LBU { .. } | Inst::LHU { .. } => lemma_execute_same_but_zero_load(m1, m2, i),
        Inst::SB { .. } | Inst::SH { .. } | Inst::SW { .. } => lemma_execute_same_but_zero_store(m1, m2, i),
        Inst::ADDI { .. } | Inst::SLTI { .. } | Inst::SLTIU { .. } | Inst::XORI { .. } | Inst::ORI { .. } | Inst::ANDI { .. } | Inst::SLLI { .. } | Inst::SRLI { .. } | Inst::SRAI { .. } => lemma_execute_same_but_zero_imm(m1, m2, i),
        Inst::ADD { .. } | Inst::SUB { .. } | Inst::SLL { .. } | Inst::SLT { .. } | Inst::SLTU { .. } | Inst::XOR { .. } | Inst::SRL { .. } | Inst::SRA { .. } | Inst::OR { .. } | Inst::AND { .. } => lemma_execute_same_but_zero_reg(m1, m2, i),
        Inst::MUL { .. } | Inst::MULH { .. } | Inst::MULHSU { .. } | Inst::MULHU { .. } | Inst::DIV { .. } | Inst::DIVU { .. } | Inst::REM { .. } | Inst::REMU { .. } => lemma_execute_same_but_zero_muldiv(m1, m2, i),
    }
}

/// Writes to `zero` are unobservable: runs from two states that differ only
/// in the backing cell of `zero` report the same outcome and end in states
/// that again differ only there.
pub proof fn lemma_zero_unobservable(
    m1: Machine,
    m2: Machine,
    text: Option<(usize, usize)>,
    fuel: nat,
)
    requires
        same_but_zero(m1, m2),
    ensures
        spec_run(m1, text, fuel).1 == spec_run(m2, text, fuel).1,
        same_but_zero(spec_run(m1, text, fuel).0, spec_run(m2, text, fuel).0),
    decreases fuel,
{
    if fuel > 0 {
        lemma_same_but_zero_ops(m1, m2);
        if let Ok(i) = spec_fetch(m1, text) {
            lemma_execute_same_but_zero(m1, m2, i);
        }
        let (n1, r1) = spec_step(m1, text);
        let (n2, r2) = spec_step(m2, text);
        assert(r1 == r2);
        assert(same_but_zero(n1, n2));
        if r1 == Ok::<Option<Syscall>, EmulatorError>(None) {
            lemma_zero_unobservable(n1, n2, text, (fuel - 1) as nat);
        }
    }
}

/// Division corner cases: any `/ 0` gives all ones, any `% 0` gives the
/// dividend, and the overflowing `INT_MIN / -1` gives `INT_MIN` with
/// remainder 0.
pub proof fn lemma_division_corner_cases(a: u32)
    ensures
        spec_div(a, 0) == 0xffff_ffff,
        spec_divu(a, 0) == 0xffff_ffff,
        spec_rem(a, 0) == a,
        spec_remu(a, 0) == a,
        spec_div(0x8000_0000, 0xffff_ffff) == 0x8000_0000,
        spec_rem(0x8000_0000, 0xffff_ffff) == 0,
{
    assert((0x8000_0000u32 as i32) == i32::MIN) by (bit_vector);
    assert((0xffff_ffffu32 as i32) == -1i32) by (bit_vector);
}

/// A `JALR` always lands on an even address: the low bit of the target is
/// cleared.
pub proof fn lemma_jalr_target_even(m: Machine, rd: Reg, rs1: Reg, imm: i32)
    ensures
        spec_execute(m, Inst::JALR { rd, rs1, imm })->Some_0.pc & 1 == 0,
{
    let t = m.addr(rs1, imm);
    assert((t & 0xffff_fffe) & 1 == 0) by (bit_vector);
}

} // verus!
