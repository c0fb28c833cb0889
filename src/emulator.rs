//! The emulator: machine state in memory, the per-instruction handlers, and
//! the fetch/decode/execute loop.
use vstd::prelude::*;

use crate::error::{EmulatorError, ExecError};
use crate::inst::{sext, spec_sext, Inst};
use crate::machine::{
    spec_branch, spec_execute, spec_fetch, spec_run, spec_set, spec_step, spec_syscall, Machine, Syscall,
};
use crate::reg::Reg;

verus! {

/// Memory allocated when no size is given: one MiB.
pub const DEFAULT_MEMORY_SIZE: usize = 1 << 20;

/// A loaded section: its name and the half-open byte range it occupies.
#[derive(Clone, Debug, PartialEq, Eq)]
pub struct SectionRange {
    pub name: String,
    pub start: usize,
    pub end: usize,
}

/// An entry of the symbol table.
#[derive(Clone, Debug, PartialEq, Eq)]
pub struct Symbol {
    pub name: String,
    pub value: usize,
}

/// Representation of a RISC-V machine.
pub struct Emulator {
    /// Program counter
    pc: u32,
    /// Registers, one cell each; the cell of `zero` is never read
    reg: Vec<u32>,
    /// Memory
    mem: Vec<u8>,
    /// Sections loaded into memory, in load order
    sections: Vec<SectionRange>,
    /// Symbol table, in load order
    symtab: Vec<Symbol>,
    /// Whether the start-up (entry point, `gp`, `sp`) has been done
    started: bool,
}

impl Emulator {
    /// One register cell per register.
    pub open spec fn wf(&self) -> bool {
        self.machine().wf()
    }

    /// The architectural state.
    pub closed spec fn machine(&self) -> Machine {
        Machine { pc: self.pc, regs: self.reg@, mem: self.mem@ }
    }

    /// The loaded sections.
    pub closed spec fn sections(&self) -> Seq<SectionRange> {
        self.sections@
    }

    /// The symbol table.
    pub closed spec fn symbols(&self) -> Seq<Symbol> {
        self.symtab@
    }

    /// Whether the start-up has been done, by [Emulator::init] or by the
    /// first [Emulator::step] or [Emulator::run].
    pub closed spec fn started(&self) -> bool {
        self.started
    }

    /// The state execution proceeds from: the current one once started, else
    /// the start-up state; `EntryPoint` when the program has neither `_start`
    /// nor `.text`.
    pub open spec fn spec_launch(&self) -> Result<Machine, EmulatorError> {
        match spec_entry(self.sections(), self.symbols()) {
            None => Err(EmulatorError::EntryPoint),
            Some(entry) => Ok(
                if self.started() {
                    self.machine()
                } else {
                    spec_start(self.machine(), self.symbols(), entry)
                },
            ),
        }
    }

    /// `self` is `before` after `inst` was carried out, as `r` reports.
    spec fn executed(self, before: Emulator, inst: Inst, r: Result<(), ExecError>) -> bool {
        &&& self.wf()
        &&& self.sections@ == before.sections@
        &&& self.symtab@ == before.symtab@
        &&& self.started == before.started
        &&& match spec_execute(before.machine(), inst) {
            Some(m) => r is Ok && self.machine() == m,
            None => r == Err::<(), ExecError>(ExecError::MemoryAccess(before.pc))
                && self.machine() == before.machine(),
        }
    }

    /// Allocates a new Emulator with `alloc` bytes of memory, or
    /// [DEFAULT_MEMORY_SIZE] bytes if `None` is provided. Registers, PC and
    /// memory start at zero; nothing is loaded.
    pub fn new(alloc: Option<usize>) -> (em: Emulator)
        ensures
            em.wf(),
            em.machine().pc == 0,
            em.machine().regs == Seq::new(32, |_i: int| 0u32),
            em.machine().mem == Seq::new(
                match alloc {
                    Some(n) => n,
                    None => DEFAULT_MEMORY_SIZE,
                } as nat,
                |_i: int| 0u8,
            ),
            em.sections().len() == 0,
            em.symbols().len() == 0,
            !em.started(),
    {
        let n = match alloc {
            Some(n) => n,
            None => DEFAULT_MEMORY_SIZE,
        };
        let mem = vec![0u8; n];
        let reg = vec![0u32; 32];
        let em = Emulator {
            pc: 0,
            reg,
            mem,
            sections: Vec::new(),
            symtab: Vec::new(),
            started: false,
        };
        assert(em.machine().regs =~= Seq::new(32, |_i: int| 0u32));
        assert(em.machine().mem =~= Seq::new(n as nat, |_i: int| 0u8));
        em
    }

    /// The program counter.
    pub fn pc(&self) -> (r: u32)
        ensures
            r == self.machine().pc,
    {
        self.pc
    }

    /// The size of memory in bytes.
    pub fn mem_len(&self) -> (r: usize)
        ensures
            r == self.machine().mem.len(),
    {
        self.mem.len()
    }

    /// The byte at `addr`.
    pub fn byte(&self, addr: usize) -> (r: u8)
        requires
            addr < self.machine().mem.len(),
        ensures
            r == self.machine().mem[addr as int],
    {
        self.mem[addr]
    }

    /// The loaded sections, in load order.
    pub fn section_list(&self) -> (r: &Vec<SectionRange>)
        ensures
            r@ == self.sections(),
    {
        &self.sections
    }

    /// The symbol table, in load order.
    pub fn symbol_list(&self) -> (r: &Vec<Symbol>)
        ensures
            r@ == self.symbols(),
    {
        &self.symtab
    }

    /// The value of register `r`; `zero` always reads as 0.
    pub fn reg(&self, r: Reg) -> (v: u32)
        requires
            self.wf(),
        ensures
            v == self.machine().reg(r),
    {
        if r == Reg::zero {
            0
        } else {
            self.reg[r.index() as usize]
        }
    }

    /// Writes `v` to register `r`; a write to `zero` is dropped.
    pub fn set_reg(&mut self, r: Reg, v: u32)
        requires
            old(self).wf(),
        ensures
            final(self).wf(),
            final(self).machine() == old(self).machine().with_reg(r, v),
            final(self).sections() == old(self).sections(),
            final(self).symbols() == old(self).symbols(),
            final(self).started() == old(self).started(),
    {
        if r != Reg::zero {
            let i = r.index() as usize;
            self.reg[i] = v;
        }
        assert(self.machine() =~= old(self).machine().with_reg(r, v));
    }

    /// `rd <- v`, then on to the next instruction.
    fn retire(&mut self, rd: Reg, v: u32)
        requires
            old(self).wf(),
        ensures
            final(self).wf(),
            final(self).machine() == spec_set(old(self).machine(), rd, v),
            final(self).sections@ == old(self).sections@,
            final(self).symtab@ == old(self).symtab@,
            final(self).started == old(self).started,
    {
        self.set_reg(rd, v);
        self.pc = self.pc.wrapping_add(4);
    }

    /// Sets the PC to `target` if `taken`, else moves to the next instruction.
    fn branch(&mut self, taken: bool, imm: i32)
        requires
            old(self).wf(),
        ensures
            final(self).wf(),
            final(self).machine() == spec_branch(old(self).machine(), taken, imm),
            final(self).sections@ == old(self).sections@,
            final(self).symtab@ == old(self).symtab@,
            final(self).started == old(self).started,
    {
        if taken {
            self.pc = self.pc.wrapping_add(imm as u32);
        } else {
            self.pc = self.pc.wrapping_add(4);
        }
    }

    /// Whether `n` bytes from `addr` on lie in memory.
    fn fits(&self, addr: u32, n: usize) -> (r: bool)
        requires
            1 <= n <= 4,
        ensures
            r == self.machine().in_bounds(addr, n as nat),
    {
        let a = addr as usize;
        assert(a == addr);
        a < self.mem.len() && self.mem.len() - a >= n
    }

    /// The little-endian word at `addr`.
    fn load_u32(&self, addr: u32) -> (r: u32)
        requires
            self.machine().in_bounds(addr, 4),
        ensures
            r == self.machine().load_u32(addr),
    {
        let a = addr as usize;
        assert(a == addr);
        assert(a + 1 < self.mem.len());
        (self.mem[a] as u32) | ((self.mem[a + 1] as u32) << 8) | ((self.mem[a + 2] as u32) << 16)
            | ((self.mem[a + 3] as u32) << 24)
    }

    /// The little-endian halfword at `addr`.
    fn load_u16(&self, addr: u32) -> (r: u32)
        requires
            self.machine().in_bounds(addr, 2),
        ensures
            r == self.machine().load_u16(addr),
    {
        let a = addr as usize;
        assert(a == addr);
        assert(a + 1 < self.mem.len());
        (self.mem[a] as u32) | ((self.mem[a + 1] as u32) << 8)
    }
}

/// A shift amount masked to five bits is below 32.
proof fn lemma_low_five_bits(b: u32)
    by (bit_vector)
    ensures
        b & 0x1f < 32,
{
}

/// A signed 32-bit value times a signed or unsigned 32-bit value fits in `i64`.
proof fn lemma_signed_product_fits(x: int, y: int)
    requires
        -0x8000_0000 <= x < 0x8000_0000,
        -0x8000_0000 <= y < 0x1_0000_0000,
    ensures
        -0x8000_0000_0000_0000 < x * y < 0x8000_0000_0000_0000,
{
    assert(-0x8000_0000_0000_0000 < x * y < 0x8000_0000_0000_0000) by (nonlinear_arith)
        requires
            -0x8000_0000 <= x < 0x8000_0000,
            -0x8000_0000 <= y < 0x1_0000_0000,
    ;
}

/// The product of two unsigned 32-bit values fits in `u64`.
proof fn lemma_unsigned_product_fits(x: int, y: int)
    requires
        0 <= x < 0x1_0000_0000,
        0 <= y < 0x1_0000_0000,
    ensures
        0 <= x * y < 0x1_0000_0000_0000_0000,
{
    assert(0 <= x * y < 0x1_0000_0000_0000_0000) by (nonlinear_arith)
        requires
            0 <= x < 0x1_0000_0000,
            0 <= y < 0x1_0000_0000,
    ;
}

// The handlers, one per instruction. Each leaves the machine as
// `spec_execute` says.
impl Emulator {
    /// `rd <- rs1 + rs2`, wrapping.
    fn add(&mut self, rd: Reg, rs1: Reg, rs2: Reg)
        requires
            old(self).wf(),
        ensures
            final(self).executed(*old(self), (Inst::ADD { rd, rs1, rs2 }), Ok(())),
    {
        let a = self.reg(rs1);
        let b = self.reg(rs2);
        let v = a.wrapping_add(b);
        self.retire(rd, v);
    }

    /// `rd <- rs1 - rs2`, wrapping.
    fn sub(&mut self, rd: Reg, rs1: Reg, rs2: Reg)
        requires
            old(self).wf(),
        ensures
            final(self).executed(*old(self), (Inst::SUB { rd, rs1, rs2 }), Ok(())),
    {
        let a = self.reg(rs1);
        let b = self.reg(rs2);
        let v = a.wrapping_sub(b);
        self.retire(rd, v);
    }

    /// `rd <- rs1 << rs2[4:0]`.
    fn sll(&mut self, rd: Reg, rs1: Reg, rs2: Reg)
        requires
            old(self).wf(),
        ensures
            final(self).executed(*old(self), (Inst::SLL { rd, rs1, rs2 }), Ok(())),
    {
        let a = self.reg(rs1);
        let b = self.reg(rs2);
        proof {
            lemma_low_five_bits(b);
        }
        let v = a << (b & 0x1f);
        self.retire(rd, v);
    }

    /// `rd <- rs1 < rs2`, signed.
    fn slt(&mut self, rd: Reg, rs1: Reg, rs2: Reg)
        requires
            old(self).wf(),
        ensures
            final(self).executed(*old(self), (Inst::SLT { rd, rs1, rs2 }), Ok(())),
    {
        let a = self.reg(rs1);
        let b = self.reg(rs2);
        let v = if (a as i32) < (b as i32) {
            1
        } else {
            0
        };
        self.retire(rd, v);
    }

    /// `rd <- rs1 < rs2`, unsigned.
    fn sltu(&mut self, rd: Reg, rs1: Reg, rs2: Reg)
        requires
            old(self).wf(),
        ensures
            final(self).executed(*old(self), (Inst::SLTU { rd, rs1, rs2 }), Ok(())),
    {
        let a = self.reg(rs1);
        let b = self.reg(rs2);
        let v = if a < b {
            1
        } else {
            0
        };
        self.retire(rd, v);
    }

    /// `rd <- rs1 ^ rs2`.
    fn xor(&mut self, rd: Reg, rs1: Reg, rs2: Reg)
        requires
            old(self).wf(),
        ensures
            final(self).executed(*old(self), (Inst::XOR { rd, rs1, rs2 }), Ok(())),
    {
        let a = self.reg(rs1);
        let b = self.reg(rs2);
        let v = a ^ b;
        self.retire(rd, v);
    }

    /// `rd <- rs1 >> rs2[4:0]`, logical.
    fn srl(&mut self, rd: Reg, rs1: Reg, rs2: Reg)
        requires
            old(self).wf(),
        ensures
            final(self).executed(*old(self), (Inst::SRL { rd, rs1, rs2 }), Ok(())),
    {
        let a = self.reg(rs1);
        let b = self.reg(rs2);
        proof {
            lemma_low_five_bits(b);
        }
        let v = a >> (b & 0x1f);
        self.retire(rd, v);
    }

    /// `rd <- rs1 >> rs2[4:0]`, arithmetic.
    fn sra(&mut self, rd: Reg, rs1: Reg, rs2: Reg)
        requires
            old(self).wf(),
        ensures
            final(self).executed(*old(self), (Inst::SRA { rd, rs1, rs2 }), Ok(())),
    {
        let a = self.reg(rs1);
        let b = self.reg(rs2);
        proof {
            lemma_low_five_bits(b);
        }
        let v = ((a as i32) >> (b & 0x1f)) as u32;
        self.retire(rd, v);
    }

    /// `rd <- rs1 | rs2`.
    fn or(&mut self, rd: Reg, rs1: Reg, rs2: Reg)
        requires
            old(self).wf(),
        ensures
            final(self).executed(*old(self), (Inst::OR { rd, rs1, rs2 }), Ok(())),
    {
        let a = self.reg(rs1);
        let b = self.reg(rs2);
        let v = a | b;
        self.retire(rd, v);
    }

    /// `rd <- rs1 & rs2`.
    fn and(&mut self, rd: Reg, rs1: Reg, rs2: Reg)
        requires
            old(self).wf(),
        ensures
            final(self).executed(*old(self), (Inst::AND { rd, rs1, rs2 }), Ok(())),
    {
        let a = self.reg(rs1);
        let b = self.reg(rs2);
        let v = a & b;
        self.retire(rd, v);
    }

    /// `rd <- low word of rs1 * rs2`.
    fn mul(&mut self, rd: Reg, rs1: Reg, rs2: Reg)
        requires
            old(self).wf(),
        ensures
            final(self).executed(*old(self), (Inst::MUL { rd, rs1, rs2 }), Ok(())),
    {
        let a = self.reg(rs1);
        let b = self.reg(rs2);
        let v = a.wrapping_mul(b);
        self.retire(rd, v);
    }

    /// `rd <- high word of rs1 * rs2`, both signed.
    fn mulh(&mut self, rd: Reg, rs1: Reg, rs2: Reg)
        requires
            old(self).wf(),
        ensures
            final(self).executed(*old(self), (Inst::MULH { rd, rs1, rs2 }), Ok(())),
    {
        let a = self.reg(rs1);
        let b = self.reg(rs2);
        let v = {
            let x = a as i32 as i64;
            let y = b as i32 as i64;
            proof {
                lemma_signed_product_fits(x as int, y as int);
            }
            let p: i64 = x * y;
            (p >> 32u32) as u32
        };
        self.retire(rd, v);
    }

    /// `rd <- high word of rs1 * rs2`, `rs1` signed and `rs2` unsigned.
    fn mulhsu(&mut self, rd: Reg, rs1: Reg, rs2: Reg)
        requires
            old(self).wf(),
        ensures
            final(self).executed(*old(self), (Inst::MULHSU { rd, rs1, rs2 }), Ok(())),
    {
        let a = self.reg(rs1);
        let b = self.reg(rs2);
        let v = {
            let x = a as i32 as i64;
            let y = b as i64;
            proof {
                lemma_signed_product_fits(x as int, y as int);
            }
            let p: i64 = x * y;
            (p >> 32u32) as u32
        };
        self.retire(rd, v);
    }

    /// `rd <- high word of rs1 * rs2`, both unsigned.
    fn mulhu(&mut self, rd: Reg, rs1: Reg, rs2: Reg)
        requires
            old(self).wf(),
        ensures
            final(self).executed(*old(self), (Inst::MULHU { rd, rs1, rs2 }), Ok(())),
    {
        let a = self.reg(rs1);
        let b = self.reg(rs2);
        let v = {
            let x = a as u64;
            let y = b as u64;
            proof {
                lemma_unsigned_product_fits(x as int, y as int);
            }
            let p: u64 = x * y;
            (p >> 32u32) as u32
        };
        self.retire(rd, v);
    }

    /// `rd <- rs1 / rs2`, signed, rounding toward zero.
    fn div(&mut self, rd: Reg, rs1: Reg, rs2: Reg)
        requires
            old(self).wf(),
        ensures
            final(self).executed(*old(self), (Inst::DIV { rd, rs1, rs2 }), Ok(())),
    {
        let a = self.reg(rs1);
        let b = self.reg(rs2);
        let v = if b == 0 {
            0xffff_ffff
        } else {
            match (a as i32).checked_div(b as i32) {
                Some(q) => q as u32,
                None => a,
            }
        };
        self.retire(rd, v);
    }

    /// `rd <- rs1 / rs2`, unsigned.
    fn divu(&mut self, rd: Reg, rs1: Reg, rs2: Reg)
        requires
            old(self).wf(),
        ensures
            final(self).executed(*old(self), (Inst::DIVU { rd, rs1, rs2 }), Ok(())),
    {
        let a = self.reg(rs1);
        let b = self.reg(rs2);
        let v = if b == 0 {
            0xffff_ffff
        } else {
            a / b
        };
        self.retire(rd, v);
    }

    /// `rd <- rs1 % rs2`, signed.
    fn rem(&mut self, rd: Reg, rs1: Reg, rs2: Reg)
        requires
            old(self).wf(),
        ensures
            final(self).executed(*old(self), (Inst::REM { rd, rs1, rs2 }), Ok(())),
    {
        let a = self.reg(rs1);
        let b = self.reg(rs2);
        let v = if b == 0 {
            a
        } else {
            match (a as i32).checked_rem(b as i32) {
                Some(q) => q as u32,
                None => 0,
            }
        };
        self.retire(rd, v);
    }

    /// `rd <- rs1 % rs2`, unsigned.
    fn remu(&mut self, rd: Reg, rs1: Reg, rs2: Reg)
        requires
            old(self).wf(),
        ensures
            final(self).executed(*old(self), (Inst::REMU { rd, rs1, rs2 }), Ok(())),
    {
        let a = self.reg(rs1);
        let b = self.reg(rs2);
        let v = if b == 0 {
            a
        } else {
            a % b
        };
        self.retire(rd, v);
    }

    /// `rd <- rs1 + imm`, wrapping.
    fn addi(&mut self, rd: Reg, rs1: Reg, imm: i32)
        requires
            old(self).wf(),
        ensures
            final(self).executed(*old(self), (Inst::ADDI { rd, rs1, imm }), Ok(())),
    {
        let a = self.reg(rs1);
        let v = a.wrapping_add(imm as u32);
        self.retire(rd, v);
    }

    /// `rd <- rs1 < imm`, signed.
    fn slti(&mut self, rd: Reg, rs1: Reg, imm: i32)
        requires
            old(self).wf(),
        ensures
            final(self).executed(*old(self), (Inst::SLTI { rd, rs1, imm }), Ok(())),
    {
        let a = self.reg(rs1);
        let v = if (a as i32) < ((imm as u32) as i32) {
            1
        } else {
            0
        };
        self.retire(rd, v);
    }

    /// `rd <- rs1 < imm`, unsigned.
    fn sltiu(&mut self, rd: Reg, rs1: Reg, imm: i32)
        requires
            old(self).wf(),
        ensures
            final(self).executed(*old(self), (Inst::SLTIU { rd, rs1, imm }), Ok(())),
    {
        let a = self.reg(rs1);
        let v = if a < (imm as u32) {
            1
        } else {
            0
        };
        self.retire(rd, v);
    }

    /// `rd <- rs1 ^ imm`.
    fn xori(&mut self, rd: Reg, rs1: Reg, imm: i32)
        requires
            old(self).wf(),
        ensures
            final(self).executed(*old(self), (Inst::XORI { rd, rs1, imm }), Ok(())),
    {
        let a = self.reg(rs1);
        let v = a ^ (imm as u32);
        self.retire(rd, v);
    }

    /// `rd <- rs1 | imm`.
    fn ori(&mut self, rd: Reg, rs1: Reg, imm: i32)
        requires
            old(self).wf(),
        ensures
            final(self).executed(*old(self), (Inst::ORI { rd, rs1, imm }), Ok(())),
    {
        let a = self.reg(rs1);
        let v = a | (imm as u32);
        self.retire(rd, v);
    }

    /// `rd <- rs1 & imm`.
    fn andi(&mut self, rd: Reg, rs1: Reg, imm: i32)
        requires
            old(self).wf(),
        ensures
            final(self).executed(*old(self), (Inst::ANDI { rd, rs1, imm }), Ok(())),
    {
        let a = self.reg(rs1);
        let v = a & (imm as u32);
        self.retire(rd, v);
    }

    /// `rd <- rs1 << shamt`.
    fn slli(&mut self, rd: Reg, rs1: Reg, shamt: u32)
        requires
            old(self).wf(),
        ensures
            final(self).executed(*old(self), (Inst::SLLI { rd, rs1, shamt }), Ok(())),
    {
        let a = self.reg(rs1);
        proof {
            lemma_low_five_bits(shamt);
        }
        let v = a << (shamt & 0x1f);
        self.retire(rd, v);
    }

    /// `rd <- rs1 >> shamt`, logical.
    fn srli(&mut self, rd: Reg, rs1: Reg, shamt: u32)
        requires
            old(self).wf(),
        ensures
            final(self).executed(*old(self), (Inst::SRLI { rd, rs1, shamt }), Ok(())),
    {
        let a = self.reg(rs1);
        proof {
            lemma_low_five_bits(shamt);
        }
        let v = a >> (shamt & 0x1f);
        self.retire(rd, v);
    }

    /// `rd <- rs1 >> shamt`, arithmetic.
    fn srai(&mut self, rd: Reg, rs1: Reg, shamt: u32)
        requires
            old(self).wf(),
        ensures
            final(self).executed(*old(self), (Inst::SRAI { rd, rs1, shamt }), Ok(())),
    {
        let a = self.reg(rs1);
        proof {
            lemma_low_five_bits(shamt);
        }
        let v = ((a as i32) >> (shamt & 0x1f)) as u32;
        self.retire(rd, v);
    }

    /// Branches if `rs1 == rs2`.
    fn beq(&mut self, rs1: Reg, rs2: Reg, imm: i32)
        requires
            old(self).wf(),
        ensures
            final(self).executed(*old(self), (Inst::BEQ { rs1, rs2, imm }), Ok(())),
    {
        let a = self.reg(rs1);
        let b = self.reg(rs2);
        self.branch(a == b, imm);
    }

    /// Branches if `rs1 != rs2`.
    fn bne(&mut self, rs1: Reg, rs2: Reg, imm: i32)
        requires
            old(self).wf(),
        ensures
            final(self).executed(*old(self), (Inst::BNE { rs1, rs2, imm }), Ok(())),
    {
        let a = self.reg(rs1);
        let b = self.reg(rs2);
        self.branch(a != b, imm);
    }

    /// Branches if `rs1 < rs2`, signed.
    fn blt(&mut self, rs1: Reg, rs2: Reg, imm: i32)
        requires
            old(self).wf(),
        ensures
            final(self).executed(*old(self), (Inst::BLT { rs1, rs2, imm }), Ok(())),
    {
        let a = self.reg(rs1);
        let b = self.reg(rs2);
        self.branch((a as i32) < (b as i32), imm);
    }

    /// Branches if `rs1 >= rs2`, signed.
    fn bge(&mut self, rs1: Reg, rs2: Reg, imm: i32)
        requires
            old(self).wf(),
        ensures
            final(self).executed(*old(self), (Inst::BGE { rs1, rs2, imm }), Ok(())),
    {
        let a = self.reg(rs1);
        let b = self.reg(rs2);
        self.branch((a as i32) >= (b as i32), imm);
    }

    /// Branches if `rs1 < rs2`, unsigned.
    fn bltu(&mut self, rs1: Reg, rs2: Reg, imm: i32)
        requires
            old(self).wf(),
        ensures
            final(self).executed(*old(self), (Inst::BLTU { rs1, rs2, imm }), Ok(())),
    {
        let a = self.reg(rs1);
        let b = self.reg(rs2);
        self.branch(a < b, imm);
    }

    /// Branches if `rs1 >= rs2`, unsigned.
    fn bgeu(&mut self, rs1: Reg, rs2: Reg, imm: i32)
        requires
            old(self).wf(),
        ensures
            final(self).executed(*old(self), (Inst::BGEU { rs1, rs2, imm }), Ok(())),
    {
        let a = self.reg(rs1);
        let b = self.reg(rs2);
        self.branch(a >= b, imm);
    }

    /// `rd <- sext(mem[rs1 + imm])`, a byte.
    fn lb(&mut self, rd: Reg, rs1: Reg, imm: i32) -> (r: Result<(), ExecError>)
        requires
            old(self).wf(),
        ensures
            final(self).executed(*old(self), (Inst::LB { rd, rs1, imm }), r),
    {
        let addr = self.reg(rs1).wrapping_add(imm as u32);
        if !self.fits(addr, 1) {
            return Err(ExecError::MemoryAccess(self.pc));
        }
        let a = addr as usize;
        assert(a == addr);
        let v = sext(self.mem[a] as u32, 8);
        self.retire(rd, v);
        Ok(())
    }

    /// `rd <- sext(mem[rs1 + imm..+2])`, a halfword.
    fn lh(&mut self, rd: Reg, rs1: Reg, imm: i32) -> (r: Result<(), ExecError>)
        requires
            old(self).wf(),
        ensures
            final(self).executed(*old(self), (Inst::LH { rd, rs1, imm }), r),
    {
        let addr = self.reg(rs1).wrapping_add(imm as u32);
        if !self.fits(addr, 2) {
            return Err(ExecError::MemoryAccess(self.pc));
        }
        let v = sext(self.load_u16(addr), 16);
        self.retire(rd, v);
        Ok(())
    }

    /// `rd <- mem[rs1 + imm..+4]`, a word.
    fn lw(&mut self, rd: Reg, rs1: Reg, imm: i32) -> (r: Result<(), ExecError>)
        requires
            old(self).wf(),
        ensures
            final(self).executed(*old(self), (Inst::LW { rd, rs1, imm }), r),
    {
        let addr = self.reg(rs1).wrapping_add(imm as u32);
        if !self.fits(addr, 4) {
            return Err(ExecError::MemoryAccess(self.pc));
        }
        let v = self.load_u32(addr);
        self.retire(rd, v);
        Ok(())
    }

    /// `rd <- mem[rs1 + imm]`, a byte, zero-extended.
    fn lbu(&mut self, rd: Reg, rs1: Reg, imm: i32) -> (r: Result<(), ExecError>)
        requires
            old(self).wf(),
        ensures
            final(self).executed(*old(self), (Inst::LBU { rd, rs1, imm }), r),
    {
        let addr = self.reg(rs1).wrapping_add(imm as u32);
        if !self.fits(addr, 1) {
            return Err(ExecError::MemoryAccess(self.pc));
        }
        let a = addr as usize;
        assert(a == addr);
        let v = self.mem[a] as u32;
        self.retire(rd, v);
        Ok(())
    }

    /// `rd <- mem[rs1 + imm..+2]`, a halfword, zero-extended.
    fn lhu(&mut self, rd: Reg, rs1: Reg, imm: i32) -> (r: Result<(), ExecError>)
        requires
            old(self).wf(),
        ensures
            final(self).executed(*old(self), (Inst::LHU { rd, rs1, imm }), r),
    {
        let addr = self.reg(rs1).wrapping_add(imm as u32);
        if !self.fits(addr, 2) {
            return Err(ExecError::MemoryAccess(self.pc));
        }
        let v = self.load_u16(addr);
        self.retire(rd, v);
        Ok(())
    }

    /// `mem[rs1 + imm] <- rs2[7:0]`.
    fn sb(&mut self, rs1: Reg, rs2: Reg, imm: i32) -> (r: Result<(), ExecError>)
        requires
            old(self).wf(),
        ensures
            final(self).executed(*old(self), (Inst::SB { rs1, rs2, imm }), r),
    {
        let addr = self.reg(rs1).wrapping_add(imm as u32);
        if !self.fits(addr, 1) {
            return Err(ExecError::MemoryAccess(self.pc));
        }
        let v = self.reg(rs2);
        let a = addr as usize;
        assert(a == addr);
        self.mem[a] = (v & 0xff) as u8;
        self.pc = self.pc.wrapping_add(4);
        assert(self.machine() =~= old(self).machine().store_u8(addr, v).with_pc(old(self).machine().next_pc()));
        Ok(())
    }

    /// `mem[rs1 + imm..+2] <- rs2[15:0]`, little-endian.
    fn sh(&mut self, rs1: Reg, rs2: Reg, imm: i32) -> (r: Result<(), ExecError>)
        requires
            old(self).wf(),
        ensures
            final(self).executed(*old(self), (Inst::SH { rs1, rs2, imm }), r),
    {
        let addr = self.reg(rs1).wrapping_add(imm as u32);
        if !self.fits(addr, 2) {
            return Err(ExecError::MemoryAccess(self.pc));
        }
        let v = self.reg(rs2);
        let a = addr as usize;
        assert(a == addr);
        assert(a + 1 < self.mem.len());
        self.mem[a] = (v & 0xff) as u8;
        self.mem[a + 1] = ((v >> 8) & 0xff) as u8;
        self.pc = self.pc.wrapping_add(4);
        assert(self.machine() =~= old(self).machine().store_u16(addr, v).with_pc(old(self).machine().next_pc()));
        Ok(())
    }

    /// `mem[rs1 + imm..+4] <- rs2`, little-endian.
    fn sw(&mut self, rs1: Reg, rs2: Reg, imm: i32) -> (r: Result<(), ExecError>)
        requires
            old(self).wf(),
        ensures
            final(self).executed(*old(self), (Inst::SW { rs1, rs2, imm }), r),
    {
        let addr = self.reg(rs1).wrapping_add(imm as u32);
        if !self.fits(addr, 4) {
            return Err(ExecError::MemoryAccess(self.pc));
        }
        let v = self.reg(rs2);
        let a = addr as usize;
        assert(a == addr);
        assert(a + 3 < self.mem.len());
        self.mem[a] = (v & 0xff) as u8;
        self.mem[a + 1] = ((v >> 8) & 0xff) as u8;
        self.mem[a + 2] = ((v >> 16) & 0xff) as u8;
        self.mem[a + 3] = ((v >> 24) & 0xff) as u8;
        self.pc = self.pc.wrapping_add(4);
        assert(self.machine() =~= old(self).machine().store_u32(addr, v).with_pc(old(self).machine().next_pc()));
        Ok(())
    }

    /// `rd <- pc + 4`, then jumps to `(rs1 + imm) & !1`; the target is taken from `rs1` before `rd` is written.
    fn jalr(&mut self, rd: Reg, rs1: Reg, imm: i32)
        requires
            old(self).wf(),
        ensures
            final(self).executed(*old(self), (Inst::JALR { rd, rs1, imm }), Ok(())),
    {
        let target = self.reg(rs1).wrapping_add(imm as u32) & 0xffff_fffe;
        let link = self.pc.wrapping_add(4);
        self.set_reg(rd, link);
        self.pc = target;
    }

    /// `rd <- pc + 4`, then jumps to `pc + imm`.
    fn jal(&mut self, rd: Reg, imm: i32)
        requires
            old(self).wf(),
        ensures
            final(self).executed(*old(self), (Inst::JAL { rd, imm }), Ok(())),
    {
        let link = self.pc.wrapping_add(4);
        let target = self.pc.wrapping_add(imm as u32);
        self.set_reg(rd, link);
        self.pc = target;
    }

    /// `rd <- imm << 12`.
    fn lui(&mut self, rd: Reg, imm: i32)
        requires
            old(self).wf(),
        ensures
            final(self).executed(*old(self), (Inst::LUI { rd, imm }), Ok(())),
    {
        self.retire(rd, (imm as u32) << 12);
    }

    /// `rd <- pc + (imm << 12)`.
    fn auipc(&mut self, rd: Reg, imm: i32)
        requires
            old(self).wf(),
        ensures
            final(self).executed(*old(self), (Inst::AUIPC { rd, imm }), Ok(())),
    {
        let v = self.pc.wrapping_add((imm as u32) << 12);
        self.retire(rd, v);
    }

    /// Moves past an `ECALL`; what the call does is the host's part.
    fn ecall(&mut self)
        requires
            old(self).wf(),
        ensures
            final(self).executed(*old(self), Inst::ECALL, Ok(())),
    {
        self.pc = self.pc.wrapping_add(4);
    }

    /// Moves past a `FENCE` or `FENCE.I`, which have nothing to order here.
    fn nop(&mut self)
        requires
            old(self).wf(),
        ensures
            final(self).wf(),
            final(self).sections@ == old(self).sections@,
            final(self).symtab@ == old(self).symtab@,
            final(self).started == old(self).started,
            final(self).machine() == old(self).machine().with_pc(old(self).machine().next_pc()),
    {
        self.pc = self.pc.wrapping_add(4);
    }

    /// Executes one decoded instruction.
    fn execute(&mut self, inst: Inst) -> (r: Result<(), ExecError>)
        requires
            old(self).wf(),
        ensures
            final(self).executed(*old(self), inst, r),
    {
        match inst {
            Inst::BEQ { .. } | Inst::BNE { .. } | Inst::BLT { .. } | Inst::BGE { .. } | Inst::BLTU { .. } | Inst::BGEU { .. } | Inst::JAL { .. } | Inst::JALR { .. } | Inst::LUI { .. } | Inst::AUIPC { .. } | Inst::ECALL | Inst::FENCE { .. } | Inst::FENCE_I { .. } => self.execute_control(inst),
            Inst::LB { .. } | Inst::LH { .. } | Inst::LW { .. } | Inst::LBU { .. } | Inst::LHU { .. } | Inst::SB { .. } | Inst::SH { .. } | Inst::SW { .. } => self.execute_memory(inst),
            Inst::ADDI { .. } | Inst::SLTI { .. } | Inst::SLTIU { .. } | Inst::XORI { .. } | Inst::ORI { .. } | Inst::ANDI { .. } | Inst::SLLI { .. } | Inst::SRLI { .. } | Inst::SRAI { .. } => self.execute_imm(inst),
            Inst::ADD { .. } | Inst::SUB { .. } | Inst::SLL { .. } | Inst::SLT { .. } | Inst::SLTU { .. } | Inst::XOR { .. } | Inst::SRL { .. } | Inst::SRA { .. } | Inst::OR { .. } | Inst::AND { .. } => self.execute_reg(inst),
            Inst::MUL { .. } | Inst::MULH { .. } | Inst::MULHSU { .. } | Inst::MULHU { .. } | Inst::DIV { .. } | Inst::DIVU { .. } | Inst::REM { .. } | Inst::REMU { .. } => self.execute_muldiv(inst),
        }
    }

    /// Executes branches, jumps, `LUI`, `AUIPC` and `ECALL`.
    fn execute_control(&mut self, inst: Inst) -> (r: Result<(), ExecError>)
        requires
            old(self).wf(),
            inst is BEQ || inst is BNE || inst is BLT || inst is BGE || inst is BLTU || inst is BGEU || inst is JAL || inst is JALR || inst is LUI || inst is AUIPC || inst is ECALL || inst is FENCE || inst is FENCE_I,
        ensures
            final(self).executed(*old(self), inst, r),
    {
        match inst {
            Inst::BEQ { rs1, rs2, imm } => {
                self.beq(rs1, rs2, imm);
                Ok(())
            },
            Inst::BNE { rs1, rs2, imm } => {
                self.bne(rs1, rs2, imm);
                Ok(())
            },
            Inst::BLT { rs1, rs2, imm } => {
                self.blt(rs1, rs2, imm);
                Ok(())
            },
            Inst::BGE { rs1, rs2, imm } => {
                self.bge(rs1, rs2, imm);
                Ok(())
            },
            Inst::BLTU { rs1, rs2, imm } => {
                self.bltu(rs1, rs2, imm);
                Ok(())
            },
            Inst::BGEU { rs1, rs2, imm } => {
                self.bgeu(rs1, rs2, imm);
                Ok(())
            },
            Inst::JAL { rd, imm } => {
                self.jal(rd, imm);
                Ok(())
            },
            Inst::JALR { rd, rs1, imm } => {
                self.jalr(rd, rs1, imm);
                Ok(())
            },
            Inst::LUI { rd, imm } => {
                self.lui(rd, imm);
                Ok(())
            },
            Inst::AUIPC { rd, imm } => {
                self.auipc(rd, imm);
                Ok(())
            },
            Inst::FENCE { .. } | Inst::FENCE_I { .. } => {
                self.nop();
                Ok(())
            },
            Inst::ECALL => {
                self.ecall();
                Ok(())
            },
            _ => Ok(()),
        }
    }

    /// Executes loads and stores.
    fn execute_memory(&mut self, inst: Inst) -> (r: Result<(), ExecError>)
        requires
            old(self).wf(),
            inst is LB || inst is LH || inst is LW || inst is LBU || inst is LHU || inst is SB || inst is SH || inst is SW,
        ensures
            final(self).executed(*old(self), inst, r),
    {
        match inst {
            Inst::LB { rd, rs1, imm } => self.lb(rd, rs1, imm),
            Inst::LH { rd, rs1, imm } => self.lh(rd, rs1, imm),
            Inst::LW { rd, rs1, imm } => self.lw(rd, rs1, imm),
            Inst::LBU { rd, rs1, imm } => self.lbu(rd, rs1, imm),
            Inst::LHU { rd, rs1, imm } => self.lhu(rd, rs1, imm),
            Inst::SB { rs1, rs2, imm } => self.sb(rs1, rs2, imm),
            Inst::SH { rs1, rs2, imm } => self.sh(rs1, rs2, imm),
            Inst::SW { rs1, rs2, imm } => self.sw(rs1, rs2, imm),
            _ => Ok(()),
        }
    }

    /// Executes register-immediate arithmetic.
    fn execute_imm(&mut self, inst: Inst) -> (r: Result<(), ExecError>)
        requires
            old(self).wf(),
            inst is ADDI || inst is SLTI || inst is SLTIU || inst is XORI || inst is ORI || inst is ANDI || inst is SLLI || inst is SRLI || inst is SRAI,
        ensures
            final(self).executed(*old(self), inst, r),
    {
        match inst {
            Inst::ADDI { rd, rs1, imm } => {
                self.addi(rd, rs1, imm);
                Ok(())
            },
            Inst::SLTI { rd, rs1, imm } => {
                self.slti(rd, rs1, imm);
                Ok(())
            },
            Inst::SLTIU { rd, rs1, imm } => {
                self.sltiu(rd, rs1, imm);
                Ok(())
            },
            Inst::XORI { rd, rs1, imm } => {
                self.xori(rd, rs1, imm);
                Ok(())
            },
            Inst::ORI { rd, rs1, imm } => {
                self.ori(rd, rs1, imm);
                Ok(())
            },
            Inst::ANDI { rd, rs1, imm } => {
                self.andi(rd, rs1, imm);
                Ok(())
            },
            Inst::SLLI { rd, rs1, shamt } => {
                self.slli(rd, rs1, shamt);
                Ok(())
            },
            Inst::SRLI { rd, rs1, shamt } => {
                self.srli(rd, rs1, shamt);
                Ok(())
            },
            Inst::SRAI { rd, rs1, shamt } => {
                self.srai(rd, rs1, shamt);
                Ok(())
            },
            _ => Ok(()),
        }
    }

    /// Executes RV32I register-register arithmetic.
    fn execute_reg(&mut self, inst: Inst) -> (r: Result<(), ExecError>)
        requires
            old(self).wf(),
            inst is ADD || inst is SUB || inst is SLL || inst is SLT || inst is SLTU || inst is XOR || inst is SRL || inst is SRA || inst is OR || inst is AND,
        ensures
            final(self).executed(*old(self), inst, r),
    {
        match inst {
            Inst::ADD { rd, rs1, rs2 } => {
                self.add(rd, rs1, rs2);
                Ok(())
            },
            Inst::SUB { rd, rs1, rs2 } => {
                self.sub(rd, rs1, rs2);
                Ok(())
            },
            Inst::SLL { rd, rs1, rs2 } => {
                self.sll(rd, rs1, rs2);
                Ok(())
            },
            Inst::SLT { rd, rs1, rs2 } => {
                self.slt(rd, rs1, rs2);
                Ok(())
            },
            Inst::SLTU { rd, rs1, rs2 } => {
                self.sltu(rd, rs1, rs2);
                Ok(())
            },
            Inst::XOR { rd, rs1, rs2 } => {
                self.xor(rd, rs1, rs2);
                Ok(())
            },
            Inst::SRL { rd, rs1, rs2 } => {
                self.srl(rd, rs1, rs2);
                Ok(())
            },
            Inst::SRA { rd, rs1, rs2 } => {
                self.sra(rd, rs1, rs2);
                Ok(())
            },
            Inst::OR { rd, rs1, rs2 } => {
                self.or(rd, rs1, rs2);
                Ok(())
            },
            Inst::AND { rd, rs1, rs2 } => {
                self.and(rd, rs1, rs2);
                Ok(())
            },
            _ => Ok(()),
        }
    }

    /// Executes RV32M multiply and divide.
    fn execute_muldiv(&mut self, inst: Inst) -> (r: Result<(), ExecError>)
        requires
            old(self).wf(),
            inst is MUL || inst is MULH || inst is MULHSU || inst is MULHU || inst is DIV || inst is DIVU || inst is REM || inst is REMU,
        ensures
            final(self).executed(*old(self), inst, r),
    {
        match inst {
            Inst::MUL { rd, rs1, rs2 } => {
                self.mul(rd, rs1, rs2);
                Ok(())
            },
            Inst::MULH { rd, rs1, rs2 } => {
                self.mulh(rd, rs1, rs2);
                Ok(())
            },
            Inst::MULHSU { rd, rs1, rs2 } => {
                self.mulhsu(rd, rs1, rs2);
                Ok(())
            },
            Inst::MULHU { rd, rs1, rs2 } => {
                self.mulhu(rd, rs1, rs2);
                Ok(())
            },
            Inst::DIV { rd, rs1, rs2 } => {
                self.div(rd, rs1, rs2);
                Ok(())
            },
            Inst::DIVU { rd, rs1, rs2 } => {
                self.divu(rd, rs1, rs2);
                Ok(())
            },
            Inst::REM { rd, rs1, rs2 } => {
                self.rem(rd, rs1, rs2);
                Ok(())
            },
            Inst::REMU { rd, rs1, rs2 } => {
                self.remu(rd, rs1, rs2);
                Ok(())
            },
            _ => Ok(()),
        }
    }

}

/// The range of the last loaded section called `name`.
pub open spec fn spec_find_section(secs: Seq<SectionRange>, name: Seq<char>) -> Option<
    (usize, usize),
>
    decreases secs.len(),
{
    if secs.len() == 0 {
        None
    } else if secs.last().name@ == name {
        Some((secs.last().start, secs.last().end))
    } else {
        spec_find_section(secs.drop_last(), name)
    }
}

/// The value of the last symbol called `name`.
pub open spec fn spec_find_symbol(syms: Seq<Symbol>, name: Seq<char>) -> Option<usize>
    decreases syms.len(),
{
    if syms.len() == 0 {
        None
    } else if syms.last().name@ == name {
        Some(syms.last().value)
    } else {
        spec_find_symbol(syms.drop_last(), name)
    }
}

/// Where execution starts: `_start` if the program has it, else the start
/// of `.text`.
pub open spec fn spec_entry(secs: Seq<SectionRange>, syms: Seq<Symbol>) -> Option<u32> {
    match spec_find_symbol(syms, "_start"@) {
        Some(v) => Some(v as u32),
        None => match spec_find_section(secs, ".text"@) {
            Some((start, _)) => Some(start as u32),
            None => None,
        },
    }
}

/// The state in which execution starts at `entry`: `gp` from
/// `__global_pointer$` when present, `sp` at the middle of memory.
pub open spec fn spec_start(m: Machine, syms: Seq<Symbol>, entry: u32) -> Machine {
    let m1 = match spec_find_symbol(syms, "__global_pointer$"@) {
        Some(g) => m.with_reg(Reg::gp, g as u32),
        None => m,
    };
    m1.with_reg(Reg::sp, (m.mem.len() / 2) as u32).with_pc(entry)
}

impl Emulator {
    /// The range of `.text`, where execution may go.
    pub open spec fn text(&self) -> Option<(usize, usize)> {
        spec_find_section(self.sections(), ".text"@)
    }

    /// The range of the last loaded section called `name`.
    pub fn find_section(&self, name: &str) -> (r: Option<(usize, usize)>)
        ensures
            r == spec_find_section(self.sections(), name@),
    {
        let key = name.to_owned();
        let mut i = self.sections.len();
        assert(self.sections@.take(i as int) =~= self.sections@);
        while i > 0
            invariant
                i <= self.sections@.len(),
                key@ == name@,
                spec_find_section(self.sections@, name@) == spec_find_section(
                    self.sections@.take(i as int),
                    name@,
                ),
            decreases i,
        {
            assert(self.sections@.take(i as int).drop_last() =~= self.sections@.take(i - 1));
            i = i - 1;
            if self.sections[i].name == key {
                return Some((self.sections[i].start, self.sections[i].end));
            }
        }
        None
    }

    /// The value of the last symbol called `name`.
    pub fn find_symbol(&self, name: &str) -> (r: Option<usize>)
        ensures
            r == spec_find_symbol(self.symbols(), name@),
    {
        let key = name.to_owned();
        let mut i = self.symtab.len();
        assert(self.symtab@.take(i as int) =~= self.symtab@);
        while i > 0
            invariant
                i <= self.symtab@.len(),
                key@ == name@,
                spec_find_symbol(self.symtab@, name@) == spec_find_symbol(
                    self.symtab@.take(i as int),
                    name@,
                ),
            decreases i,
        {
            assert(self.symtab@.take(i as int).drop_last() =~= self.symtab@.take(i - 1));
            i = i - 1;
            if self.symtab[i].name == key {
                return Some(self.symtab[i].value);
            }
        }
        None
    }

    /// Where execution starts: `_start`, else the start of `.text`.
    fn entry(&self) -> (r: Option<u32>)
        ensures
            r == spec_entry(self.sections(), self.symbols()),
    {
        match self.find_symbol("_start") {
            Some(v) => Some(v as u32),
            None => match self.find_section(".text") {
                Some((start, _)) => Some(start as u32),
                None => None,
            },
        }
    }

    /// Sets `gp`, `sp` and the PC for a run from `entry`.
    fn start_at(&mut self, entry: u32)
        requires
            old(self).wf(),
        ensures
            final(self).wf(),
            final(self).sections@ == old(self).sections@,
            final(self).symtab@ == old(self).symtab@,
            final(self).started,
            final(self).machine() == spec_start(old(self).machine(), old(self).symbols(), entry),
    {
        if let Some(g) = self.find_symbol("__global_pointer$") {
            self.set_reg(Reg::gp, g as u32);
        }
        let half = (self.mem.len() / 2) as u32;
        self.set_reg(Reg::sp, half);
        self.pc = entry;
        self.started = true;
    }

    /// Prepares a loaded program to run: sets `gp` from `__global_pointer$`
    /// when present, `sp` to the middle of memory, and the PC to `_start`, or
    /// failing that to the start of `.text`. Without either it fails with
    /// `EntryPoint` and changes nothing. Calling it again restarts from the
    /// entry point (registers and memory are kept).
    pub fn init(&mut self) -> (r: Result<(), EmulatorError>)
        requires
            old(self).wf(),
        ensures
            final(self).wf(),
            final(self).sections() == old(self).sections(),
            final(self).symbols() == old(self).symbols(),
            match spec_entry(old(self).sections(), old(self).symbols()) {
                None => r == Err::<(), EmulatorError>(EmulatorError::EntryPoint)
                    && final(self).machine() == old(self).machine()
                    && final(self).started() == old(self).started(),
                Some(entry) => r is Ok && final(self).started() && final(self).machine()
                    == spec_start(old(self).machine(), old(self).symbols(), entry),
            },
    {
        match self.entry() {
            Some(entry) => {
                self.start_at(entry);
                Ok(())
            },
            None => Err(EmulatorError::EntryPoint),
        }
    }

    /// Does the start-up unless it was done: the state becomes
    /// [Emulator::spec_launch], or `EntryPoint` is returned and nothing changes.
    fn launch(&mut self) -> (r: Result<(), EmulatorError>)
        requires
            old(self).wf(),
        ensures
            final(self).wf(),
            final(self).sections@ == old(self).sections@,
            final(self).symtab@ == old(self).symtab@,
            match old(self).spec_launch() {
                Err(e) => r == Err::<(), EmulatorError>(e) && final(self).machine() == old(self).machine() && final(self).started == old(self).started,
                Ok(m) => r is Ok && final(self).started && final(self).machine() == m,
            },
    {
        match self.entry() {
            Some(entry) => {
                if !self.started {
                    self.start_at(entry);
                }
                Ok(())
            },
            None => Err(EmulatorError::EntryPoint),
        }
    }

    /// The system call that an `ECALL` in the current state requests.
    pub fn syscall(&self) -> (r: Syscall)
        requires
            self.wf(),
        ensures
            r == spec_syscall(self.machine()),
    {
        let a7 = self.reg(Reg::a7);
        if a7 == 1 {
            Syscall::PrintInt(self.reg(Reg::a0) as i32)
        } else if a7 == 4 {
            Syscall::PrintString(self.reg(Reg::a0))
        } else if a7 == 5 {
            Syscall::ReadInt
        } else if a7 == 10 {
            Syscall::Exit(0)
        } else if a7 == 64 {
            Syscall::Write { fd: self.reg(Reg::a0), addr: self.reg(Reg::a1), len: self.reg(Reg::a2) }
        } else if a7 == 93 {
            Syscall::Exit(self.reg(Reg::a0) as i32)
        } else {
            Syscall::Unknown(a7)
        }
    }

    /// The instruction under the PC, given the range of `.text`.
    fn fetch(&self, text: Option<(usize, usize)>) -> (r: Result<Inst, EmulatorError>)
        ensures
            r == spec_fetch(self.machine(), text),
    {
        match text {
            Some((start, end)) => {
                if (start as u64) <= (self.pc as u64) && (self.pc as u64) < (end as u64) {
                    if self.fits(self.pc, 4) {
                        match Inst::decode(self.load_u32(self.pc)) {
                            Ok(i) => Ok(i),
                            Err(e) => Err(EmulatorError::InstructionDecode(e)),
                        }
                    } else {
                        Err(EmulatorError::Execution(ExecError::MemoryAccess(self.pc)))
                    }
                } else {
                    Err(EmulatorError::Execution(ExecError::PcOutsideText(self.pc)))
                }
            },
            None => Err(EmulatorError::Execution(ExecError::PcOutsideText(self.pc))),
        }
    }

    /// One cycle, given the range of `.text`.
    fn step_in(&mut self, text: Option<(usize, usize)>) -> (r: Result<
        Option<Syscall>,
        EmulatorError,
    >)
        requires
            old(self).wf(),
        ensures
            final(self).wf(),
            final(self).sections@ == old(self).sections@,
            final(self).symtab@ == old(self).symtab@,
            final(self).started == old(self).started,
            (final(self).machine(), r) == spec_step(old(self).machine(), text),
    {
        let inst = match self.fetch(text) {
            Ok(i) => i,
            Err(e) => {
                return Err(e);
            },
        };
        let call = if inst == Inst::ECALL {
            Some(self.syscall())
        } else {
            None
        };
        match self.execute(inst) {
            Ok(()) => Ok(call),
            Err(e) => Err(EmulatorError::Execution(e)),
        }
    }

    /// Fetches, decodes and executes the instruction under the PC, after the
    /// start-up if it was not done yet (see [Emulator::init]). Returns the
    /// system call an `ECALL` requests, for the host to carry out. Without
    /// `_start` and `.text` it fails with `EntryPoint` and changes nothing.
    pub fn step(&mut self) -> (r: Result<Option<Syscall>, EmulatorError>)
        requires
            old(self).wf(),
        ensures
            final(self).wf(),
            final(self).sections() == old(self).sections(),
            final(self).symbols() == old(self).symbols(),
            match old(self).spec_launch() {
                Err(e) => r == Err::<Option<Syscall>, EmulatorError>(e) && final(self).machine()
                    == old(self).machine() && final(self).started() == old(self).started(),
                Ok(m) => final(self).started() && (final(self).machine(), r) == spec_step(
                    m,
                    old(self).text(),
                ),
            },
    {
        match self.launch() {
            Ok(()) => {},
            Err(e) => {
                return Err(e);
            },
        }
        let text = self.find_section(".text");
        self.step_in(text)
    }

    /// Runs a loaded program for at most `fuel` instructions, after the
    /// start-up if it was not done yet (see [Emulator::init]): `gp` from
    /// `__global_pointer$`, `sp` at the middle of memory, the PC at `_start` or
    /// else at the start of `.text`. Without either it fails with `EntryPoint`
    /// and executes nothing. Stops at the first `ECALL`, returning the system
    /// call for the host to carry out (the PC is already past it), or at the
    /// first error: the PC leaving `.text`, an undecodable word, a memory
    /// access out of range. `Ok(None)` means the fuel ran out; a later call
    /// goes on from where this one stopped.
    pub fn run(&mut self, fuel: u64) -> (r: Result<Option<Syscall>, EmulatorError>)
        requires
            old(self).wf(),
        ensures
            final(self).wf(),
            final(self).sections() == old(self).sections(),
            final(self).symbols() == old(self).symbols(),
            match old(self).spec_launch() {
                Err(e) => r == Err::<Option<Syscall>, EmulatorError>(e) && final(self).machine()
                    == old(self).machine() && final(self).started() == old(self).started(),
                Ok(m) => final(self).started() && (final(self).machine(), r) == spec_run(
                    m,
                    old(self).text(),
                    fuel as nat,
                ),
            },
    {
        match self.launch() {
            Ok(()) => {},
            Err(e) => {
                return Err(e);
            },
        }
        let ghost m = self.machine();
        let text = self.find_section(".text");
        let mut left = fuel;
        while left > 0
            invariant
                self.wf(),
                self.sections@ == old(self).sections@,
                self.symtab@ == old(self).symtab@,
                self.started,
                old(self).spec_launch() == Ok::<Machine, EmulatorError>(m),
                text == old(self).text(),
                spec_run(m, text, fuel as nat) == spec_run(self.machine(), text, left as nat),
            decreases left,
        {
            let ghost before = self.machine();
            let r = self.step_in(text);
            assert(spec_run(before, text, left as nat) == if r == Ok::<
                Option<Syscall>,
                EmulatorError,
            >(None) {
                spec_run(self.machine(), text, (left - 1) as nat)
            } else {
                (self.machine(), r)
            });
            match r {
                Ok(None) => {
                    left = left - 1;
                },
                _ => {
                    return r;
                },
            }
        }
        Ok(None)
    }

    /// Returns the current instruction - i.e., the instruction the program
    /// counter is currently pointing at.
    pub fn curr(&self) -> (r: Result<Inst, EmulatorError>)
        ensures
            r == self.spec_inst(self.machine().pc),
    {
        self.inst(self.pc)
    }

    /// The instruction at `addr`, or why there is none.
    pub open spec fn spec_inst(&self, addr: u32) -> Result<Inst, EmulatorError> {
        if self.machine().in_bounds(addr, 4) {
            match Inst::spec_decode(self.machine().load_u32(addr)) {
                Ok(i) => Ok(i),
                Err(e) => Err(EmulatorError::InstructionDecode(e)),
            }
        } else {
            Err(EmulatorError::Execution(ExecError::MemoryAccess(addr)))
        }
    }

    /// Returns the instruction at memory address `addr`.
    pub fn inst(&self, addr: u32) -> (r: Result<Inst, EmulatorError>)
        ensures
            r == self.spec_inst(addr),
    {
        if self.fits(addr, 4) {
            match Inst::decode(self.load_u32(addr)) {
                Ok(i) => Ok(i),
                Err(e) => Err(EmulatorError::InstructionDecode(e)),
            }
        } else {
            Err(EmulatorError::Execution(ExecError::MemoryAccess(addr)))
        }
    }
}

impl Default for Emulator {
    /// An emulator with [DEFAULT_MEMORY_SIZE] bytes of memory.
    fn default() -> (em: Emulator)
        ensures
            em.wf(),
            em.machine().pc == 0,
            em.machine().regs == Seq::new(32, |_i: int| 0u32),
            em.machine().mem == Seq::new(DEFAULT_MEMORY_SIZE as nat, |_i: int| 0u8),
            em.sections().len() == 0,
            em.symbols().len() == 0,
    {
        Emulator::new(None)
    }
}

/// A section header of the program file, as far as loading needs it.
#[derive(Clone, Debug, PartialEq, Eq)]
pub struct Section {
    pub name: String,
    /// Virtual address of the first byte
    pub addr: usize,
    /// Size in bytes
    pub size: usize,
    /// Offset of its bytes in the file; `None` when the file holds none (e.g. `.bss`)
    pub offset: Option<usize>,
    /// Whether the section occupies memory at run time
    pub alloc: bool,
}

/// What loading takes from an ELF file: its section headers and symbols.
#[derive(Clone, Debug, PartialEq, Eq)]
pub struct ElfImage {
    pub sections: Vec<Section>,
    pub symbols: Vec<Symbol>,
}

/// Memory after copying the file bytes of `s` to its address.
pub open spec fn spec_copy_section(mem: Seq<u8>, s: Section, bytes: Seq<u8>) -> Seq<u8>
    recommends
        s.offset is Some,
{
    let off = s.offset->0;
    mem.take(s.addr as int) + bytes.subrange(off as int, off + s.size) + mem.skip(s.addr + s.size)
}

/// Loads the allocatable, file-backed sections in order: each must lie within
/// memory and its bytes within the file. Gives the new memory and the ranges
/// loaded, or the first section that does not fit.
pub open spec fn spec_load_sections(mem: Seq<u8>, secs: Seq<Section>, bytes: Seq<u8>) -> Result<
    (Seq<u8>, Seq<SectionRange>),
    EmulatorError,
>
    decreases secs.len(),
{
    if secs.len() == 0 {
        Ok((mem, Seq::empty()))
    } else {
        match spec_load_sections(mem, secs.drop_last(), bytes) {
            Err(e) => Err(e),
            Ok((m, ranges)) => {
                let s = secs.last();
                if !(s.alloc && s.offset is Some) {
                    Ok((m, ranges))
                } else if s.addr + s.size <= m.len() && s.offset->0 + s.size <= bytes.len() {
                    Ok(
                        (
                            spec_copy_section(m, s, bytes),
                            ranges.push(
                                SectionRange {
                                    name: s.name,
                                    start: s.addr,
                                    end: (s.addr + s.size) as usize,
                                },
                            ),
                        ),
                    )
                } else {
                    Err(EmulatorError::Section { addr: s.addr, size: s.size })
                }
            },
        }
    }
}

/// The symbols with a non-empty name, in order.
pub open spec fn spec_named(syms: Seq<Symbol>) -> Seq<Symbol>
    decreases syms.len(),
{
    if syms.len() == 0 {
        Seq::empty()
    } else if syms.last().name@.len() > 0 {
        spec_named(syms.drop_last()).push(syms.last())
    } else {
        spec_named(syms.drop_last())
    }
}

/// Memory with `[start, end)` zeroed.
pub open spec fn spec_zero(mem: Seq<u8>, start: usize, end: usize) -> Seq<u8> {
    Seq::new(mem.len(), |i: int| if start <= i < end { 0u8 } else { mem[i] })
}

/// Zeroes the BSS region `[__bss_start, __BSS_END__)` when both symbols are
/// known; fails when the region reaches past memory.
pub open spec fn spec_clear_bss(mem: Seq<u8>, syms: Seq<Symbol>) -> Result<Seq<u8>, EmulatorError> {
    match (spec_find_symbol(syms, "__bss_start"@), spec_find_symbol(syms, "__BSS_END__"@)) {
        (Some(start), Some(end)) => if end <= start {
            Ok(mem)
        } else if end <= mem.len() {
            Ok(spec_zero(mem, start, end))
        } else {
            Err(EmulatorError::Section { addr: start, size: (end - start) as usize })
        },
        _ => Ok(mem),
    }
}

/// Loading as a whole: sections, then symbols, then BSS. Gives memory,
/// sections and symbols afterwards.
pub open spec fn spec_load(
    mem: Seq<u8>,
    secs: Seq<SectionRange>,
    syms: Seq<Symbol>,
    bytes: Seq<u8>,
    image_secs: Seq<Section>,
    image_syms: Seq<Symbol>,
) -> Result<(Seq<u8>, Seq<SectionRange>, Seq<Symbol>), EmulatorError> {
    match spec_load_sections(mem, image_secs, bytes) {
        Err(e) => Err(e),
        Ok((m, ranges)) => {
            let all = syms + spec_named(image_syms);
            match spec_clear_bss(m, all) {
                Err(e) => Err(e),
                Ok(m2) => Ok((m2, secs + ranges, all)),
            }
        },
    }
}

impl Emulator {
    /// Copies the file bytes of a section that fits to its address.
    fn copy_section(&mut self, s: &Section, bytes: &Vec<u8>)
        requires
            old(self).wf(),
            s.offset is Some,
            s.addr + s.size <= old(self).mem@.len(),
            s.offset->0 + s.size <= bytes@.len(),
        ensures
            final(self).wf(),
            final(self).pc == old(self).pc,
            final(self).started == old(self).started,
            final(self).reg@ == old(self).reg@,
            final(self).sections@ == old(self).sections@,
            final(self).symtab@ == old(self).symtab@,
            final(self).mem@ == spec_copy_section(old(self).mem@, *s, bytes@),
    {
        let off = match s.offset {
            Some(o) => o,
            None => 0,
        };
        let mlen = self.mem.len();
        let blen = bytes.len();
        let mut k: usize = 0;
        while k < s.size
            invariant
                k <= s.size,
                s.addr + s.size <= mlen,
                off + s.size <= blen,
                self.wf(),
                self.pc == old(self).pc,
                self.started == old(self).started,
                self.reg@ == old(self).reg@,
                self.sections@ == old(self).sections@,
                self.symtab@ == old(self).symtab@,
                s.offset == Some(off),
                s.addr + s.size <= old(self).mem@.len(),
                off + s.size <= bytes@.len(),
                self.mem@.len() == old(self).mem@.len(),
                forall|j: int|
                    0 <= j < self.mem@.len() ==> #[trigger] self.mem@[j] == if s.addr <= j < s.addr
                        + k {
                        bytes@[off + j - s.addr]
                    } else {
                        old(self).mem@[j]
                    },
            decreases s.size - k,
        {
            self.mem[s.addr + k] = bytes[off + k];
            k = k + 1;
        }
        assert(self.mem@ =~= spec_copy_section(old(self).mem@, *s, bytes@));
    }

    /// Loads the allocatable, file-backed sections of `image`.
    fn load_sections(&mut self, bytes: &Vec<u8>, image: &ElfImage) -> (r: Result<(), EmulatorError>)
        requires
            old(self).wf(),
        ensures
            final(self).wf(),
            final(self).pc == old(self).pc,
            final(self).started == old(self).started,
            final(self).reg@ == old(self).reg@,
            final(self).symtab@ == old(self).symtab@,
            match spec_load_sections(old(self).mem@, image.sections@, bytes@) {
                Ok((m, ranges)) => r is Ok && final(self).mem@ == m && final(self).sections@ == old(self).sections@ + ranges,
                Err(e) => r == Err::<(), EmulatorError>(e),
            },
    {
        let mut i: usize = 0;
        assert(image.sections@.take(0) =~= Seq::<Section>::empty());
        assert(self.sections@.skip(old(self).sections@.len() as int) =~= Seq::<SectionRange>::empty());
        assert(self.sections@.take(old(self).sections@.len() as int) =~= old(self).sections@);
        while i < image.sections.len()
            invariant
                i <= image.sections@.len(),
                self.wf(),
                self.pc == old(self).pc,
                self.started == old(self).started,
                self.reg@ == old(self).reg@,
                self.symtab@ == old(self).symtab@,
                spec_load_sections(old(self).mem@, image.sections@.take(i as int), bytes@) == Ok::<
                    (Seq<u8>, Seq<SectionRange>),
                    EmulatorError,
                >((self.mem@, self.sections@.skip(old(self).sections@.len() as int))),
                self.sections@.take(old(self).sections@.len() as int) == old(self).sections@,
                old(self).sections@.len() <= self.sections@.len(),
            decreases image.sections@.len() - i,
        {
            let s = &image.sections[i];
            assert(image.sections@.take(i + 1).drop_last() =~= image.sections@.take(i as int));
            assert(image.sections@.take(i + 1).last() == *s);
            if s.alloc && s.offset.is_some() {
                let off = match s.offset {
                    Some(o) => o,
                    None => 0,
                };
                if s.addr <= self.mem.len() && s.size <= self.mem.len() - s.addr && off
                    <= bytes.len() && s.size <= bytes.len() - off {
                    self.copy_section(s, bytes);
                    let range = SectionRange { name: s.name.clone(), start: s.addr, end: s.addr + s.size };
                    let ghost before = self.sections@;
                    self.sections.push(range);
                    assert(self.sections@.skip(old(self).sections@.len() as int) =~= before.skip(
                        old(self).sections@.len() as int,
                    ).push(range));
                    assert(self.sections@.take(old(self).sections@.len() as int) =~= before.take(
                        old(self).sections@.len() as int,
                    ));
                } else {
                    proof {
                        lemma_load_sections_stuck(old(self).mem@, image.sections@, bytes@, (i + 1) as nat);
                    }
                    return Err(EmulatorError::Section { addr: s.addr, size: s.size });
                }
            }
            i = i + 1;
        }
        assert(image.sections@.take(i as int) =~= image.sections@);
        assert(old(self).sections@ + self.sections@.skip(old(self).sections@.len() as int)
            =~= self.sections@);
        Ok(())
    }

    /// Appends the symbols of `image` that have a name.
    fn load_symbols(&mut self, image: &ElfImage)
        requires
            old(self).wf(),
        ensures
            final(self).wf(),
            final(self).pc == old(self).pc,
            final(self).started == old(self).started,
            final(self).reg@ == old(self).reg@,
            final(self).mem@ == old(self).mem@,
            final(self).sections@ == old(self).sections@,
            final(self).symtab@ == old(self).symtab@ + spec_named(image.symbols@),
    {
        let mut i: usize = 0;
        assert(image.symbols@.take(0) =~= Seq::<Symbol>::empty());
        assert(old(self).symtab@ + Seq::<Symbol>::empty() =~= old(self).symtab@);
        while i < image.symbols.len()
            invariant
                i <= image.symbols@.len(),
                self.wf(),
                self.pc == old(self).pc,
                self.started == old(self).started,
                self.reg@ == old(self).reg@,
                self.mem@ == old(self).mem@,
                self.sections@ == old(self).sections@,
                self.symtab@ == old(self).symtab@ + spec_named(image.symbols@.take(i as int)),
            decreases image.symbols@.len() - i,
        {
            let s = &image.symbols[i];
            assert(image.symbols@.take(i + 1).drop_last() =~= image.symbols@.take(i as int));
            assert(image.symbols@.take(i + 1).last() == *s);
            if !s.name.as_str().is_empty() {
                let sym = Symbol { name: s.name.clone(), value: s.value };
                self.symtab.push(sym);
                assert(self.symtab@ =~= old(self).symtab@ + spec_named(
                    image.symbols@.take(i + 1),
                ));
            }
            i = i + 1;
        }
        assert(image.symbols@.take(i as int) =~= image.symbols@);
    }

    /// Zeroes the BSS region, when the symbol table marks one.
    fn clear_bss(&mut self) -> (r: Result<(), EmulatorError>)
        requires
            old(self).wf(),
        ensures
            final(self).wf(),
            final(self).pc == old(self).pc,
            final(self).started == old(self).started,
            final(self).reg@ == old(self).reg@,
            final(self).sections@ == old(self).sections@,
            final(self).symtab@ == old(self).symtab@,
            match spec_clear_bss(old(self).mem@, old(self).symtab@) {
                Ok(m) => r is Ok && final(self).mem@ == m,
                Err(e) => r == Err::<(), EmulatorError>(e) && final(self).mem@ == old(self).mem@,
            },
    {
        let start = self.find_symbol("__bss_start");
        let end = self.find_symbol("__BSS_END__");
        match (start, end) {
            (Some(start), Some(end)) => {
                if end <= start {
                    return Ok(());
                }
                if end > self.mem.len() {
                    return Err(EmulatorError::Section { addr: start, size: end - start });
                }
                let mut i = start;
                while i < end
                    invariant
                        start <= i <= end,
                        end <= self.mem@.len(),
                        self.wf(),
                        self.pc == old(self).pc,
                        self.started == old(self).started,
                        self.reg@ == old(self).reg@,
                        self.sections@ == old(self).sections@,
                        self.symtab@ == old(self).symtab@,
                        self.mem@ == spec_zero(old(self).mem@, start, i),
                    decreases end - i,
                {
                    self.mem[i] = 0;
                    i = i + 1;
                    assert(self.mem@ =~= spec_zero(old(self).mem@, start, i));
                }
                Ok(())
            },
            _ => Ok(()),
        }
    }

    /// Loads a program into `self`: copies each allocatable section with
    /// bytes in the file to its address, records it under its name, appends
    /// the named symbols to the symbol table, then zeroes the BSS region
    /// `[__bss_start, __BSS_END__)`. `bytes` is the file; `image` is what an
    /// ELF parser read from it. Fails with `Section` on the first region
    /// that does not fit.
    pub fn load(&mut self, bytes: &Vec<u8>, image: &ElfImage) -> (r: Result<(), EmulatorError>)
        requires
            old(self).wf(),
        ensures
            final(self).wf(),
            final(self).machine().pc == old(self).machine().pc,
            final(self).machine().regs == old(self).machine().regs,
            final(self).started() == old(self).started(),
            match spec_load(
                old(self).machine().mem,
                old(self).sections(),
                old(self).symbols(),
                bytes@,
                image.sections@,
                image.symbols@,
            ) {
                Ok((m, secs, syms)) => r is Ok && final(self).machine().mem == m && final(self).sections() == secs && final(self).symbols() == syms,
                Err(e) => r == Err::<(), EmulatorError>(e),
            },
    {
        match self.load_sections(bytes, image) {
            Ok(()) => {},
            Err(e) => {
                return Err(e);
            },
        }
        self.load_symbols(image);
        self.clear_bss()
    }

    /// A new emulator with `alloc` bytes of memory (or the default) and the
    /// program of `image` loaded.
    pub fn load_from(bytes: &Vec<u8>, image: &ElfImage, alloc: Option<usize>) -> (r: Result<
        Emulator,
        EmulatorError,
    >)
        ensures
            match spec_load(
                Seq::new(
                    match alloc {
                        Some(n) => n,
                        None => DEFAULT_MEMORY_SIZE,
                    } as nat,
                    |_i: int| 0u8,
                ),
                Seq::empty(),
                Seq::empty(),
                bytes@,
                image.sections@,
                image.symbols@,
            ) {
                Ok((m, secs, syms)) => r is Ok && r->Ok_0.wf() && !r->Ok_0.started()
                    && r->Ok_0.machine() == (Machine {
                    pc: 0,
                    regs: Seq::new(32, |_i: int| 0u32),
                    mem: m,
                }) && r->Ok_0.sections() == secs && r->Ok_0.symbols() == syms,
                Err(e) => r == Err::<Emulator, EmulatorError>(e),
            },
    {
        let mut em = Emulator::new(alloc);
        match em.load(bytes, image) {
            Ok(()) => Ok(em),
            Err(e) => Err(e),
        }
    }
}

/// Once a section fails to fit, loading fails whatever follows.
proof fn lemma_load_sections_stuck(mem: Seq<u8>, secs: Seq<Section>, bytes: Seq<u8>, n: nat)
    requires
        n <= secs.len(),
        spec_load_sections(mem, secs.take(n as int), bytes) is Err,
    ensures
        spec_load_sections(mem, secs, bytes) == spec_load_sections(mem, secs.take(n as int), bytes),
    decreases secs.len() - n,
{
    if n < secs.len() {
        assert(secs.take((n + 1) as int).drop_last() =~= secs.take(n as int));
        lemma_load_sections_stuck(mem, secs, bytes, n + 1);
    } else {
        assert(secs.take(n as int) =~= secs);
    }
}

impl Emulator {
    /// The `len` bytes of memory from `addr` on, for a `write` system call;
    /// fails when they reach past the end of memory.
    pub fn read_bytes(&self, addr: u32, len: u32) -> (r: Result<Vec<u8>, EmulatorError>)
        ensures
            match r {
                Ok(v) => addr + len <= self.machine().mem.len() && v@ == self.machine().mem.subrange(
                    addr as int,
                    addr + len,
                ),
                Err(e) => addr + len > self.machine().mem.len() && e == EmulatorError::Execution(
                    ExecError::MemoryAccess(addr),
                ),
            },
    {
        let a = addr as usize;
        let n = len as usize;
        if a > self.mem.len() || n > self.mem.len() - a {
            return Err(EmulatorError::Execution(ExecError::MemoryAccess(addr)));
        }
        let mlen = self.mem.len();
        let mut v: Vec<u8> = Vec::new();
        let mut k: usize = 0;
        assert(v@ =~= self.mem@.subrange(a as int, a as int));
        while k < n
            invariant
                k <= n,
                a == addr,
                n == len,
                mlen == self.mem@.len(),
                a + n <= mlen,
                v@ == self.mem@.subrange(a as int, a + k),
            decreases n - k,
        {
            v.push(self.mem[a + k]);
            k = k + 1;
            assert(v@ =~= self.mem@.subrange(a as int, a + k));
        }
        Ok(v)
    }

    /// The NUL-terminated string at `addr`, without its NUL, for a
    /// `print_string` system call; fails when memory ends before a NUL.
    pub fn read_cstr(&self, addr: u32) -> (r: Result<Vec<u8>, EmulatorError>)
        ensures
            match r {
                Ok(v) => {
                    &&& addr + v@.len() < self.machine().mem.len()
                    &&& self.machine().mem[addr + v@.len()] == 0
                    &&& v@ == self.machine().mem.subrange(addr as int, addr + v@.len())
                    &&& forall|j: int| 0 <= j < v@.len() ==> v@[j] != 0
                },
                Err(e) => {
                    &&& e == EmulatorError::Execution(ExecError::MemoryAccess(addr))
                    &&& forall|j: int|
                        addr <= j < self.machine().mem.len() ==> self.machine().mem[j] != 0
                },
            },
    {
        let a = addr as usize;
        let mut v: Vec<u8> = Vec::new();
        if a >= self.mem.len() {
            return Err(EmulatorError::Execution(ExecError::MemoryAccess(addr)));
        }
        let mut k: usize = a;
        assert(v@ =~= self.mem@.subrange(a as int, a as int));
        while k < self.mem.len()
            invariant
                a == addr,
                a <= k <= self.mem@.len(),
                v@ == self.mem@.subrange(a as int, k as int),
                forall|j: int| a <= j < k ==> self.mem@[j] != 0,
            decreases self.mem@.len() - k,
        {
            if self.mem[k] == 0 {
                assert forall|j: int| 0 <= j < v@.len() implies v@[j] != 0 by {
                    assert(v@[j] == self.mem@[a + j]);
                }
                return Ok(v);
            }
            v.push(self.mem[k]);
            k = k + 1;
            assert(v@ =~= self.mem@.subrange(a as int, k as int));
        }
        Err(EmulatorError::Execution(ExecError::MemoryAccess(addr)))
    }
}

impl Syscall {
    /// What a `write` system call returns in `a0`: the count written, or -1
    /// when the host write failed.
    pub fn write_result(written: Option<usize>) -> (r: u32)
        ensures
            r == match written {
                Some(n) => n as u32,
                None => 0xffff_ffff,
            },
    {
        match written {
            Some(n) => n as u32,
            None => 0xffff_ffff,
        }
    }
}

} // verus!
