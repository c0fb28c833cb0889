//! Registers: the 32 general-purpose registers and their numbering.
use vstd::prelude::*;

verus! {

/// The 32 general-purpose registers of RV32I, by ABI name.
#[allow(non_camel_case_types)]
#[derive(Clone, Copy, Debug, PartialEq, Eq, Structural)]
pub enum Reg {
    /// x0: hardwired to zero; writes are discarded
    zero,
    /// x1: return address
    ra,
    /// x2: stack pointer
    sp,
    /// x3: global pointer
    gp,
    /// x4: thread pointer
    tp,
    /// x5: temporary 0
    t0,
    /// x6: temporary 1
    t1,
    /// x7: temporary 2
    t2,
    /// x8: saved register 0 / frame pointer
    s0,
    /// x9: saved register 1
    s1,
    /// x10: argument 0 / return value 0
    a0,
    /// x11: argument 1 / return value 1
    a1,
    /// x12: argument 2
    a2,
    /// x13: argument 3
    a3,
    /// x14: argument 4
    a4,
    /// x15: argument 5
    a5,
    /// x16: argument 6
    a6,
    /// x17: argument 7
    a7,
    /// x18: saved register 2
    s2,
    /// x19: saved register 3
    s3,
    /// x20: saved register 4
    s4,
    /// x21: saved register 5
    s5,
    /// x22: saved register 6
    s6,
    /// x23: saved register 7
    s7,
    /// x24: saved register 8
    s8,
    /// x25: saved register 9
    s9,
    /// x26: saved register 10
    s10,
    /// x27: saved register 11
    s11,
    /// x28: temporary 3
    t3,
    /// x29: temporary 4
    t4,
    /// x30: temporary 5
    t5,
    /// x31: temporary 6
    t6,
}

impl Reg {
    /// The architectural number of the register (`x0`..`x31`).
    pub open spec fn spec_index(self) -> u32 {
        match self {
            Reg::zero => 0,
            Reg::ra => 1,
            Reg::sp => 2,
            Reg::gp => 3,
            Reg::tp => 4,
            Reg::t0 => 5,
            Reg::t1 => 6,
            Reg::t2 => 7,
            Reg::s0 => 8,
            Reg::s1 => 9,
            Reg::a0 => 10,
            Reg::a1 => 11,
            Reg::a2 => 12,
            Reg::a3 => 13,
            Reg::a4 => 14,
            Reg::a5 => 15,
            Reg::a6 => 16,
            Reg::a7 => 17,
            Reg::s2 => 18,
            Reg::s3 => 19,
            Reg::s4 => 20,
            Reg::s5 => 21,
            Reg::s6 => 22,
            Reg::s7 => 23,
            Reg::s8 => 24,
            Reg::s9 => 25,
            Reg::s10 => 26,
            Reg::s11 => 27,
            Reg::t3 => 28,
            Reg::t4 => 29,
            Reg::t5 => 30,
            Reg::t6 => 31,
        }
    }

    /// The register with architectural number `i`.
    pub open spec fn spec_from_index(i: u32) -> Reg
        recommends
            i < 32,
    {
        if i == 0 {
            Reg::zero
        } else if i == 1 {
            Reg::ra
        } else if i == 2 {
            Reg::sp
        } else if i == 3 {
            Reg::gp
        } else if i == 4 {
            Reg::tp
        } else if i == 5 {
            Reg::t0
        } else if i == 6 {
            Reg::t1
        } else if i == 7 {
            Reg::t2
        } else if i == 8 {
            Reg::s0
        } else if i == 9 {
            Reg::s1
        } else if i == 10 {
            Reg::a0
        } else if i == 11 {
            Reg::a1
        } else if i == 12 {
            Reg::a2
        } else if i == 13 {
            Reg::a3
        } else if i == 14 {
            Reg::a4
        } else if i == 15 {
            Reg::a5
        } else if i == 16 {
            Reg::a6
        } else if i == 17 {
            Reg::a7
        } else if i == 18 {
            Reg::s2
        } else if i == 19 {
            Reg::s3
        } else if i == 20 {
            Reg::s4
        } else if i == 21 {
            Reg::s5
        } else if i == 22 {
            Reg::s6
        } else if i == 23 {
            Reg::s7
        } else if i == 24 {
            Reg::s8
        } else if i == 25 {
            Reg::s9
        } else if i == 26 {
            Reg::s10
        } else if i == 27 {
            Reg::s11
        } else if i == 28 {
            Reg::t3
        } else if i == 29 {
            Reg::t4
        } else if i == 30 {
            Reg::t5
        } else {
            Reg::t6
        }
    }

    /// The architectural number of the register.
    pub fn index(self) -> (r: u32)
        ensures
            r == self.spec_index(),
            r < 32,
    {
        match self {
            Reg::zero => 0,
            Reg::ra => 1,
            Reg::sp => 2,
            Reg::gp => 3,
            Reg::tp => 4,
            Reg::t0 => 5,
            Reg::t1 => 6,
            Reg::t2 => 7,
            Reg::s0 => 8,
            Reg::s1 => 9,
            Reg::a0 => 10,
            Reg::a1 => 11,
            Reg::a2 => 12,
            Reg::a3 => 13,
            Reg::a4 => 14,
            Reg::a5 => 15,
            Reg::a6 => 16,
            Reg::a7 => 17,
            Reg::s2 => 18,
            Reg::s3 => 19,
            Reg::s4 => 20,
            Reg::s5 => 21,
            Reg::s6 => 22,
            Reg::s7 => 23,
            Reg::s8 => 24,
            Reg::s9 => 25,
            Reg::s10 => 26,
            Reg::s11 => 27,
            Reg::t3 => 28,
            Reg::t4 => 29,
            Reg::t5 => 30,
            Reg::t6 => 31,
        }
    }

    /// The register with architectural number `i`; numbers past 31 name no register.
    pub fn from_index(i: u32) -> (r: Reg)
        requires
            i < 32,
        ensures
            r == Reg::spec_from_index(i),
            r.spec_index() == i,
    {
        match i {
            0 => Reg::zero,
            1 => Reg::ra,
            2 => Reg::sp,
            3 => Reg::gp,
            4 => Reg::tp,
            5 => Reg::t0,
            6 => Reg::t1,
            7 => Reg::t2,
            8 => Reg::s0,
            9 => Reg::s1,
            10 => Reg::a0,
            11 => Reg::a1,
            12 => Reg::a2,
            13 => Reg::a3,
            14 => Reg::a4,
            15 => Reg::a5,
            16 => Reg::a6,
            17 => Reg::a7,
            18 => Reg::s2,
            19 => Reg::s3,
            20 => Reg::s4,
            21 => Reg::s5,
            22 => Reg::s6,
            23 => Reg::s7,
            24 => Reg::s8,
            25 => Reg::s9,
            26 => Reg::s10,
            27 => Reg::s11,
            28 => Reg::t3,
            29 => Reg::t4,
            30 => Reg::t5,
            _ => Reg::t6,
        }
    }

    /// The ABI name of the register.
    pub open spec fn spec_name(self) -> Seq<char> {
        match self {
            Reg::zero => "zero"@,
            Reg::ra => "ra"@,
            Reg::sp => "sp"@,
            Reg::gp => "gp"@,
            Reg::tp => "tp"@,
            Reg::t0 => "t0"@,
            Reg::t1 => "t1"@,
            Reg::t2 => "t2"@,
            Reg::s0 => "s0"@,
            Reg::s1 => "s1"@,
            Reg::a0 => "a0"@,
            Reg::a1 => "a1"@,
            Reg::a2 => "a2"@,
            Reg::a3 => "a3"@,
            Reg::a4 => "a4"@,
            Reg::a5 => "a5"@,
            Reg::a6 => "a6"@,
            Reg::a7 => "a7"@,
            Reg::s2 => "s2"@,
            Reg::s3 => "s3"@,
            Reg::s4 => "s4"@,
            Reg::s5 => "s5"@,
            Reg::s6 => "s6"@,
            Reg::s7 => "s7"@,
            Reg::s8 => "s8"@,
            Reg::s9 => "s9"@,
            Reg::s10 => "s10"@,
            Reg::s11 => "s11"@,
            Reg::t3 => "t3"@,
            Reg::t4 => "t4"@,
            Reg::t5 => "t5"@,
            Reg::t6 => "t6"@,
        }
    }

    /// The ABI name of the register, as an assembler writes it.
    pub fn name(self) -> (r: &'static str)
        ensures
            r@ == self.spec_name(),
    {
        match self {
            Reg::zero => "zero",
            Reg::ra => "ra",
            Reg::sp => "sp",
            Reg::gp => "gp",
            Reg::tp => "tp",
            Reg::t0 => "t0",
            Reg::t1 => "t1",
            Reg::t2 => "t2",
            Reg::s0 => "s0",
            Reg::s1 => "s1",
            Reg::a0 => "a0",
            Reg::a1 => "a1",
            Reg::a2 => "a2",
            Reg::a3 => "a3",
            Reg::a4 => "a4",
            Reg::a5 => "a5",
            Reg::a6 => "a6",
            Reg::a7 => "a7",
            Reg::s2 => "s2",
            Reg::s3 => "s3",
            Reg::s4 => "s4",
            Reg::s5 => "s5",
            Reg::s6 => "s6",
            Reg::s7 => "s7",
            Reg::s8 => "s8",
            Reg::s9 => "s9",
            Reg::s10 => "s10",
            Reg::s11 => "s11",
            Reg::t3 => "t3",
            Reg::t4 => "t4",
            Reg::t5 => "t5",
            Reg::t6 => "t6",
        }
    }

    /// Numbering and naming agree in both directions.
    pub proof fn lemma_index_round_trip(r: Reg, i: u32)
        ensures
            r.spec_index() < 32,
            Reg::spec_from_index(r.spec_index()) == r,
            i < 32 ==> Reg::spec_from_index(i).spec_index() == i,
    {
    }
}

impl From<Reg> for u32 {
    fn from(r: Reg) -> (n: u32) {
        r.index()
    }
}

impl vstd::std_specs::convert::FromSpecImpl<Reg> for u32 {
    open spec fn obeys_from_spec() -> bool {
        true
    }

    open spec fn from_spec(r: Reg) -> u32 {
        r.spec_index()
    }
}

} // verus!
