//! The CPU interpreter: register file, flags, program counter and stack
//! pointer, and the fetch-decode-execute engine over the memory bus.
//!
//! Decoding is a pure table from (prefixed?, opcode byte) to an instruction;
//! execution of each instruction is specified by a functional model
//! (`step_spec`) over a view of the whole machine: the registers plus the
//! 64KB address space. Every opcode without a table entry is a decode fault;
//! every access to an unmapped address is a memory fault. Both faults stop
//! the interpreter and report enough to diagnose offline (program counter,
//! opcode bytes, offending address); the interpreter never guesses a
//! continuation.

use crate::flags::{f_c, f_h, f_n, f_z, mk_f};
use crate::mem::{backed, read_u16_spec, write_u16_spec, Mem, MemFault};
use vstd::prelude::*;

verus! {

broadcast use crate::flags::lemma_mk_f;

/// Why the interpreter stopped: an opcode with no table entry (reported with
/// the program counter it was fetched at and whether it came from the
/// extended, prefixed table), or a memory access outside every backed region.
#[derive(Clone, Copy, Debug, PartialEq, Eq, Structural)]
pub enum Fault {
    Decode { pc: u16, prefixed: bool, opcode: u8 },
    Memory(MemFault),
}

/// The eight-bit registers an instruction can name (F is not addressable).
#[derive(Clone, Copy, Debug, PartialEq, Eq, Structural)]
pub enum Reg8Name {
    A,
    B,
    C,
    D,
    E,
    H,
    L,
}

/// The conditions a relative jump can be gated on.
#[derive(Clone, Copy, Debug, PartialEq, Eq, Structural)]
pub enum Condition {
    NZ,
    Z,
    NC,
    C,
}

/// Where an 8-bit load stores its value.
#[derive(Clone, Copy, Debug, PartialEq, Eq, Structural)]
pub enum Dst8 {
    Reg(Reg8Name),
    HlAddr,
}

/// Where an 8-bit load or arithmetic instruction takes its operand from: a
/// named register, the byte addressed by H:L, or the immediate byte after
/// the opcode.
#[derive(Clone, Copy, Debug, PartialEq, Eq, Structural)]
pub enum Src8 {
    Reg(Reg8Name),
    HlAddr,
    Imm8,
}

/// The 16-bit register pairs a push can name.
#[derive(Clone, Copy, Debug, PartialEq, Eq, Structural)]
pub enum Pair {
    Bc,
    De,
    Hl,
}

/// One decoded instruction.
#[derive(Clone, Copy, Debug, PartialEq, Eq, Structural)]
pub enum Instr {
    /// Advances PC by 1, no other effect.
    Nop,
    /// 8-bit load; never touches flags.
    Ld(Dst8, Src8),
    /// `(B:C) <- A`
    LdBcA,
    /// `(a16) <- A`
    LdA16A,
    /// `A <- (a16)`
    LdAA16,
    /// `(0xFF00 + a8) <- A`
    LdhA8A,
    /// `A <- (0xFF00 + a8)`
    LdhAA8,
    /// `SP <- d16`
    LdSpD16,
    /// `H:L <- d16`
    LdHlD16,
    /// `B:C <- d16`
    LdBcD16,
    /// `(H:L) <- A`, then `H:L <- H:L + 1`
    LdiHlA,
    /// 16-bit increment of H:L; no flags.
    IncHl,
    /// 16-bit decrement of B:C; no flags.
    DecBc,
    /// 8-bit increment; Carry untouched.
    Inc8(Reg8Name),
    /// 8-bit decrement; Carry untouched.
    Dec8(Reg8Name),
    Add(Src8),
    Sub(Src8),
    And(Src8),
    Xor(Src8),
    Or(Src8),
    Cp(Src8),
    /// Absolute jump to the 16-bit operand.
    Jp,
    /// Relative jump by a signed 8-bit displacement, optionally gated.
    Jr(Option<Condition>),
    Call,
    Ret,
    Push(Pair),
    /// Rotate-right of A: Carry takes the old bit 0, A is shifted right.
    Rrca,
    /// Interrupt disable: decodable, advances PC by 1, no other effect here.
    Di,
    /// Extended-table bit reset: clears bit 0 of A; no flags.
    Res0A,
}

// ---------------------------------------------------------------------------
// Flags
// ---------------------------------------------------------------------------

/// Whether a jump condition holds under the flag byte `f`.
pub open spec fn cond_holds(cond: Condition, f: u8) -> bool {
    match cond {
        Condition::NZ => !f_z(f),
        Condition::Z => f_z(f),
        Condition::NC => !f_c(f),
        Condition::C => f_c(f),
    }
}

// ---------------------------------------------------------------------------
// The machine view and its arithmetic
// ---------------------------------------------------------------------------

/// Reduction of an address computation into the 16-bit address space.
/// Defined for one wrap in either direction, which covers every computation
/// the interpreter makes (displacements and operand lengths are small).
pub open spec fn wrap16(x: int) -> u16 {
    if x < 0 {
        (x + 0x10000) as u16
    } else if x > 0xFFFF {
        (x - 0x10000) as u16
    } else {
        x as u16
    }
}

/// The signed value of a relative-jump displacement byte.
pub open spec fn jr_offset(d: u8) -> int {
    if d < 0x80 {
        d as int
    } else {
        d - 0x100
    }
}

/// The whole machine as the functional model sees it: the register file and
/// the 64KB address space.
#[verifier::ext_equal]
pub ghost struct CpuView {
    pub a: u8,
    pub f: u8,
    pub b: u8,
    pub c: u8,
    pub d: u8,
    pub e: u8,
    pub h: u8,
    pub l: u8,
    pub sp: u16,
    pub pc: u16,
    pub mem: Seq<u8>,
}

impl CpuView {
    /// The register file is well-formed: the low nibble of F is zero (only
    /// the four flag bits are meaningful) and the memory covers the whole
    /// address space.
    pub open spec fn wf(self) -> bool {
        &&& self.f & 0x0F == 0
        &&& self.mem.len() == 0x10000
    }

    /// The H:L pair read as a 16-bit value (high byte first).
    pub open spec fn hl(self) -> u16 {
        (self.h * 0x100 + self.l) as u16
    }

    /// The B:C pair read as a 16-bit value (high byte first).
    pub open spec fn bc(self) -> u16 {
        (self.b * 0x100 + self.c) as u16
    }

    /// The D:E pair read as a 16-bit value (high byte first).
    pub open spec fn de(self) -> u16 {
        (self.d * 0x100 + self.e) as u16
    }
}

/// The value of a named 8-bit register.
pub open spec fn reg8_get(s: CpuView, r: Reg8Name) -> u8 {
    match r {
        Reg8Name::A => s.a,
        Reg8Name::B => s.b,
        Reg8Name::C => s.c,
        Reg8Name::D => s.d,
        Reg8Name::E => s.e,
        Reg8Name::H => s.h,
        Reg8Name::L => s.l,
    }
}

/// The machine with one named 8-bit register replaced.
pub open spec fn reg8_set(s: CpuView, r: Reg8Name, v: u8) -> CpuView {
    match r {
        Reg8Name::A => CpuView { a: v, ..s },
        Reg8Name::B => CpuView { b: v, ..s },
        Reg8Name::C => CpuView { c: v, ..s },
        Reg8Name::D => CpuView { d: v, ..s },
        Reg8Name::E => CpuView { e: v, ..s },
        Reg8Name::H => CpuView { h: v, ..s },
        Reg8Name::L => CpuView { l: v, ..s },
    }
}

/// The value a push of the named pair stores.
pub open spec fn pair16_get(s: CpuView, p: Pair) -> u16 {
    match p {
        Pair::Bc => s.bc(),
        Pair::De => s.de(),
        Pair::Hl => s.hl(),
    }
}

// ---------------------------------------------------------------------------
// Decode: a pure table from (prefixed?, opcode) to an instruction
// ---------------------------------------------------------------------------

/// The decode table. `None` is a decode fault: execution must stop and
/// report the opcode, never skip or guess. The escape prefix byte 0xCB is
/// not itself an instruction; the fetch loop reads the following byte and
/// consults the table with `prefixed` set.
pub open spec fn decode_spec(prefixed: bool, opcode: u8) -> Option<Instr> {
    if prefixed {
        match opcode {
            0x87 => Some(Instr::Res0A),
            _ => None,
        }
    } else {
        match opcode {
            0x00 => Some(Instr::Nop),
            0x7F => Some(Instr::Ld(Dst8::Reg(Reg8Name::A), Src8::Reg(Reg8Name::A))),
            0x78 => Some(Instr::Ld(Dst8::Reg(Reg8Name::A), Src8::Reg(Reg8Name::B))),
            0x79 => Some(Instr::Ld(Dst8::Reg(Reg8Name::A), Src8::Reg(Reg8Name::C))),
            0x7A => Some(Instr::Ld(Dst8::Reg(Reg8Name::A), Src8::Reg(Reg8Name::D))),
            0x7B => Some(Instr::Ld(Dst8::Reg(Reg8Name::A), Src8::Reg(Reg8Name::E))),
            0x7C => Some(Instr::Ld(Dst8::Reg(Reg8Name::A), Src8::Reg(Reg8Name::H))),
            0x7D => Some(Instr::Ld(Dst8::Reg(Reg8Name::A), Src8::Reg(Reg8Name::L))),
            0x7E => Some(Instr::Ld(Dst8::Reg(Reg8Name::A), Src8::HlAddr)),
            0x40 => Some(Instr::Ld(Dst8::Reg(Reg8Name::B), Src8::Reg(Reg8Name::B))),
            0x41 => Some(Instr::Ld(Dst8::Reg(Reg8Name::B), Src8::Reg(Reg8Name::C))),
            0x42 => Some(Instr::Ld(Dst8::Reg(Reg8Name::B), Src8::Reg(Reg8Name::D))),
            0x43 => Some(Instr::Ld(Dst8::Reg(Reg8Name::B), Src8::Reg(Reg8Name::E))),
            0x44 => Some(Instr::Ld(Dst8::Reg(Reg8Name::B), Src8::Reg(Reg8Name::H))),
            0x45 => Some(Instr::Ld(Dst8::Reg(Reg8Name::B), Src8::Reg(Reg8Name::L))),
            0x46 => Some(Instr::Ld(Dst8::Reg(Reg8Name::B), Src8::HlAddr)),
            0x47 => Some(Instr::Ld(Dst8::Reg(Reg8Name::B), Src8::Reg(Reg8Name::A))),
            0x48 => Some(Instr::Ld(Dst8::Reg(Reg8Name::C), Src8::Reg(Reg8Name::B))),
            0x49 => Some(Instr::Ld(Dst8::Reg(Reg8Name::C), Src8::Reg(Reg8Name::C))),
            0x4A => Some(Instr::Ld(Dst8::Reg(Reg8Name::C), Src8::Reg(Reg8Name::D))),
            0x4B => Some(Instr::Ld(Dst8::Reg(Reg8Name::C), Src8::Reg(Reg8Name::E))),
            0x4C => Some(Instr::Ld(Dst8::Reg(Reg8Name::C), Src8::Reg(Reg8Name::H))),
            0x4D => Some(Instr::Ld(Dst8::Reg(Reg8Name::C), Src8::Reg(Reg8Name::L))),
            0x4E => Some(Instr::Ld(Dst8::Reg(Reg8Name::C), Src8::HlAddr)),
            0x50 => Some(Instr::Ld(Dst8::Reg(Reg8Name::D), Src8::Reg(Reg8Name::B))),
            0x51 => Some(Instr::Ld(Dst8::Reg(Reg8Name::D), Src8::Reg(Reg8Name::C))),
            0x52 => Some(Instr::Ld(Dst8::Reg(Reg8Name::D), Src8::Reg(Reg8Name::D))),
            0x53 => Some(Instr::Ld(Dst8::Reg(Reg8Name::D), Src8::Reg(Reg8Name::E))),
            0x54 => Some(Instr::Ld(Dst8::Reg(Reg8Name::D), Src8::Reg(Reg8Name::H))),
            0x55 => Some(Instr::Ld(Dst8::Reg(Reg8Name::D), Src8::Reg(Reg8Name::L))),
            0x56 => Some(Instr::Ld(Dst8::Reg(Reg8Name::D), Src8::HlAddr)),
            0x58 => Some(Instr::Ld(Dst8::Reg(Reg8Name::E), Src8::Reg(Reg8Name::B))),
            0x59 => Some(Instr::Ld(Dst8::Reg(Reg8Name::E), Src8::Reg(Reg8Name::C))),
            0x5A => Some(Instr::Ld(Dst8::Reg(Reg8Name::E), Src8::Reg(Reg8Name::D))),
            0x5B => Some(Instr::Ld(Dst8::Reg(Reg8Name::E), Src8::Reg(Reg8Name::E))),
            0x5C => Some(Instr::Ld(Dst8::Reg(Reg8Name::E), Src8::Reg(Reg8Name::H))),
            0x5D => Some(Instr::Ld(Dst8::Reg(Reg8Name::E), Src8::Reg(Reg8Name::L))),
            0x5E => Some(Instr::Ld(Dst8::Reg(Reg8Name::E), Src8::HlAddr)),
            0x60 => Some(Instr::Ld(Dst8::Reg(Reg8Name::H), Src8::Reg(Reg8Name::B))),
            0x61 => Some(Instr::Ld(Dst8::Reg(Reg8Name::H), Src8::Reg(Reg8Name::C))),
            0x62 => Some(Instr::Ld(Dst8::Reg(Reg8Name::H), Src8::Reg(Reg8Name::D))),
            0x63 => Some(Instr::Ld(Dst8::Reg(Reg8Name::H), Src8::Reg(Reg8Name::E))),
            0x64 => Some(Instr::Ld(Dst8::Reg(Reg8Name::H), Src8::Reg(Reg8Name::H))),
            0x65 => Some(Instr::Ld(Dst8::Reg(Reg8Name::H), Src8::Reg(Reg8Name::L))),
            0x66 => Some(Instr::Ld(Dst8::Reg(Reg8Name::H), Src8::HlAddr)),
            0x68 => Some(Instr::Ld(Dst8::Reg(Reg8Name::L), Src8::Reg(Reg8Name::B))),
            0x69 => Some(Instr::Ld(Dst8::Reg(Reg8Name::L), Src8::Reg(Reg8Name::C))),
            0x6A => Some(Instr::Ld(Dst8::Reg(Reg8Name::L), Src8::Reg(Reg8Name::D))),
            0x6B => Some(Instr::Ld(Dst8::Reg(Reg8Name::L), Src8::Reg(Reg8Name::E))),
            0x6C => Some(Instr::Ld(Dst8::Reg(Reg8Name::L), Src8::Reg(Reg8Name::H))),
            0x6D => Some(Instr::Ld(Dst8::Reg(Reg8Name::L), Src8::Reg(Reg8Name::L))),
            0x6E => Some(Instr::Ld(Dst8::Reg(Reg8Name::L), Src8::HlAddr)),
            0x70 => Some(Instr::Ld(Dst8::HlAddr, Src8::Reg(Reg8Name::B))),
            0x71 => Some(Instr::Ld(Dst8::HlAddr, Src8::Reg(Reg8Name::C))),
            0x72 => Some(Instr::Ld(Dst8::HlAddr, Src8::Reg(Reg8Name::D))),
            0x73 => Some(Instr::Ld(Dst8::HlAddr, Src8::Reg(Reg8Name::E))),
            0x74 => Some(Instr::Ld(Dst8::HlAddr, Src8::Reg(Reg8Name::H))),
            0x75 => Some(Instr::Ld(Dst8::HlAddr, Src8::Reg(Reg8Name::L))),
            0x36 => Some(Instr::Ld(Dst8::HlAddr, Src8::Imm8)),
            0x3E => Some(Instr::Ld(Dst8::Reg(Reg8Name::A), Src8::Imm8)),
            0x26 => Some(Instr::Ld(Dst8::Reg(Reg8Name::H), Src8::Imm8)),
            0x18 => Some(Instr::Jr(None)),
            0x20 => Some(Instr::Jr(Some(Condition::NZ))),
            0x28 => Some(Instr::Jr(Some(Condition::Z))),
            0x30 => Some(Instr::Jr(Some(Condition::NC))),
            0x38 => Some(Instr::Jr(Some(Condition::C))),
            0x80 => Some(Instr::Add(Src8::Reg(Reg8Name::B))),
            0x81 => Some(Instr::Add(Src8::Reg(Reg8Name::C))),
            0x82 => Some(Instr::Add(Src8::Reg(Reg8Name::D))),
            0x83 => Some(Instr::Add(Src8::Reg(Reg8Name::E))),
            0x84 => Some(Instr::Add(Src8::Reg(Reg8Name::H))),
            0x85 => Some(Instr::Add(Src8::Reg(Reg8Name::L))),
            0x86 => Some(Instr::Add(Src8::HlAddr)),
            0x87 => Some(Instr::Add(Src8::Reg(Reg8Name::A))),
            0xC6 => Some(Instr::Add(Src8::Imm8)),
            0x90 => Some(Instr::Sub(Src8::Reg(Reg8Name::B))),
            0x91 => Some(Instr::Sub(Src8::Reg(Reg8Name::C))),
            0x92 => Some(Instr::Sub(Src8::Reg(Reg8Name::D))),
            0x93 => Some(Instr::Sub(Src8::Reg(Reg8Name::E))),
            0x94 => Some(Instr::Sub(Src8::Reg(Reg8Name::H))),
            0x95 => Some(Instr::Sub(Src8::Reg(Reg8Name::L))),
            0x96 => Some(Instr::Sub(Src8::HlAddr)),
            0x97 => Some(Instr::Sub(Src8::Reg(Reg8Name::A))),
            0xD6 => Some(Instr::Sub(Src8::Imm8)),
            0xA0 => Some(Instr::And(Src8::Reg(Reg8Name::B))),
            0xA1 => Some(Instr::And(Src8::Reg(Reg8Name::C))),
            0xA2 => Some(Instr::And(Src8::Reg(Reg8Name::D))),
            0xA3 => Some(Instr::And(Src8::Reg(Reg8Name::E))),
            0xA4 => Some(Instr::And(Src8::Reg(Reg8Name::H))),
            0xA5 => Some(Instr::And(Src8::Reg(Reg8Name::L))),
            0xA6 => Some(Instr::And(Src8::HlAddr)),
            0xA7 => Some(Instr::And(Src8::Reg(Reg8Name::A))),
            0xE6 => Some(Instr::And(Src8::Imm8)),
            0xA8 => Some(Instr::Xor(Src8::Reg(Reg8Name::B))),
            0xA9 => Some(Instr::Xor(Src8::Reg(Reg8Name::C))),
            0xAA => Some(Instr::Xor(Src8::Reg(Reg8Name::D))),
            0xAB => Some(Instr::Xor(Src8::Reg(Reg8Name::E))),
            0xAC => Some(Instr::Xor(Src8::Reg(Reg8Name::H))),
            0xAD => Some(Instr::Xor(Src8::Reg(Reg8Name::L))),
            0xAE => Some(Instr::Xor(Src8::HlAddr)),
            0xAF => Some(Instr::Xor(Src8::Reg(Reg8Name::A))),
            0xEE => Some(Instr::Xor(Src8::Imm8)),
            0xB0 => Some(Instr::Or(Src8::Reg(Reg8Name::B))),
            0xB1 => Some(Instr::Or(Src8::Reg(Reg8Name::C))),
            0xB2 => Some(Instr::Or(Src8::Reg(Reg8Name::D))),
            0xB3 => Some(Instr::Or(Src8::Reg(Reg8Name::E))),
            0xB4 => Some(Instr::Or(Src8::Reg(Reg8Name::H))),
            0xB5 => Some(Instr::Or(Src8::Reg(Reg8Name::L))),
            0xB6 => Some(Instr::Or(Src8::HlAddr)),
            0xB7 => Some(Instr::Or(Src8::Reg(Reg8Name::A))),
            0xF6 => Some(Instr::Or(Src8::Imm8)),
            0xB8 => Some(Instr::Cp(Src8::Reg(Reg8Name::B))),
            0xB9 => Some(Instr::Cp(Src8::Reg(Reg8Name::C))),
            0xBA => Some(Instr::Cp(Src8::Reg(Reg8Name::D))),
            0xBB => Some(Instr::Cp(Src8::Reg(Reg8Name::E))),
            0xBC => Some(Instr::Cp(Src8::Reg(Reg8Name::H))),
            0xBD => Some(Instr::Cp(Src8::Reg(Reg8Name::L))),
            0xBE => Some(Instr::Cp(Src8::HlAddr)),
            0xBF => Some(Instr::Cp(Src8::Reg(Reg8Name::A))),
            0xFE => Some(Instr::Cp(Src8::Imm8)),
            0xC3 => Some(Instr::Jp),
            0x02 => Some(Instr::LdBcA),
            0xEA => Some(Instr::LdA16A),
            0xFA => Some(Instr::LdAA16),
            0xF3 => Some(Instr::Di),
            0x0F => Some(Instr::Rrca),
            0xE0 => Some(Instr::LdhA8A),
            0xCD => Some(Instr::Call),
            0xF0 => Some(Instr::LdhAA8),
            0xC9 => Some(Instr::Ret),
            0x31 => Some(Instr::LdSpD16),
            0x21 => Some(Instr::LdHlD16),
            0x01 => Some(Instr::LdBcD16),
            0x23 => Some(Instr::IncHl),
            0x0B => Some(Instr::DecBc),
            0x04 => Some(Instr::Inc8(Reg8Name::B)),
            0x22 => Some(Instr::LdiHlA),
            0x1D => Some(Instr::Dec8(Reg8Name::E)),
            0x15 => Some(Instr::Dec8(Reg8Name::D)),
            0x3D => Some(Instr::Dec8(Reg8Name::A)),
            0xE5 => Some(Instr::Push(Pair::Hl)),
            0xD5 => Some(Instr::Push(Pair::De)),
            0xC5 => Some(Instr::Push(Pair::Bc)),
            _ => None,
        }
    }
}

// ---------------------------------------------------------------------------
// The functional model of execution
// ---------------------------------------------------------------------------

/// Reading one byte through the bus, in the model.
pub open spec fn view_read8(s: CpuView, addr: u16) -> Result<u8, Fault> {
    if backed(addr) {
        Ok(s.mem[addr as int])
    } else {
        Err(Fault::Memory(MemFault { addr, write: false }))
    }
}

/// Writing one byte through the bus, in the model. A faulting write changes
/// nothing.
pub open spec fn view_write8(s: CpuView, addr: u16, v: u8) -> Result<CpuView, Fault> {
    if backed(addr) {
        Ok(CpuView { mem: s.mem.update(addr as int, v), ..s })
    } else {
        Err(Fault::Memory(MemFault { addr, write: true }))
    }
}

/// Reading a little-endian 16-bit word through the bus, in the model.
pub open spec fn view_read16(s: CpuView, addr: u16) -> Result<u16, Fault> {
    match read_u16_spec(s.mem, addr) {
        Ok(v) => Ok(v),
        Err(f) => Err(Fault::Memory(f)),
    }
}

/// Writing a little-endian 16-bit word through the bus, in the model.
pub open spec fn view_write16(s: CpuView, addr: u16, v: u16) -> Result<CpuView, Fault> {
    match write_u16_spec(s.mem, addr, v) {
        Ok(m) => Ok(CpuView { mem: m, ..s }),
        Err(f) => Err(Fault::Memory(f)),
    }
}

/// Pushing a 16-bit value: SP moves down by 2, then the value is stored at
/// the new SP. The stack pointer running off the bottom of the address space
/// is a memory fault at the address the push would have wrapped to, never a
/// silent wrap.
pub open spec fn push16_spec(s: CpuView, v: u16) -> Result<CpuView, Fault> {
    if s.sp < 2 {
        Err(Fault::Memory(MemFault { addr: wrap16(s.sp - 2), write: true }))
    } else {
        view_write16(CpuView { sp: (s.sp - 2) as u16, ..s }, (s.sp - 2) as u16, v)
    }
}

/// Popping a 16-bit value: the word at SP is read, then SP moves up by 2.
/// The stack pointer running off the top of the address space is a memory
/// fault at the address it would have wrapped to.
pub open spec fn pop16_spec(s: CpuView) -> Result<(u16, CpuView), Fault> {
    if s.sp >= 0xFFFE {
        Err(Fault::Memory(MemFault { addr: wrap16(s.sp + 2), write: false }))
    } else {
        match read_u16_spec(s.mem, s.sp) {
            Ok(v) => Ok((v, CpuView { sp: (s.sp + 2) as u16, ..s })),
            Err(f) => Err(Fault::Memory(f)),
        }
    }
}

/// Pushing one byte: SP moves down by 1, then the byte is stored at the new
/// SP; the same wrap policy as the 16-bit push.
pub open spec fn push8_spec(s: CpuView, v: u8) -> Result<CpuView, Fault> {
    if s.sp < 1 {
        Err(Fault::Memory(MemFault { addr: wrap16(s.sp - 1), write: true }))
    } else {
        view_write8(CpuView { sp: (s.sp - 1) as u16, ..s }, (s.sp - 1) as u16, v)
    }
}

/// Popping one byte: the byte at SP is read, then SP moves up by 1; the same
/// wrap policy as the 16-bit pop.
pub open spec fn pop8_spec(s: CpuView) -> Result<(u8, CpuView), Fault> {
    if s.sp >= 0xFFFF {
        Err(Fault::Memory(MemFault { addr: wrap16(s.sp + 1), write: false }))
    } else {
        match view_read8(s, s.sp) {
            Ok(v) => Ok((v, CpuView { sp: (s.sp + 1) as u16, ..s })),
            Err(f) => Err(f),
        }
    }
}

/// The accumulator after an 8-bit add: modular arithmetic, no overflow fault.
pub open spec fn alu_add_a(a: u8, v: u8) -> u8 {
    if a + v > 0xFF {
        (a + v - 0x100) as u8
    } else {
        (a + v) as u8
    }
}

/// The flags after an 8-bit add: Zero iff the result is 0, Subtract clear,
/// Half-carry iff the low nibbles carried out of bit 3, Carry iff the
/// unsigned sum overflowed 8 bits.
pub open spec fn alu_add_f(a: u8, v: u8) -> u8 {
    mk_f(alu_add_a(a, v) == 0, false, a % 0x10 + v % 0x10 > 0xF, a + v > 0xFF)
}

/// The result of an 8-bit subtract: modular arithmetic, no underflow fault.
pub open spec fn alu_sub_a(a: u8, v: u8) -> u8 {
    (if a >= v {
        a - v
    } else {
        a - v + 0x100
    }) as u8
}

/// The flags after an 8-bit subtract or compare: Zero iff the operands are
/// equal, Subtract always set, Half-carry iff the low nibble borrowed,
/// Carry iff the unsigned subtraction underflowed (`a < v`).
pub open spec fn alu_sub_f(a: u8, v: u8) -> u8 {
    mk_f(a == v, true, a % 0x10 < v % 0x10, a < v)
}

/// How long the encoding of an instruction with this operand source is.
pub open spec fn src8_len(src: Src8) -> int {
    if src is Imm8 {
        2
    } else {
        1
    }
}

/// The operand an 8-bit instruction reads: a register, the byte at H:L, or
/// the immediate byte after the opcode.
pub open spec fn src8_read(s: CpuView, src: Src8) -> Result<u8, Fault> {
    match src {
        Src8::Reg(r) => Ok(reg8_get(s, r)),
        Src8::HlAddr => view_read8(s, s.hl()),
        Src8::Imm8 => view_read8(s, wrap16(s.pc + 1)),
    }
}

/// The machine with H:L replaced by a 16-bit value.
pub open spec fn set_hl(s: CpuView, v: u16) -> CpuView {
    CpuView { h: (v / 0x100) as u8, l: (v % 0x100) as u8, ..s }
}

/// The machine with B:C replaced by a 16-bit value.
pub open spec fn set_bc(s: CpuView, v: u16) -> CpuView {
    CpuView { b: (v / 0x100) as u8, c: (v % 0x100) as u8, ..s }
}

/// The machine after an ALU instruction that leaves `a` in the accumulator
/// and `f` in the flags, with PC advanced past the operand.
pub open spec fn alu_result(s: CpuView, src: Src8, a: u8, f: u8) -> CpuView {
    CpuView { a, f, pc: wrap16(s.pc + src8_len(src)), ..s }
}

/// The defined effect of one decoded instruction on the whole machine, with
/// PC still at the opcode. `Err` is a fault; a faulting instruction changes
/// nothing (the machine is left exactly as it was).
pub open spec fn exec_spec(s: CpuView, instr: Instr) -> Result<CpuView, Fault> {
    match instr {
        Instr::Nop => Ok(CpuView { pc: wrap16(s.pc + 1), ..s }),
        Instr::Ld(dst, src) => match src8_read(s, src) {
            Err(f) => Err(f),
            Ok(v) => {
                let pc = wrap16(s.pc + src8_len(src));
                match dst {
                    Dst8::Reg(r) => Ok(CpuView { pc, ..reg8_set(s, r, v) }),
                    Dst8::HlAddr => match view_write8(s, s.hl(), v) {
                        Err(f) => Err(f),
                        Ok(s2) => Ok(CpuView { pc, ..s2 }),
                    },
                }
            },
        },
        Instr::LdBcA => match view_write8(s, s.bc(), s.a) {
            Err(f) => Err(f),
            Ok(s2) => Ok(CpuView { pc: wrap16(s.pc + 1), ..s2 }),
        },
        Instr::LdA16A => match view_read16(s, wrap16(s.pc + 1)) {
            Err(f) => Err(f),
            Ok(addr) => match view_write8(s, addr, s.a) {
                Err(f) => Err(f),
                Ok(s2) => Ok(CpuView { pc: wrap16(s.pc + 3), ..s2 }),
            },
        },
        Instr::LdAA16 => match view_read16(s, wrap16(s.pc + 1)) {
            Err(f) => Err(f),
            Ok(addr) => match view_read8(s, addr) {
                Err(f) => Err(f),
                Ok(v) => Ok(CpuView { a: v, pc: wrap16(s.pc + 3), ..s }),
            },
        },
        Instr::LdhA8A => match view_read8(s, wrap16(s.pc + 1)) {
            Err(f) => Err(f),
            Ok(off) => match view_write8(s, (0xFF00 + off) as u16, s.a) {
                Err(f) => Err(f),
                Ok(s2) => Ok(CpuView { pc: wrap16(s.pc + 2), ..s2 }),
            },
        },
        Instr::LdhAA8 => match view_read8(s, wrap16(s.pc + 1)) {
            Err(f) => Err(f),
            Ok(off) => match view_read8(s, (0xFF00 + off) as u16) {
                Err(f) => Err(f),
                Ok(v) => Ok(CpuView { a: v, pc: wrap16(s.pc + 2), ..s }),
            },
        },
        Instr::LdSpD16 => match view_read16(s, wrap16(s.pc + 1)) {
            Err(f) => Err(f),
            Ok(v) => Ok(CpuView { sp: v, pc: wrap16(s.pc + 3), ..s }),
        },
        Instr::LdHlD16 => match view_read16(s, wrap16(s.pc + 1)) {
            Err(f) => Err(f),
            Ok(v) => Ok(CpuView { pc: wrap16(s.pc + 3), ..set_hl(s, v) }),
        },
        Instr::LdBcD16 => match view_read16(s, wrap16(s.pc + 1)) {
            Err(f) => Err(f),
            Ok(v) => Ok(CpuView { pc: wrap16(s.pc + 3), ..set_bc(s, v) }),
        },
        Instr::LdiHlA => match view_write8(s, s.hl(), s.a) {
            Err(f) => Err(f),
            Ok(s2) => Ok(
                CpuView { pc: wrap16(s.pc + 1), ..set_hl(s2, wrap16(s.hl() + 1)) },
            ),
        },
        Instr::IncHl => Ok(CpuView { pc: wrap16(s.pc + 1), ..set_hl(s, wrap16(s.hl() + 1)) }),
        Instr::DecBc => Ok(CpuView { pc: wrap16(s.pc + 1), ..set_bc(s, wrap16(s.bc() - 1)) }),
        Instr::Inc8(r) => {
            let v = reg8_get(s, r);
            let nv = alu_add_a(v, 1);
            let nf = mk_f(nv == 0, false, v % 0x10 == 0xF, f_c(s.f));
            Ok(CpuView { f: nf, pc: wrap16(s.pc + 1), ..reg8_set(s, r, nv) })
        },
        Instr::Dec8(r) => {
            let v = reg8_get(s, r);
            let nv = alu_sub_a(v, 1);
            let nf = mk_f(nv == 0, true, v % 0x10 == 0, f_c(s.f));
            Ok(CpuView { f: nf, pc: wrap16(s.pc + 1), ..reg8_set(s, r, nv) })
        },
        Instr::Add(src) => match src8_read(s, src) {
            Err(f) => Err(f),
            Ok(v) => Ok(alu_result(s, src, alu_add_a(s.a, v), alu_add_f(s.a, v))),
        },
        Instr::Sub(src) => match src8_read(s, src) {
            Err(f) => Err(f),
            Ok(v) => Ok(alu_result(s, src, alu_sub_a(s.a, v), alu_sub_f(s.a, v))),
        },
        Instr::And(src) => match src8_read(s, src) {
            Err(f) => Err(f),
            Ok(v) => Ok(alu_result(s, src, s.a & v, mk_f(s.a & v == 0, false, true, false))),
        },
        Instr::Xor(src) => match src8_read(s, src) {
            Err(f) => Err(f),
            Ok(v) => Ok(alu_result(s, src, s.a ^ v, mk_f(s.a ^ v == 0, false, false, false))),
        },
        Instr::Or(src) => match src8_read(s, src) {
            Err(f) => Err(f),
            Ok(v) => Ok(alu_result(s, src, s.a | v, mk_f(s.a | v == 0, false, false, false))),
        },
        Instr::Cp(src) => match src8_read(s, src) {
            Err(f) => Err(f),
            Ok(v) => Ok(
                CpuView { f: alu_sub_f(s.a, v), pc: wrap16(s.pc + src8_len(src)), ..s },
            ),
        },
        Instr::Jp => match view_read16(s, wrap16(s.pc + 1)) {
            Err(f) => Err(f),
            Ok(t) => Ok(CpuView { pc: t, ..s }),
        },
        Instr::Jr(cond) => match view_read8(s, wrap16(s.pc + 1)) {
            Err(f) => Err(f),
            Ok(d) => {
                let taken = match cond {
                    None => true,
                    Some(c) => cond_holds(c, s.f),
                };
                if taken {
                    Ok(CpuView { pc: wrap16(s.pc + 2 + jr_offset(d)), ..s })
                } else {
                    Ok(CpuView { pc: wrap16(s.pc + 2), ..s })
                }
            },
        },
        Instr::Call => match view_read16(s, wrap16(s.pc + 1)) {
            Err(f) => Err(f),
            Ok(t) => match push16_spec(s, wrap16(s.pc + 3)) {
                Err(f) => Err(f),
                Ok(s2) => Ok(CpuView { pc: t, ..s2 }),
            },
        },
        Instr::Ret => match pop16_spec(s) {
            Err(f) => Err(f),
            Ok((v, s2)) => Ok(CpuView { pc: v, ..s2 }),
        },
        Instr::Push(p) => match push16_spec(s, pair16_get(s, p)) {
            Err(f) => Err(f),
            Ok(s2) => Ok(CpuView { pc: wrap16(s.pc + 1), ..s2 }),
        },
        Instr::Rrca => {
            let nf = mk_f(s.a / 2 == 0, false, false, s.a % 2 == 1);
            Ok(CpuView { a: s.a / 2, f: nf, pc: wrap16(s.pc + 1), ..s })
        },
        Instr::Di => Ok(CpuView { pc: wrap16(s.pc + 1), ..s }),
        Instr::Res0A => Ok(CpuView { a: s.a & 0xFE, pc: wrap16(s.pc + 2), ..s }),
    }
}

/// The effect of dispatching one fetched opcode byte: the escape prefix
/// fetches the following byte and consults the extended table; everything
/// else goes through the primary table. An opcode without a table entry is a
/// decode fault reporting the opcode byte and the PC it was fetched at.
pub open spec fn opcode_exec_spec(s: CpuView, opcode: u8) -> Result<CpuView, Fault> {
    if opcode == 0xCB {
        match view_read8(s, wrap16(s.pc + 1)) {
            Err(f) => Err(f),
            Ok(op2) => match decode_spec(true, op2) {
                Some(instr) => exec_spec(s, instr),
                None => Err(Fault::Decode { pc: s.pc, prefixed: true, opcode: op2 }),
            },
        }
    } else {
        match decode_spec(false, opcode) {
            Some(instr) => exec_spec(s, instr),
            None => Err(Fault::Decode { pc: s.pc, prefixed: false, opcode }),
        }
    }
}

/// One full fetch-decode-execute step of the machine.
pub open spec fn step_spec(s: CpuView) -> Result<CpuView, Fault> {
    match view_read8(s, s.pc) {
        Err(f) => Err(f),
        Ok(opcode) => opcode_exec_spec(s, opcode),
    }
}

/// The machine with the fixed ROM bank replaced by the first 16KB of a
/// cartridge image and everything else untouched.
pub open spec fn loaded_view(s: CpuView, rom: Seq<u8>) -> CpuView {
    CpuView {
        mem: Seq::new(
            0x10000,
            |i: int|
                if i < 0x4000 {
                    rom[i]
                } else {
                    s.mem[i]
                },
        ),
        ..s
    }
}

/// The machine `s1` is reached from `s0` by exactly `n` successful steps of
/// the functional model.
pub open spec fn steps_to(s0: CpuView, s1: CpuView, n: nat) -> bool
    decreases n,
{
    if n == 0 {
        s0 == s1
    } else {
        step_spec(s0) matches Ok(m) && steps_to(m, s1, (n - 1) as nat)
    }
}

/// Reachability extends by one further successful step.
pub proof fn lemma_steps_to_snoc(s0: CpuView, s1: CpuView, s2: CpuView, n: nat)
    requires
        steps_to(s0, s1, n),
        step_spec(s1) == Ok::<CpuView, Fault>(s2),
    ensures
        steps_to(s0, s2, n + 1),
    decreases n,
{
    if n == 0 {
        assert(steps_to(s2, s2, 0));
        assert(steps_to(s1, s2, 1));
    } else {
        let m = step_spec(s0)->Ok_0;
        lemma_steps_to_snoc(m, s1, s2, (n - 1) as nat);
    }
}

/// What the run loop promises: on a fault (`Some`) the final machine is
/// reachable from the start in fewer steps than the budget and faults on its
/// next step; with the budget exhausted (`None`) the final machine is
/// reached by exactly the budgeted number of steps.
pub open spec fn run_post(start: CpuView, end: CpuView, r: Option<Fault>, max_steps: u64) -> bool {
    match r {
        Some(f) => exists|n: nat|
            n < max_steps && steps_to(start, end, n) && step_spec(end) == Err::<CpuView, Fault>(f),
        None => steps_to(start, end, max_steps as nat),
    }
}

/// What every instruction handler promises: on success the machine moved
/// exactly as the functional model says; on a fault the model faults the
/// same way and the machine is untouched.
pub open spec fn follows_spec(pre: CpuView, post: CpuView, instr: Instr, r: Result<
    (),
    Fault,
>) -> bool {
    match r {
        Ok(()) => exec_spec(pre, instr) == Ok::<CpuView, Fault>(post),
        Err(f) => exec_spec(pre, instr) == Err::<CpuView, Fault>(f) && post == pre,
    }
}

/// The printable name of an 8-bit register.
pub open spec fn reg8_string_spec(r: Reg8Name) -> Seq<char> {
    match r {
        Reg8Name::A => "A"@,
        Reg8Name::B => "B"@,
        Reg8Name::C => "C"@,
        Reg8Name::D => "D"@,
        Reg8Name::E => "E"@,
        Reg8Name::H => "H"@,
        Reg8Name::L => "L"@,
    }
}

/// The printable name of a jump condition.
pub open spec fn cond_string_spec(cond: Condition) -> Seq<char> {
    match cond {
        Condition::NZ => "NZ"@,
        Condition::Z => "Z"@,
        Condition::NC => "NC"@,
        Condition::C => "C"@,
    }
}

// ---------------------------------------------------------------------------
// The interpreter
// ---------------------------------------------------------------------------

/// The CPU: the eight 8-bit registers (paired as A:F, B:C, D:E, H:L), the
/// 16-bit stack pointer and program counter, and the memory bus it executes
/// over. Created once with the documented power-on values; mutated only by
/// instruction execution.
pub struct Cpu {
    a: u8,
    f: u8,
    b: u8,
    c: u8,
    d: u8,
    e: u8,
    h: u8,
    l: u8,
    sp: u16,
    pc: u16,
    mem: Mem,
}

impl View for Cpu {
    type V = CpuView;

    closed spec fn view(&self) -> CpuView {
        CpuView {
            a: self.a,
            f: self.f,
            b: self.b,
            c: self.c,
            d: self.d,
            e: self.e,
            h: self.h,
            l: self.l,
            sp: self.sp,
            pc: self.pc,
            mem: self.mem@,
        }
    }
}

impl Cpu {
    /// The bus regions have their fixed sizes and the register file is
    /// well-formed (the low nibble of F is zero). Established at power-on and
    /// preserved by every instruction.
    pub closed spec fn wf(&self) -> bool {
        &&& self.mem.wf()
        &&& self@.wf()
    }

    /// A CPU with the documented power-on state: all 8-bit registers zero,
    /// SP at 0xFFFE, PC at 0x0100, every backed memory region zero-filled.
    pub fn new() -> (r: Cpu)
        ensures
            r.wf(),
            r@.a == 0 && r@.f == 0 && r@.b == 0 && r@.c == 0,
            r@.d == 0 && r@.e == 0 && r@.h == 0 && r@.l == 0,
            r@.sp == 0xFFFE,
            r@.pc == 0x0100,
            forall|i: int| 0 <= i < 0x10000 ==> r@.mem[i] == 0u8,
    {
        proof {
            assert(0u8 & 0x0F == 0) by (bit_vector);
        }
        Cpu {
            a: 0x0,
            f: 0x0,
            b: 0x0,
            c: 0x0,
            d: 0x0,
            e: 0x0,
            h: 0x0,
            l: 0x0,
            sp: 0xFFFE,
            pc: 0x100,
            mem: Mem::new(),
        }
    }

    /// The printable name of an 8-bit register.
    pub fn reg8_string(&self, reg_name: &Reg8Name) -> (r: &str)
        ensures
            r@ == reg8_string_spec(*reg_name),
    {
        match reg_name {
            Reg8Name::A => "A",
            Reg8Name::B => "B",
            Reg8Name::C => "C",
            Reg8Name::D => "D",
            Reg8Name::E => "E",
            Reg8Name::H => "H",
            Reg8Name::L => "L",
        }
    }

    /// The value of a named 8-bit register.
    pub fn reg8_read(&self, reg_name: Reg8Name) -> (r: u8)
        ensures
            r == reg8_get(self@, reg_name),
    {
        match reg_name {
            Reg8Name::A => self.a,
            Reg8Name::B => self.b,
            Reg8Name::C => self.c,
            Reg8Name::D => self.d,
            Reg8Name::E => self.e,
            Reg8Name::H => self.h,
            Reg8Name::L => self.l,
        }
    }

    /// Replaces a named 8-bit register; nothing else changes.
    pub fn reg8_write(&mut self, reg_name: Reg8Name, value: u8)
        ensures
            final(self)@ == reg8_set(old(self)@, reg_name, value),
            old(self).wf() ==> final(self).wf(),
    {
        let reg = match reg_name {
            Reg8Name::A => &mut self.a,
            Reg8Name::B => &mut self.b,
            Reg8Name::C => &mut self.c,
            Reg8Name::D => &mut self.d,
            Reg8Name::E => &mut self.e,
            Reg8Name::H => &mut self.h,
            Reg8Name::L => &mut self.l,
        };
        *reg = value;
    }

    /// The printable name of a jump condition.
    pub fn cond_string(&self, cond: &Condition) -> (r: &str)
        ensures
            r@ == cond_string_spec(*cond),
    {
        match cond {
            Condition::NZ => "NZ",
            Condition::Z => "Z",
            Condition::NC => "NC",
            Condition::C => "C",
        }
    }

    /// Whether a jump condition holds under the current flags.
    pub fn cond_eval(&self, cond: Condition) -> (r: bool)
        ensures
            r == cond_holds(cond, self@.f),
    {
        match cond {
            Condition::NZ => !self.is_f_zero(),
            Condition::Z => self.is_f_zero(),
            Condition::NC => !self.is_f_carry(),
            Condition::C => self.is_f_carry(),
        }
    }

    /// Whether the Zero flag is set.
    pub fn is_f_zero(&self) -> (r: bool)
        ensures
            r == f_z(self@.f),
    {
        (self.f & 0x80u8) == 0x80u8
    }

    /// Sets the Zero flag; the other flags and the low nibble are untouched.
    pub fn set_f_zero(&mut self)
        ensures
            final(self)@ == (CpuView { f: old(self)@.f | 0x80u8, ..old(self)@ }),
            f_z(final(self)@.f),
            f_n(final(self)@.f) == f_n(old(self)@.f),
            f_h(final(self)@.f) == f_h(old(self)@.f),
            f_c(final(self)@.f) == f_c(old(self)@.f),
            final(self)@.f & 0x0F == old(self)@.f & 0x0F,
    {
        let f = self.f;
        proof {
            assert((f | 0x80) & 0x80 == 0x80 && (f | 0x80) & 0x40 == f & 0x40 && (f | 0x80) & 0x20
                == f & 0x20 && (f | 0x80) & 0x10 == f & 0x10 && (f | 0x80) & 0x0F == f
                & 0x0F) by (bit_vector);
        }
        self.f = f | 0x80u8;
    }

    /// Clears the Zero flag; the other flags and the low nibble are
    /// untouched.
    pub fn reset_f_zero(&mut self)
        ensures
            final(self)@ == (CpuView { f: old(self)@.f & 0x7Fu8, ..old(self)@ }),
            !f_z(final(self)@.f),
            f_n(final(self)@.f) == f_n(old(self)@.f),
            f_h(final(self)@.f) == f_h(old(self)@.f),
            f_c(final(self)@.f) == f_c(old(self)@.f),
            final(self)@.f & 0x0F == old(self)@.f & 0x0F,
    {
        let f = self.f;
        proof {
            assert((f & 0x7F) & 0x80 != 0x80 && (f & 0x7F) & 0x40 == f & 0x40 && (f & 0x7F) & 0x20
                == f & 0x20 && (f & 0x7F) & 0x10 == f & 0x10 && (f & 0x7F) & 0x0F == f
                & 0x0F) by (bit_vector);
        }
        self.f = f & 0x7Fu8;
    }

    /// Whether the Subtract flag is set.
    pub fn is_f_subtraction(&self) -> (r: bool)
        ensures
            r == f_n(self@.f),
    {
        (self.f & 0x40u8) == 0x40u8
    }

    /// Sets the Subtract flag; the other flags and the low nibble are
    /// untouched.
    pub fn set_f_subtraction(&mut self)
        ensures
            final(self)@ == (CpuView { f: old(self)@.f | 0x40u8, ..old(self)@ }),
            f_n(final(self)@.f),
            f_z(final(self)@.f) == f_z(old(self)@.f),
            f_h(final(self)@.f) == f_h(old(self)@.f),
            f_c(final(self)@.f) == f_c(old(self)@.f),
            final(self)@.f & 0x0F == old(self)@.f & 0x0F,
    {
        let f = self.f;
        proof {
            assert((f | 0x40) & 0x40 == 0x40 && (f | 0x40) & 0x80 == f & 0x80 && (f | 0x40) & 0x20
                == f & 0x20 && (f | 0x40) & 0x10 == f & 0x10 && (f | 0x40) & 0x0F == f
                & 0x0F) by (bit_vector);
        }
        self.f = f | 0x40u8;
    }

    /// Clears the Subtract flag; the other flags and the low nibble are
    /// untouched.
    pub fn reset_f_subtraction(&mut self)
        ensures
            final(self)@ == (CpuView { f: old(self)@.f & 0xBFu8, ..old(self)@ }),
            !f_n(final(self)@.f),
            f_z(final(self)@.f) == f_z(old(self)@.f),
            f_h(final(self)@.f) == f_h(old(self)@.f),
            f_c(final(self)@.f) == f_c(old(self)@.f),
            final(self)@.f & 0x0F == old(self)@.f & 0x0F,
    {
        let f = self.f;
        proof {
            assert((f & 0xBF) & 0x40 != 0x40 && (f & 0xBF) & 0x80 == f & 0x80 && (f & 0xBF) & 0x20
                == f & 0x20 && (f & 0xBF) & 0x10 == f & 0x10 && (f & 0xBF) & 0x0F == f
                & 0x0F) by (bit_vector);
        }
        self.f = f & 0xBFu8;
    }

    /// Whether the Half-carry flag is set.
    pub fn is_f_halfcarry(&self) -> (r: bool)
        ensures
            r == f_h(self@.f),
    {
        (self.f & 0x20u8) == 0x20u8
    }

    /// Sets the Half-carry flag; the other flags and the low nibble are
    /// untouched.
    pub fn set_f_halfcarry(&mut self)
        ensures
            final(self)@ == (CpuView { f: old(self)@.f | 0x20u8, ..old(self)@ }),
            f_h(final(self)@.f),
            f_z(final(self)@.f) == f_z(old(self)@.f),
            f_n(final(self)@.f) == f_n(old(self)@.f),
            f_c(final(self)@.f) == f_c(old(self)@.f),
            final(self)@.f & 0x0F == old(self)@.f & 0x0F,
    {
        let f = self.f;
        proof {
            assert((f | 0x20) & 0x20 == 0x20 && (f | 0x20) & 0x80 == f & 0x80 && (f | 0x20) & 0x40
                == f & 0x40 && (f | 0x20) & 0x10 == f & 0x10 && (f | 0x20) & 0x0F == f
                & 0x0F) by (bit_vector);
        }
        self.f = f | 0x20u8;
    }

    /// Clears the Half-carry flag; the other flags and the low nibble are
    /// untouched.
    pub fn reset_f_halfcarry(&mut self)
        ensures
            final(self)@ == (CpuView { f: old(self)@.f & 0xDFu8, ..old(self)@ }),
            !f_h(final(self)@.f),
            f_z(final(self)@.f) == f_z(old(self)@.f),
            f_n(final(self)@.f) == f_n(old(self)@.f),
            f_c(final(self)@.f) == f_c(old(self)@.f),
            final(self)@.f & 0x0F == old(self)@.f & 0x0F,
    {
        let f = self.f;
        proof {
            assert((f & 0xDF) & 0x20 != 0x20 && (f & 0xDF) & 0x80 == f & 0x80 && (f & 0xDF) & 0x40
                == f & 0x40 && (f & 0xDF) & 0x10 == f & 0x10 && (f & 0xDF) & 0x0F == f
                & 0x0F) by (bit_vector);
        }
        self.f = f & 0xDFu8;
    }

    /// Whether the Carry flag is set.
    pub fn is_f_carry(&self) -> (r: bool)
        ensures
            r == f_c(self@.f),
    {
        (self.f & 0x10u8) == 0x10u8
    }

    /// Sets the Carry flag; the other flags and the low nibble are untouched.
    pub fn set_f_carry(&mut self)
        ensures
            final(self)@ == (CpuView { f: old(self)@.f | 0x10u8, ..old(self)@ }),
            f_c(final(self)@.f),
            f_z(final(self)@.f) == f_z(old(self)@.f),
            f_n(final(self)@.f) == f_n(old(self)@.f),
            f_h(final(self)@.f) == f_h(old(self)@.f),
            final(self)@.f & 0x0F == old(self)@.f & 0x0F,
    {
        let f = self.f;
        proof {
            assert((f | 0x10) & 0x10 == 0x10 && (f | 0x10) & 0x80 == f & 0x80 && (f | 0x10) & 0x40
                == f & 0x40 && (f | 0x10) & 0x20 == f & 0x20 && (f | 0x10) & 0x0F == f
                & 0x0F) by (bit_vector);
        }
        self.f = f | 0x10u8;
    }

    /// Clears the Carry flag; the other flags and the low nibble are
    /// untouched.
    pub fn reset_f_carry(&mut self)
        ensures
            final(self)@ == (CpuView { f: old(self)@.f & 0xEFu8, ..old(self)@ }),
            !f_c(final(self)@.f),
            f_z(final(self)@.f) == f_z(old(self)@.f),
            f_n(final(self)@.f) == f_n(old(self)@.f),
            f_h(final(self)@.f) == f_h(old(self)@.f),
            final(self)@.f & 0x0F == old(self)@.f & 0x0F,
    {
        let f = self.f;
        proof {
            assert((f & 0xEF) & 0x10 != 0x10 && (f & 0xEF) & 0x80 == f & 0x80 && (f & 0xEF) & 0x40
                == f & 0x40 && (f & 0xEF) & 0x20 == f & 0x20 && (f & 0xEF) & 0x0F == f
                & 0x0F) by (bit_vector);
        }
        self.f = f & 0xEFu8;
    }

    /// One byte read through the bus.
    fn bus_read8(&self, addr: u16) -> (r: Result<u8, Fault>)
        requires
            self.wf(),
        ensures
            r == view_read8(self@, addr),
    {
        match self.mem.read_u8(addr) {
            Ok(v) => Ok(v),
            Err(f) => Err(Fault::Memory(f)),
        }
    }

    /// One byte written through the bus; a faulting write changes nothing.
    fn bus_write8(&mut self, addr: u16, v: u8) -> (r: Result<(), Fault>)
        requires
            old(self).wf(),
        ensures
            final(self).wf(),
            match r {
                Ok(()) => view_write8(old(self)@, addr, v) == Ok::<CpuView, Fault>(final(self)@),
                Err(f) => view_write8(old(self)@, addr, v) == Err::<CpuView, Fault>(f) && final(self)@
                    == old(self)@,
            },
    {
        match self.mem.write_u8(addr, v) {
            Ok(()) => Ok(()),
            Err(f) => Err(Fault::Memory(f)),
        }
    }

    /// One little-endian word read through the bus.
    fn bus_read16(&self, addr: u16) -> (r: Result<u16, Fault>)
        requires
            self.wf(),
        ensures
            r == view_read16(self@, addr),
    {
        match self.mem.read_u16(addr) {
            Ok(v) => Ok(v),
            Err(f) => Err(Fault::Memory(f)),
        }
    }

    /// One little-endian word written through the bus; a faulting write
    /// changes nothing.
    fn bus_write16(&mut self, addr: u16, v: u16) -> (r: Result<(), Fault>)
        requires
            old(self).wf(),
        ensures
            final(self).wf(),
            match r {
                Ok(()) => view_write16(old(self)@, addr, v) == Ok::<CpuView, Fault>(final(self)@),
                Err(f) => view_write16(old(self)@, addr, v) == Err::<CpuView, Fault>(f) && final(self)@
                    == old(self)@,
            },
    {
        match self.mem.write_u16(addr, v) {
            Ok(()) => Ok(()),
            Err(f) => Err(Fault::Memory(f)),
        }
    }

    /// The byte addressed by the H:L pair.
    pub fn read_hladdr_u8(&self) -> (r: Result<u8, Fault>)
        requires
            self.wf(),
        ensures
            r == view_read8(self@, self@.hl()),
    {
        let addr = crate::util::u16_from_2u8s((self.l, self.h));
        self.bus_read8(addr)
    }

    /// Stores a byte at the address held in the H:L pair.
    pub fn write_hladdr_u8(&mut self, value: u8) -> (r: Result<(), Fault>)
        requires
            old(self).wf(),
        ensures
            final(self).wf(),
            match r {
                Ok(()) => view_write8(old(self)@, old(self)@.hl(), value) == Ok::<CpuView, Fault>(
                    final(self)@,
                ),
                Err(f) => view_write8(old(self)@, old(self)@.hl(), value) == Err::<CpuView, Fault>(
                    f,
                ) && final(self)@ == old(self)@,
            },
    {
        let addr = crate::util::u16_from_2u8s((self.l, self.h));
        self.bus_write8(addr, value)
    }

    /// 16-bit increment of the H:L pair, wrapping; registers only.
    fn inc_hl_(&mut self)
        ensures
            final(self)@ == set_hl(old(self)@, wrap16(old(self)@.hl() + 1)),
            old(self).wf() ==> final(self).wf(),
    {
        let value = crate::util::u16_from_2u8s((self.l, self.h)).wrapping_add(1);
        let bytes = crate::util::u16_to_2u8s(value);
        self.h = bytes.0;
        self.l = bytes.1;
    }

    /// Pushes one byte: SP moves down by 1, the byte goes to the new SP. The
    /// stack pointer running off the bottom of the address space is a fault,
    /// never a silent wrap.
    pub fn push_stack_u8(&mut self, value: u8) -> (r: Result<(), Fault>)
        requires
            old(self).wf(),
        ensures
            final(self).wf(),
            match r {
                Ok(()) => push8_spec(old(self)@, value) == Ok::<CpuView, Fault>(final(self)@),
                Err(f) => push8_spec(old(self)@, value) == Err::<CpuView, Fault>(f) && final(self)@
                    == old(self)@,
            },
    {
        if self.sp < 1 {
            return Err(Fault::Memory(MemFault { addr: self.sp.wrapping_sub(1), write: true }));
        }
        let nsp = self.sp - 1;
        self.sp = nsp;
        match self.bus_write8(nsp, value) {
            Ok(()) => Ok(()),
            Err(f) => {
                self.sp = nsp + 1;
                Err(f)
            },
        }
    }

    /// Pushes a 16-bit value: SP moves down by 2, the value is stored at the
    /// new SP (low byte first). The stack pointer running off the bottom of
    /// the address space is a fault, never a silent wrap.
    pub fn push_stack_u16(&mut self, value: u16) -> (r: Result<(), Fault>)
        requires
            old(self).wf(),
        ensures
            final(self).wf(),
            match r {
                Ok(()) => push16_spec(old(self)@, value) == Ok::<CpuView, Fault>(final(self)@),
                Err(f) => push16_spec(old(self)@, value) == Err::<CpuView, Fault>(f) && final(self)@
                    == old(self)@,
            },
    {
        if self.sp < 2 {
            return Err(Fault::Memory(MemFault { addr: self.sp.wrapping_sub(2), write: true }));
        }
        let nsp = self.sp - 2;
        self.sp = nsp;
        match self.bus_write16(nsp, value) {
            Ok(()) => Ok(()),
            Err(f) => {
                self.sp = nsp + 2;
                Err(f)
            },
        }
    }

    /// Pops one byte: the byte at SP is read, then SP moves up by 1. The
    /// stack pointer running off the top of the address space is a fault,
    /// never a silent wrap.
    pub fn pop_stack_u8(&mut self) -> (r: Result<u8, Fault>)
        requires
            old(self).wf(),
        ensures
            final(self).wf(),
            match r {
                Ok(v) => pop8_spec(old(self)@) == Ok::<(u8, CpuView), Fault>((v, final(self)@)),
                Err(f) => pop8_spec(old(self)@) == Err::<(u8, CpuView), Fault>(f) && final(self)@
                    == old(self)@,
            },
    {
        if self.sp >= 0xFFFF {
            return Err(Fault::Memory(MemFault { addr: self.sp.wrapping_add(1), write: false }));
        }
        let popped = self.bus_read8(self.sp)?;
        self.sp = self.sp + 1;
        Ok(popped)
    }

    /// Pops a 16-bit value: the word at SP is read (low byte first), then SP
    /// moves up by 2. The stack pointer running off the top of the address
    /// space is a fault, never a silent wrap.
    pub fn pop_stack_u16(&mut self) -> (r: Result<u16, Fault>)
        requires
            old(self).wf(),
        ensures
            final(self).wf(),
            match r {
                Ok(v) => pop16_spec(old(self)@) == Ok::<(u16, CpuView), Fault>((v, final(self)@)),
                Err(f) => pop16_spec(old(self)@) == Err::<(u16, CpuView), Fault>(f) && final(self)@
                    == old(self)@,
            },
    {
        if self.sp >= 0xFFFE {
            return Err(Fault::Memory(MemFault { addr: self.sp.wrapping_add(2), write: false }));
        }
        let popped = self.bus_read16(self.sp)?;
        self.sp = self.sp + 2;
        Ok(popped)
    }

    /// A flag byte built from the four flag bits.
    fn mk_flags(z: bool, n: bool, h: bool, c: bool) -> (r: u8)
        ensures
            r == mk_f(z, n, h, c),
    {
        (if z {
            0x80u8
        } else {
            0u8
        }) | (if n {
            0x40u8
        } else {
            0u8
        }) | (if h {
            0x20u8
        } else {
            0u8
        }) | (if c {
            0x10u8
        } else {
            0u8
        })
    }

    /// The operand of an 8-bit instruction: a register, the byte at H:L, or
    /// the immediate byte after the opcode.
    fn src8_value(&self, src: Src8) -> (r: Result<u8, Fault>)
        requires
            self.wf(),
        ensures
            r == src8_read(self@, src),
    {
        match src {
            Src8::Reg(rn) => Ok(self.reg8_read(rn)),
            Src8::HlAddr => self.read_hladdr_u8(),
            Src8::Imm8 => self.bus_read8(self.pc.wrapping_add(1)),
        }
    }

    /// NOP: advances PC by 1, nothing else.
    fn nop(&mut self)
        requires
            old(self).wf(),
        ensures
            final(self).wf(),
            exec_spec(old(self)@, Instr::Nop) == Ok::<CpuView, Fault>(final(self)@),
    {
        self.pc = self.pc.wrapping_add(1);
    }

    /// DI: interrupt behaviour is out of scope; decodes and advances PC by 1.
    fn di(&mut self)
        requires
            old(self).wf(),
        ensures
            final(self).wf(),
            exec_spec(old(self)@, Instr::Di) == Ok::<CpuView, Fault>(final(self)@),
    {
        self.pc = self.pc.wrapping_add(1);
    }

    /// JP a16: sets PC to the 16-bit operand.
    fn jump_nn(&mut self) -> (r: Result<(), Fault>)
        requires
            old(self).wf(),
        ensures
            final(self).wf(),
            follows_spec(old(self)@, final(self)@, Instr::Jp, r),
    {
        let t = self.bus_read16(self.pc.wrapping_add(1))?;
        self.pc = t;
        Ok(())
    }

    /// 8-bit load: copies the operand into the destination; never touches
    /// flags; advances PC by the encoded length.
    fn ld(&mut self, dst: Dst8, src: Src8) -> (r: Result<(), Fault>)
        requires
            old(self).wf(),
        ensures
            final(self).wf(),
            follows_spec(old(self)@, final(self)@, Instr::Ld(dst, src), r),
    {
        let v = match self.src8_value(src) {
            Ok(v) => v,
            Err(f) => return Err(f),
        };
        let len: u16 = match src {
            Src8::Imm8 => 2,
            _ => 1,
        };
        match dst {
            Dst8::Reg(rn) => {
                self.reg8_write(rn, v);
            },
            Dst8::HlAddr => {
                match self.write_hladdr_u8(v) {
                    Ok(()) => {},
                    Err(f) => return Err(f),
                }
            },
        }
        self.pc = self.pc.wrapping_add(len);
        Ok(())
    }

    /// ADD A,src: modular 8-bit add into the accumulator; all four flags
    /// recomputed (Zero from the result, Subtract clear, Half-carry from the
    /// low nibbles, Carry from the unsigned overflow).
    fn add(&mut self, src: Src8) -> (r: Result<(), Fault>)
        requires
            old(self).wf(),
        ensures
            final(self).wf(),
            follows_spec(old(self)@, final(self)@, Instr::Add(src), r),
    {
        let a = self.a;
        let v = match self.src8_value(src) {
            Ok(v) => v,
            Err(f) => return Err(f),
        };
        let len: u16 = match src {
            Src8::Imm8 => 2,
            _ => 1,
        };
        let nv = a.wrapping_add(v);
        self.a = nv;
        self.f = Self::mk_flags(nv == 0, false, a % 0x10 + v % 0x10 > 0xF, a as u16 + v as u16 > 0xFF);
        self.pc = self.pc.wrapping_add(len);
        Ok(())
    }

    /// SUB A,src: modular 8-bit subtract from the accumulator; Zero iff the
    /// operands were equal, Subtract set, Half-carry from the low-nibble
    /// borrow, Carry iff the operand was larger (unsigned).
    fn sub(&mut self, src: Src8) -> (r: Result<(), Fault>)
        requires
            old(self).wf(),
        ensures
            final(self).wf(),
            follows_spec(old(self)@, final(self)@, Instr::Sub(src), r),
    {
        let a = self.a;
        let v = match self.src8_value(src) {
            Ok(v) => v,
            Err(f) => return Err(f),
        };
        let len: u16 = match src {
            Src8::Imm8 => 2,
            _ => 1,
        };
        self.a = a.wrapping_sub(v);
        self.f = Self::mk_flags(a == v, true, a % 0x10 < v % 0x10, a < v);
        self.pc = self.pc.wrapping_add(len);
        Ok(())
    }

    /// CP src: compare by computing accumulator-minus-operand for the flags
    /// only; the accumulator is unchanged, the flags follow the subtract
    /// rule.
    fn cp(&mut self, src: Src8) -> (r: Result<(), Fault>)
        requires
            old(self).wf(),
        ensures
            final(self).wf(),
            follows_spec(old(self)@, final(self)@, Instr::Cp(src), r),
    {
        let a = self.a;
        let v = match self.src8_value(src) {
            Ok(v) => v,
            Err(f) => return Err(f),
        };
        let len: u16 = match src {
            Src8::Imm8 => 2,
            _ => 1,
        };
        self.f = Self::mk_flags(a == v, true, a % 0x10 < v % 0x10, a < v);
        self.pc = self.pc.wrapping_add(len);
        Ok(())
    }

    /// AND src: bitwise and into the accumulator; Zero from the result,
    /// Half-carry always set, Subtract and Carry always clear.
    fn and(&mut self, src: Src8) -> (r: Result<(), Fault>)
        requires
            old(self).wf(),
        ensures
            final(self).wf(),
            follows_spec(old(self)@, final(self)@, Instr::And(src), r),
    {
        let a = self.a;
        let v = match self.src8_value(src) {
            Ok(v) => v,
            Err(f) => return Err(f),
        };
        let len: u16 = match src {
            Src8::Imm8 => 2,
            _ => 1,
        };
        let nv = a & v;
        self.a = nv;
        self.f = Self::mk_flags(nv == 0, false, true, false);
        self.pc = self.pc.wrapping_add(len);
        Ok(())
    }

    /// XOR src: bitwise exclusive-or into the accumulator; Zero from the
    /// result, every other flag clear.
    fn xor(&mut self, src: Src8) -> (r: Result<(), Fault>)
        requires
            old(self).wf(),
        ensures
            final(self).wf(),
            follows_spec(old(self)@, final(self)@, Instr::Xor(src), r),
    {
        let a = self.a;
        let v = match self.src8_value(src) {
            Ok(v) => v,
            Err(f) => return Err(f),
        };
        let len: u16 = match src {
            Src8::Imm8 => 2,
            _ => 1,
        };
        let nv = a ^ v;
        self.a = nv;
        self.f = Self::mk_flags(nv == 0, false, false, false);
        self.pc = self.pc.wrapping_add(len);
        Ok(())
    }

    /// OR src: bitwise or into the accumulator; Zero from the result, every
    /// other flag clear.
    fn or(&mut self, src: Src8) -> (r: Result<(), Fault>)
        requires
            old(self).wf(),
        ensures
            final(self).wf(),
            follows_spec(old(self)@, final(self)@, Instr::Or(src), r),
    {
        let a = self.a;
        let v = match self.src8_value(src) {
            Ok(v) => v,
            Err(f) => return Err(f),
        };
        let len: u16 = match src {
            Src8::Imm8 => 2,
            _ => 1,
        };
        let nv = a | v;
        self.a = nv;
        self.f = Self::mk_flags(nv == 0, false, false, false);
        self.pc = self.pc.wrapping_add(len);
        Ok(())
    }

    /// 8-bit increment of a register: Zero and Half-carry recomputed,
    /// Subtract cleared, Carry untouched.
    fn inc8(&mut self, rn: Reg8Name)
        requires
            old(self).wf(),
        ensures
            final(self).wf(),
            exec_spec(old(self)@, Instr::Inc8(rn)) == Ok::<CpuView, Fault>(final(self)@),
    {
        let v = self.reg8_read(rn);
        let c = self.is_f_carry();
        let nv = v.wrapping_add(1);
        self.reg8_write(rn, nv);
        self.f = Self::mk_flags(nv == 0, false, v % 0x10 == 0xF, c);
        self.pc = self.pc.wrapping_add(1);
    }

    /// 8-bit decrement of a register: Zero and Half-carry recomputed,
    /// Subtract set, Carry untouched.
    fn dec8(&mut self, rn: Reg8Name)
        requires
            old(self).wf(),
        ensures
            final(self).wf(),
            exec_spec(old(self)@, Instr::Dec8(rn)) == Ok::<CpuView, Fault>(final(self)@),
    {
        let v = self.reg8_read(rn);
        let c = self.is_f_carry();
        let nv = v.wrapping_sub(1);
        self.reg8_write(rn, nv);
        self.f = Self::mk_flags(nv == 0, true, v % 0x10 == 0, c);
        self.pc = self.pc.wrapping_add(1);
    }

    /// RRCA: the Carry flag takes the old bit 0 of A, A is shifted right one
    /// bit, Zero is recomputed from the result, Subtract and Half-carry are
    /// cleared.
    fn rrca(&mut self)
        requires
            old(self).wf(),
        ensures
            final(self).wf(),
            exec_spec(old(self)@, Instr::Rrca) == Ok::<CpuView, Fault>(final(self)@),
    {
        let a = self.a;
        let na = a / 2;
        self.a = na;
        self.f = Self::mk_flags(na == 0, false, false, a % 2 == 1);
        self.pc = self.pc.wrapping_add(1);
    }

    /// RES 0,A (extended table): clears bit 0 of A; flags untouched; PC
    /// advances past the prefix and the opcode.
    fn cb_res_0_a(&mut self)
        requires
            old(self).wf(),
        ensures
            final(self).wf(),
            exec_spec(old(self)@, Instr::Res0A) == Ok::<CpuView, Fault>(final(self)@),
    {
        self.a = self.a & 0xFE;
        self.pc = self.pc.wrapping_add(2);
    }

    /// LD (BC),A: stores the accumulator at the address held in B:C.
    fn ld_bc_a(&mut self) -> (r: Result<(), Fault>)
        requires
            old(self).wf(),
        ensures
            final(self).wf(),
            follows_spec(old(self)@, final(self)@, Instr::LdBcA, r),
    {
        let addr = crate::util::u16_from_2u8s((self.c, self.b));
        let a = self.a;
        self.bus_write8(addr, a)?;
        self.pc = self.pc.wrapping_add(1);
        Ok(())
    }

    /// LD (a16),A: stores the accumulator at the direct 16-bit address.
    fn ld_a16_a(&mut self) -> (r: Result<(), Fault>)
        requires
            old(self).wf(),
        ensures
            final(self).wf(),
            follows_spec(old(self)@, final(self)@, Instr::LdA16A, r),
    {
        let addr = self.bus_read16(self.pc.wrapping_add(1))?;
        let a = self.a;
        self.bus_write8(addr, a)?;
        self.pc = self.pc.wrapping_add(3);
        Ok(())
    }

    /// LD A,(a16): loads the accumulator from the direct 16-bit address.
    fn ld_a_a16(&mut self) -> (r: Result<(), Fault>)
        requires
            old(self).wf(),
        ensures
            final(self).wf(),
            follows_spec(old(self)@, final(self)@, Instr::LdAA16, r),
    {
        let addr = self.bus_read16(self.pc.wrapping_add(1))?;
        let v = self.bus_read8(addr)?;
        self.a = v;
        self.pc = self.pc.wrapping_add(3);
        Ok(())
    }

    /// LDH (a8),A: stores the accumulator at 0xFF00 plus the zero-page
    /// offset operand.
    fn ldh_a8_a(&mut self) -> (r: Result<(), Fault>)
        requires
            old(self).wf(),
        ensures
            final(self).wf(),
            follows_spec(old(self)@, final(self)@, Instr::LdhA8A, r),
    {
        let off = self.bus_read8(self.pc.wrapping_add(1))?;
        let a = self.a;
        self.bus_write8(0xFF00 + off as u16, a)?;
        self.pc = self.pc.wrapping_add(2);
        Ok(())
    }

    /// LDH A,(a8): loads the accumulator from 0xFF00 plus the zero-page
    /// offset operand.
    fn ldh_a_a8(&mut self) -> (r: Result<(), Fault>)
        requires
            old(self).wf(),
        ensures
            final(self).wf(),
            follows_spec(old(self)@, final(self)@, Instr::LdhAA8, r),
    {
        let off = self.bus_read8(self.pc.wrapping_add(1))?;
        let v = self.bus_read8(0xFF00 + off as u16)?;
        self.a = v;
        self.pc = self.pc.wrapping_add(2);
        Ok(())
    }

    /// LD SP,d16: loads the stack pointer with the immediate word.
    fn ld_sp_d16(&mut self) -> (r: Result<(), Fault>)
        requires
            old(self).wf(),
        ensures
            final(self).wf(),
            follows_spec(old(self)@, final(self)@, Instr::LdSpD16, r),
    {
        let operand = self.bus_read16(self.pc.wrapping_add(1))?;
        self.sp = operand;
        self.pc = self.pc.wrapping_add(3);
        Ok(())
    }

    /// LD HL,d16: loads the H:L pair with the immediate word.
    fn ld_hl_d16(&mut self) -> (r: Result<(), Fault>)
        requires
            old(self).wf(),
        ensures
            final(self).wf(),
            follows_spec(old(self)@, final(self)@, Instr::LdHlD16, r),
    {
        let operand = self.bus_read16(self.pc.wrapping_add(1))?;
        let bytes = crate::util::u16_to_2u8s(operand);
        self.h = bytes.0;
        self.l = bytes.1;
        self.pc = self.pc.wrapping_add(3);
        Ok(())
    }

    /// LD BC,d16: loads the B:C pair with the immediate word.
    fn ld_bc_d16(&mut self) -> (r: Result<(), Fault>)
        requires
            old(self).wf(),
        ensures
            final(self).wf(),
            follows_spec(old(self)@, final(self)@, Instr::LdBcD16, r),
    {
        let operand = self.bus_read16(self.pc.wrapping_add(1))?;
        let bytes = crate::util::u16_to_2u8s(operand);
        self.b = bytes.0;
        self.c = bytes.1;
        self.pc = self.pc.wrapping_add(3);
        Ok(())
    }

    /// LDI (HL),A: stores the accumulator at the address in H:L, then
    /// increments H:L.
    fn ldi_hl_a(&mut self) -> (r: Result<(), Fault>)
        requires
            old(self).wf(),
        ensures
            final(self).wf(),
            follows_spec(old(self)@, final(self)@, Instr::LdiHlA, r),
    {
        let a = self.a;
        self.write_hladdr_u8(a)?;
        self.inc_hl_();
        self.pc = self.pc.wrapping_add(1);
        Ok(())
    }

    /// INC HL: 16-bit increment of the H:L pair, wrapping; no flags.
    fn inc_hl(&mut self)
        requires
            old(self).wf(),
        ensures
            final(self).wf(),
            exec_spec(old(self)@, Instr::IncHl) == Ok::<CpuView, Fault>(final(self)@),
    {
        self.inc_hl_();
        self.pc = self.pc.wrapping_add(1);
    }

    /// DEC BC: 16-bit decrement of the B:C pair, wrapping; no flags.
    fn dec_bc(&mut self)
        requires
            old(self).wf(),
        ensures
            final(self).wf(),
            exec_spec(old(self)@, Instr::DecBc) == Ok::<CpuView, Fault>(final(self)@),
    {
        let value = crate::util::u16_from_2u8s((self.c, self.b)).wrapping_sub(1);
        let bytes = crate::util::u16_to_2u8s(value);
        self.b = bytes.0;
        self.c = bytes.1;
        self.pc = self.pc.wrapping_add(1);
    }

    /// JR [cc,]r8: if the condition holds (or there is none), PC becomes the
    /// address just past the 2-byte encoding plus the signed displacement;
    /// otherwise PC simply advances past the instruction.
    fn jr(&mut self, condition: Option<Condition>) -> (r: Result<(), Fault>)
        requires
            old(self).wf(),
        ensures
            final(self).wf(),
            follows_spec(old(self)@, final(self)@, Instr::Jr(condition), r),
    {
        let d = self.bus_read8(self.pc.wrapping_add(1))?;
        let satisfied = match condition {
            Some(cond) => self.cond_eval(cond),
            None => true,
        };
        let pc2 = self.pc.wrapping_add(2);
        if satisfied {
            if d < 0x80 {
                self.pc = pc2.wrapping_add(d as u16);
            } else {
                self.pc = pc2.wrapping_sub(0x100 - d as u16);
            }
        } else {
            self.pc = pc2;
        }
        Ok(())
    }

    /// CALL a16: pushes the address of the following instruction, then jumps
    /// to the 16-bit operand.
    fn call(&mut self) -> (r: Result<(), Fault>)
        requires
            old(self).wf(),
        ensures
            final(self).wf(),
            follows_spec(old(self)@, final(self)@, Instr::Call, r),
    {
        let addr = self.bus_read16(self.pc.wrapping_add(1))?;
        let next = self.pc.wrapping_add(3);
        self.push_stack_u16(next)?;
        self.pc = addr;
        Ok(())
    }

    /// RET: pops a 16-bit value off the stack into PC.
    fn ret(&mut self) -> (r: Result<(), Fault>)
        requires
            old(self).wf(),
        ensures
            final(self).wf(),
            follows_spec(old(self)@, final(self)@, Instr::Ret, r),
    {
        let v = self.pop_stack_u16()?;
        self.pc = v;
        Ok(())
    }

    /// PUSH rr: pushes the named register pair as a 16-bit value.
    fn push_rr(&mut self, pair: Pair) -> (r: Result<(), Fault>)
        requires
            old(self).wf(),
        ensures
            final(self).wf(),
            follows_spec(old(self)@, final(self)@, Instr::Push(pair), r),
    {
        let value = match pair {
            Pair::Bc => crate::util::u16_from_2u8s((self.c, self.b)),
            Pair::De => crate::util::u16_from_2u8s((self.e, self.d)),
            Pair::Hl => crate::util::u16_from_2u8s((self.l, self.h)),
        };
        self.push_stack_u16(value)?;
        self.pc = self.pc.wrapping_add(1);
        Ok(())
    }

    /// Executes one decoded instruction.
    fn exec_instr(&mut self, instr: Instr) -> (r: Result<(), Fault>)
        requires
            old(self).wf(),
        ensures
            final(self).wf(),
            follows_spec(old(self)@, final(self)@, instr, r),
    {
        match instr {
            Instr::Nop => {
                self.nop();
                Ok(())
            },
            Instr::Ld(dst, src) => self.ld(dst, src),
            Instr::LdBcA => self.ld_bc_a(),
            Instr::LdA16A => self.ld_a16_a(),
            Instr::LdAA16 => self.ld_a_a16(),
            Instr::LdhA8A => self.ldh_a8_a(),
            Instr::LdhAA8 => self.ldh_a_a8(),
            Instr::LdSpD16 => self.ld_sp_d16(),
            Instr::LdHlD16 => self.ld_hl_d16(),
            Instr::LdBcD16 => self.ld_bc_d16(),
            Instr::LdiHlA => self.ldi_hl_a(),
            Instr::IncHl => {
                self.inc_hl();
                Ok(())
            },
            Instr::DecBc => {
                self.dec_bc();
                Ok(())
            },
            Instr::Inc8(rn) => {
                self.inc8(rn);
                Ok(())
            },
            Instr::Dec8(rn) => {
                self.dec8(rn);
                Ok(())
            },
            Instr::Add(src) => self.add(src),
            Instr::Sub(src) => self.sub(src),
            Instr::And(src) => self.and(src),
            Instr::Xor(src) => self.xor(src),
            Instr::Or(src) => self.or(src),
            Instr::Cp(src) => self.cp(src),
            Instr::Jp => self.jump_nn(),
            Instr::Jr(cond) => self.jr(cond),
            Instr::Call => self.call(),
            Instr::Ret => self.ret(),
            Instr::Push(pair) => self.push_rr(pair),
            Instr::Rrca => {
                self.rrca();
                Ok(())
            },
            Instr::Di => {
                self.di();
                Ok(())
            },
            Instr::Res0A => {
                self.cb_res_0_a();
                Ok(())
            },
        }
    }

    /// Dispatches one fetched opcode byte: the escape prefix 0xCB fetches
    /// the following byte and consults the extended table; anything without
    /// a table entry is a decode fault reporting the opcode and the PC.
    fn opcode_exec(&mut self, opcode: u8) -> (r: Result<(), Fault>)
        requires
            old(self).wf(),
        ensures
            final(self).wf(),
            match r {
                Ok(()) => opcode_exec_spec(old(self)@, opcode) == Ok::<CpuView, Fault>(
                    final(self)@,
                ),
                Err(f) => opcode_exec_spec(old(self)@, opcode) == Err::<CpuView, Fault>(f)
                    && final(self)@ == old(self)@,
            },
    {
        if opcode == 0xCB {
            let op2 = self.bus_read8(self.pc.wrapping_add(1))?;
            match decode(true, op2) {
                Some(instr) => self.exec_instr(instr),
                None => Err(Fault::Decode { pc: self.pc, prefixed: true, opcode: op2 }),
            }
        } else {
            match decode(false, opcode) {
                Some(instr) => self.exec_instr(instr),
                None => Err(Fault::Decode { pc: self.pc, prefixed: false, opcode }),
            }
        }
    }

    /// The accumulator.
    pub fn a(&self) -> (r: u8)
        ensures
            r == self@.a,
    {
        self.a
    }

    /// The flag byte.
    pub fn f(&self) -> (r: u8)
        ensures
            r == self@.f,
    {
        self.f
    }

    /// The B register.
    pub fn b(&self) -> (r: u8)
        ensures
            r == self@.b,
    {
        self.b
    }

    /// The C register.
    pub fn c(&self) -> (r: u8)
        ensures
            r == self@.c,
    {
        self.c
    }

    /// The D register.
    pub fn d(&self) -> (r: u8)
        ensures
            r == self@.d,
    {
        self.d
    }

    /// The E register.
    pub fn e(&self) -> (r: u8)
        ensures
            r == self@.e,
    {
        self.e
    }

    /// The H register.
    pub fn h(&self) -> (r: u8)
        ensures
            r == self@.h,
    {
        self.h
    }

    /// The L register.
    pub fn l(&self) -> (r: u8)
        ensures
            r == self@.l,
    {
        self.l
    }

    /// The stack pointer.
    pub fn sp(&self) -> (r: u16)
        ensures
            r == self@.sp,
    {
        self.sp
    }

    /// The program counter.
    pub fn pc(&self) -> (r: u16)
        ensures
            r == self@.pc,
    {
        self.pc
    }

    /// The memory bus, for inspection (and for the diagnostic dump after a
    /// fault).
    pub fn bus(&self) -> (r: &Mem)
        requires
            self.wf(),
        ensures
            r@ == self@.mem,
            r.wf(),
    {
        &self.mem
    }

    /// Loads the fixed ROM bank from the first 16KB of a cartridge image,
    /// touching nothing else. Called once, before stepping begins.
    pub fn load_rom_bank(&mut self, rom: &[u8])
        requires
            old(self).wf(),
            rom@.len() >= 0x4000,
        ensures
            final(self).wf(),
            final(self)@ == loaded_view(old(self)@, rom@),
    {
        let mut bank: Vec<u8> = Vec::new();
        let mut idx: usize = 0;
        while idx < 0x4000
            invariant
                rom@.len() >= 0x4000,
                idx <= 0x4000,
                bank@.len() == idx,
                forall|i: int| 0 <= i < idx ==> bank@[i] == rom@[i],
            decreases 0x4000 - idx,
        {
            bank.push(rom[idx]);
            idx += 1;
        }
        self.mem.load_fixed_rom_bank(bank.as_slice());
        proof {
            assert(self@.mem =~= loaded_view(old(self)@, rom@).mem);
            assert(self@ =~= loaded_view(old(self)@, rom@));
        }
    }

    /// One fetch-decode-execute step: reads the opcode at PC and executes
    /// it. On success the machine moved exactly as `step_spec` says; on a
    /// fault the machine is untouched and the fault says what stopped it.
    pub fn step(&mut self) -> (r: Result<(), Fault>)
        requires
            old(self).wf(),
        ensures
            final(self).wf(),
            match r {
                Ok(()) => step_spec(old(self)@) == Ok::<CpuView, Fault>(final(self)@),
                Err(f) => step_spec(old(self)@) == Err::<CpuView, Fault>(f) && final(self)@ == old(
                    self,
                )@,
            },
    {
        let opcode = self.bus_read8(self.pc)?;
        self.opcode_exec(opcode)
    }

    /// The long-running entry point: loads the fixed ROM bank from the
    /// cartridge image, then fetches, decodes and executes instructions. The
    /// emulated program has no terminal state of its own, so the loop stops
    /// only on a fault (`Some`, with the machine left in place for the
    /// diagnostic dump) or on the caller's stop budget running out (`None`:
    /// the external stop request, checked between instructions, so each
    /// instruction's effect stays atomic). Either way the final machine
    /// state is reachable from the loaded power-on state by exactly the
    /// executed steps.
    pub fn run(&mut self, rom: &[u8], max_steps: u64) -> (r: Option<Fault>)
        requires
            old(self).wf(),
            rom@.len() >= 0x4000,
        ensures
            final(self).wf(),
            run_post(loaded_view(old(self)@, rom@), final(self)@, r, max_steps),
    {
        self.load_rom_bank(rom);
        let ghost start = self@;
        proof {
            assert(steps_to(start, self@, 0));
        }
        let mut steps: u64 = 0;
        while steps < max_steps
            invariant
                self.wf(),
                steps <= max_steps,
                steps_to(start, self@, steps as nat),
                start == loaded_view(old(self)@, rom@),
            decreases max_steps - steps,
        {
            let ghost prev = self@;
            match self.step() {
                Ok(()) => {
                    proof {
                        lemma_steps_to_snoc(start, prev, self@, steps as nat);
                    }
                },
                Err(fault) => {
                    return Some(fault);
                },
            }
            steps = steps + 1;
        }
        None
    }
}

/// Invariant of the register file: every successful step of the functional
/// model keeps the machine well-formed — the low nibble of F stays zero and
/// the memory keeps covering the whole address space.
pub proof fn lemma_step_preserves_wf(s: CpuView)
    requires
        s.wf(),
        step_spec(s) is Ok,
    ensures
        step_spec(s)->Ok_0.wf(),
{
}

/// Arithmetic law of the 8-bit add: for every pair of operands the result is
/// `(a + v) mod 256`, Carry is set exactly when the unsigned sum exceeds
/// 255, Zero exactly when the result is zero, and Subtract is always clear.
pub proof fn lemma_add_law(a: u8, v: u8)
    ensures
        alu_add_a(a, v) == (a + v) % 256,
        f_c(alu_add_f(a, v)) <==> a + v > 255,
        f_z(alu_add_f(a, v)) <==> alu_add_a(a, v) == 0,
        !f_n(alu_add_f(a, v)),
{
}

/// Arithmetic law of the 8-bit subtract and compare: for every pair of
/// operands the result is `(a - v) mod 256`, Carry is set exactly when the
/// operand is larger unsigned (`a < v`), Zero exactly when the result is
/// zero, and Subtract is always set.
pub proof fn lemma_sub_law(a: u8, v: u8)
    ensures
        alu_sub_a(a, v) == (a - v) % 256,
        f_c(alu_sub_f(a, v)) <==> a < v,
        f_z(alu_sub_f(a, v)) <==> alu_sub_a(a, v) == 0,
        f_n(alu_sub_f(a, v)),
{
}

/// Addressing law of the relative jump: with displacement 0 and a satisfied
/// (or absent) condition, PC lands exactly two past the instruction.
pub proof fn lemma_jr_zero_displacement(s: CpuView, cond: Option<Condition>)
    requires
        s.pc + 2 <= 0xFFFF,
        backed(wrap16(s.pc + 1)),
        s.mem[s.pc + 1] == 0,
        match cond {
            None => true,
            Some(c) => cond_holds(c, s.f),
        },
    ensures
        exec_spec(s, Instr::Jr(cond)) matches Ok(s2) && s2.pc == s.pc + 2,
{
}

/// Stack law: pushing any 16-bit value and then popping returns exactly that
/// value and brings SP back to its pre-push value, whenever the two stack
/// bytes are backed.
pub proof fn lemma_push_pop(s: CpuView, v: u16)
    requires
        s.mem.len() == 0x10000,
        s.sp >= 2,
        backed((s.sp - 2) as u16),
        backed((s.sp - 1) as u16),
    ensures
        push16_spec(s, v) matches Ok(s2) && pop16_spec(s2) matches Ok(p) && p.0 == v && p.1.sp
            == s.sp,
{
    crate::mem::lemma_u16_roundtrip(s.mem, (s.sp - 2) as u16, v);
}

/// Call/return law: a call followed by a return brings PC to the instruction
/// immediately after the call and SP back to its pre-call value, whenever
/// the call's operand word is readable and the two stack bytes are backed.
pub proof fn lemma_call_ret(s: CpuView)
    requires
        s.mem.len() == 0x10000,
        view_read16(s, wrap16(s.pc + 1)) is Ok,
        s.sp >= 2,
        backed((s.sp - 2) as u16),
        backed((s.sp - 1) as u16),
    ensures
        exec_spec(s, Instr::Call) matches Ok(s2) && exec_spec(s2, Instr::Ret) matches Ok(s3)
            && s3.pc == wrap16(s.pc + 3) && s3.sp == s.sp,
{
    crate::mem::lemma_u16_roundtrip(s.mem, (s.sp - 2) as u16, wrap16(s.pc + 3));
}

/// The decode table as executable code; it agrees with `decode_spec` entry
/// for entry, so the table stays testable as a pure function.
pub fn decode(prefixed: bool, opcode: u8) -> (r: Option<Instr>)
    ensures
        r == decode_spec(prefixed, opcode),
{
    if prefixed {
        match opcode {
            0x87 => Some(Instr::Res0A),
            _ => None,
        }
    } else {
        match opcode {
            0x00 => Some(Instr::Nop),
            0x7F => Some(Instr::Ld(Dst8::Reg(Reg8Name::A), Src8::Reg(Reg8Name::A))),
            0x78 => Some(Instr::Ld(Dst8::Reg(Reg8Name::A), Src8::Reg(Reg8Name::B))),
            0x79 => Some(Instr::Ld(Dst8::Reg(Reg8Name::A), Src8::Reg(Reg8Name::C))),
            0x7A => Some(Instr::Ld(Dst8::Reg(Reg8Name::A), Src8::Reg(Reg8Name::D))),
            0x7B => Some(Instr::Ld(Dst8::Reg(Reg8Name::A), Src8::Reg(Reg8Name::E))),
            0x7C => Some(Instr::Ld(Dst8::Reg(Reg8Name::A), Src8::Reg(Reg8Name::H))),
            0x7D => Some(Instr::Ld(Dst8::Reg(Reg8Name::A), Src8::Reg(Reg8Name::L))),
            0x7E => Some(Instr::Ld(Dst8::Reg(Reg8Name::A), Src8::HlAddr)),
            0x40 => Some(Instr::Ld(Dst8::Reg(Reg8Name::B), Src8::Reg(Reg8Name::B))),
            0x41 => Some(Instr::Ld(Dst8::Reg(Reg8Name::B), Src8::Reg(Reg8Name::C))),
            0x42 => Some(Instr::Ld(Dst8::Reg(Reg8Name::B), Src8::Reg(Reg8Name::D))),
            0x43 => Some(Instr::Ld(Dst8::Reg(Reg8Name::B), Src8::Reg(Reg8Name::E))),
            0x44 => Some(Instr::Ld(Dst8::Reg(Reg8Name::B), Src8::Reg(Reg8Name::H))),
            0x45 => Some(Instr::Ld(Dst8::Reg(Reg8Name::B), Src8::Reg(Reg8Name::L))),
            0x46 => Some(Instr::Ld(Dst8::Reg(Reg8Name::B), Src8::HlAddr)),
            0x47 => Some(Instr::Ld(Dst8::Reg(Reg8Name::B), Src8::Reg(Reg8Name::A))),
            0x48 => Some(Instr::Ld(Dst8::Reg(Reg8Name::C), Src8::Reg(Reg8Name::B))),
            0x49 => Some(Instr::Ld(Dst8::Reg(Reg8Name::C), Src8::Reg(Reg8Name::C))),
            0x4A => Some(Instr::Ld(Dst8::Reg(Reg8Name::C), Src8::Reg(Reg8Name::D))),
            0x4B => Some(Instr::Ld(Dst8::Reg(Reg8Name::C), Src8::Reg(Reg8Name::E))),
            0x4C => Some(Instr::Ld(Dst8::Reg(Reg8Name::C), Src8::Reg(Reg8Name::H))),
            0x4D => Some(Instr::Ld(Dst8::Reg(Reg8Name::C), Src8::Reg(Reg8Name::L))),
            0x4E => Some(Instr::Ld(Dst8::Reg(Reg8Name::C), Src8::HlAddr)),
            0x50 => Some(Instr::Ld(Dst8::Reg(Reg8Name::D), Src8::Reg(Reg8Name::B))),
            0x51 => Some(Instr::Ld(Dst8::Reg(Reg8Name::D), Src8::Reg(Reg8Name::C))),
            0x52 => Some(Instr::Ld(Dst8::Reg(Reg8Name::D), Src8::Reg(Reg8Name::D))),
            0x53 => Some(Instr::Ld(Dst8::Reg(Reg8Name::D), Src8::Reg(Reg8Name::E))),
            0x54 => Some(Instr::Ld(Dst8::Reg(Reg8Name::D), Src8::Reg(Reg8Name::H))),
            0x55 => Some(Instr::Ld(Dst8::Reg(Reg8Name::D), Src8::Reg(Reg8Name::L))),
            0x56 => Some(Instr::Ld(Dst8::Reg(Reg8Name::D), Src8::HlAddr)),
            0x58 => Some(Instr::Ld(Dst8::Reg(Reg8Name::E), Src8::Reg(Reg8Name::B))),
            0x59 => Some(Instr::Ld(Dst8::Reg(Reg8Name::E), Src8::Reg(Reg8Name::C))),
            0x5A => Some(Instr::Ld(Dst8::Reg(Reg8Name::E), Src8::Reg(Reg8Name::D))),
            0x5B => Some(Instr::Ld(Dst8::Reg(Reg8Name::E), Src8::Reg(Reg8Name::E))),
            0x5C => Some(Instr::Ld(Dst8::Reg(Reg8Name::E), Src8::Reg(Reg8Name::H))),
            0x5D => Some(Instr::Ld(Dst8::Reg(Reg8Name::E), Src8::Reg(Reg8Name::L))),
            0x5E => Some(Instr::Ld(Dst8::Reg(Reg8Name::E), Src8::HlAddr)),
            0x60 => Some(Instr::Ld(Dst8::Reg(Reg8Name::H), Src8::Reg(Reg8Name::B))),
            0x61 => Some(Instr::Ld(Dst8::Reg(Reg8Name::H), Src8::Reg(Reg8Name::C))),
            0x62 => Some(Instr::Ld(Dst8::Reg(Reg8Name::H), Src8::Reg(Reg8Name::D))),
            0x63 => Some(Instr::Ld(Dst8::Reg(Reg8Name::H), Src8::Reg(Reg8Name::E))),
            0x64 => Some(Instr::Ld(Dst8::Reg(Reg8Name::H), Src8::Reg(Reg8Name::H))),
            0x65 => Some(Instr::Ld(Dst8::Reg(Reg8Name::H), Src8::Reg(Reg8Name::L))),
            0x66 => Some(Instr::Ld(Dst8::Reg(Reg8Name::H), Src8::HlAddr)),
            0x68 => Some(Instr::Ld(Dst8::Reg(Reg8Name::L), Src8::Reg(Reg8Name::B))),
            0x69 => Some(Instr::Ld(Dst8::Reg(Reg8Name::L), Src8::Reg(Reg8Name::C))),
            0x6A => Some(Instr::Ld(Dst8::Reg(Reg8Name::L), Src8::Reg(Reg8Name::D))),
            0x6B => Some(Instr::Ld(Dst8::Reg(Reg8Name::L), Src8::Reg(Reg8Name::E))),
            0x6C => Some(Instr::Ld(Dst8::Reg(Reg8Name::L), Src8::Reg(Reg8Name::H))),
            0x6D => Some(Instr::Ld(Dst8::Reg(Reg8Name::L), Src8::Reg(Reg8Name::L))),
            0x6E => Some(Instr::Ld(Dst8::Reg(Reg8Name::L), Src8::HlAddr)),
            0x70 => Some(Instr::Ld(Dst8::HlAddr, Src8::Reg(Reg8Name::B))),
            0x71 => Some(Instr::Ld(Dst8::HlAddr, Src8::Reg(Reg8Name::C))),
            0x72 => Some(Instr::Ld(Dst8::HlAddr, Src8::Reg(Reg8Name::D))),
            0x73 => Some(Instr::Ld(Dst8::HlAddr, Src8::Reg(Reg8Name::E))),
            0x74 => Some(Instr::Ld(Dst8::HlAddr, Src8::Reg(Reg8Name::H))),
            0x75 => Some(Instr::Ld(Dst8::HlAddr, Src8::Reg(Reg8Name::L))),
            0x36 => Some(Instr::Ld(Dst8::HlAddr, Src8::Imm8)),
            0x3E => Some(Instr::Ld(Dst8::Reg(Reg8Name::A), Src8::Imm8)),
            0x26 => Some(Instr::Ld(Dst8::Reg(Reg8Name::H), Src8::Imm8)),
            0x18 => Some(Instr::Jr(None)),
            0x20 => Some(Instr::Jr(Some(Condition::NZ))),
            0x28 => Some(Instr::Jr(Some(Condition::Z))),
            0x30 => Some(Instr::Jr(Some(Condition::NC))),
            0x38 => Some(Instr::Jr(Some(Condition::C))),
            0x80 => Some(Instr::Add(Src8::Reg(Reg8Name::B))),
            0x81 => Some(Instr::Add(Src8::Reg(Reg8Name::C))),
            0x82 => Some(Instr::Add(Src8::Reg(Reg8Name::D))),
            0x83 => Some(Instr::Add(Src8::Reg(Reg8Name::E))),
            0x84 => Some(Instr::Add(Src8::Reg(Reg8Name::H))),
            0x85 => Some(Instr::Add(Src8::Reg(Reg8Name::L))),
            0x86 => Some(Instr::Add(Src8::HlAddr)),
            0x87 => Some(Instr::Add(Src8::Reg(Reg8Name::A))),
            0xC6 => Some(Instr::Add(Src8::Imm8)),
            0x90 => Some(Instr::Sub(Src8::Reg(Reg8Name::B))),
            0x91 => Some(Instr::Sub(Src8::Reg(Reg8Name::C))),
            0x92 => Some(Instr::Sub(Src8::Reg(Reg8Name::D))),
            0x93 => Some(Instr::Sub(Src8::Reg(Reg8Name::E))),
            0x94 => Some(Instr::Sub(Src8::Reg(Reg8Name::H))),
            0x95 => Some(Instr::Sub(Src8::Reg(Reg8Name::L))),
            0x96 => Some(Instr::Sub(Src8::HlAddr)),
            0x97 => Some(Instr::Sub(Src8::Reg(Reg8Name::A))),
            0xD6 => Some(Instr::Sub(Src8::Imm8)),
            0xA0 => Some(Instr::And(Src8::Reg(Reg8Name::B))),
            0xA1 => Some(Instr::And(Src8::Reg(Reg8Name::C))),
            0xA2 => Some(Instr::And(Src8::Reg(Reg8Name::D))),
            0xA3 => Some(Instr::And(Src8::Reg(Reg8Name::E))),
            0xA4 => Some(Instr::And(Src8::Reg(Reg8Name::H))),
            0xA5 => Some(Instr::And(Src8::Reg(Reg8Name::L))),
            0xA6 => Some(Instr::And(Src8::HlAddr)),
            0xA7 => Some(Instr::And(Src8::Reg(Reg8Name::A))),
            0xE6 => Some(Instr::And(Src8::Imm8)),
            0xA8 => Some(Instr::Xor(Src8::Reg(Reg8Name::B))),
            0xA9 => Some(Instr::Xor(Src8::Reg(Reg8Name::C))),
            0xAA => Some(Instr::Xor(Src8::Reg(Reg8Name::D))),
            0xAB => Some(Instr::Xor(Src8::Reg(Reg8Name::E))),
            0xAC => Some(Instr::Xor(Src8::Reg(Reg8Name::H))),
            0xAD => Some(Instr::Xor(Src8::Reg(Reg8Name::L))),
            0xAE => Some(Instr::Xor(Src8::HlAddr)),
            0xAF => Some(Instr::Xor(Src8::Reg(Reg8Name::A))),
            0xEE => Some(Instr::Xor(Src8::Imm8)),
            0xB0 => Some(Instr::Or(Src8::Reg(Reg8Name::B))),
            0xB1 => Some(Instr::Or(Src8::Reg(Reg8Name::C))),
            0xB2 => Some(Instr::Or(Src8::Reg(Reg8Name::D))),
            0xB3 => Some(Instr::Or(Src8::Reg(Reg8Name::E))),
            0xB4 => Some(Instr::Or(Src8::Reg(Reg8Name::H))),
            0xB5 => Some(Instr::Or(Src8::Reg(Reg8Name::L))),
            0xB6 => Some(Instr::Or(Src8::HlAddr)),
            0xB7 => Some(Instr::Or(Src8::Reg(Reg8Name::A))),
            0xF6 => Some(Instr::Or(Src8::Imm8)),
            0xB8 => Some(Instr::Cp(Src8::Reg(Reg8Name::B))),
            0xB9 => Some(Instr::Cp(Src8::Reg(Reg8Name::C))),
            0xBA => Some(Instr::Cp(Src8::Reg(Reg8Name::D))),
            0xBB => Some(Instr::Cp(Src8::Reg(Reg8Name::E))),
            0xBC => Some(Instr::Cp(Src8::Reg(Reg8Name::H))),
            0xBD => Some(Instr::Cp(Src8::Reg(Reg8Name::L))),
            0xBE => Some(Instr::Cp(Src8::HlAddr)),
            0xBF => Some(Instr::Cp(Src8::Reg(Reg8Name::A))),
            0xFE => Some(Instr::Cp(Src8::Imm8)),
            0xC3 => Some(Instr::Jp),
            0x02 => Some(Instr::LdBcA),
            0xEA => Some(Instr::LdA16A),
            0xFA => Some(Instr::LdAA16),
            0xF3 => Some(Instr::Di),
            0x0F => Some(Instr::Rrca),
            0xE0 => Some(Instr::LdhA8A),
            0xCD => Some(Instr::Call),
            0xF0 => Some(Instr::LdhAA8),
            0xC9 => Some(Instr::Ret),
            0x31 => Some(Instr::LdSpD16),
            0x21 => Some(Instr::LdHlD16),
            0x01 => Some(Instr::LdBcD16),
            0x23 => Some(Instr::IncHl),
            0x0B => Some(Instr::DecBc),
            0x04 => Some(Instr::Inc8(Reg8Name::B)),
            0x22 => Some(Instr::LdiHlA),
            0x1D => Some(Instr::Dec8(Reg8Name::E)),
            0x15 => Some(Instr::Dec8(Reg8Name::D)),
            0x3D => Some(Instr::Dec8(Reg8Name::A)),
            0xE5 => Some(Instr::Push(Pair::Hl)),
            0xD5 => Some(Instr::Push(Pair::De)),
            0xC5 => Some(Instr::Push(Pair::Bc)),
            _ => None,
        }
    }
}

} // verus!

