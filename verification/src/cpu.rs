//! The LR35902 CPU: registers, the full opcode map with the CB page,
//! and interrupt dispatch. The CPU borrows the bus for each step.
use vstd::prelude::*;

verus! {

use crate::flags::make_flags;
use crate::flags::flags_wf;
use crate::flags::f_z;
use crate::flags::f_c;
use crate::memory::Memory;
use crate::alu::p2;
use crate::alu::signed8;
use crate::CARRY_FLAG;
use crate::HALF_CARRY_FLAG;
use crate::SUBTRACT_FLAG;
use crate::ZERO_FLAG;

broadcast use crate::flags::lemma_make_flags;

/// An 8-bit register name.
#[derive(Clone, Copy, Debug)]
pub enum Register8 {
    /// The accumulator.
    A,
    /// General-purpose register B.
    B,
    /// General-purpose register C.
    C,
    /// General-purpose register D.
    D,
    /// General-purpose register E.
    E,
    /// General-purpose register H.
    H,
    /// General-purpose register L.
    L,
}

/// A 16-bit register pair name.
#[derive(Clone, Copy, Debug)]
pub enum Register16 {
    /// The B and C pair.
    BC,
    /// The D and E pair.
    DE,
    /// The H and L pair.
    HL,
}

/// Where an operand lives: a register, a pair, or a memory address.
#[derive(Clone, Copy, Debug)]
pub enum Location {
    /// An 8-bit register.
    Register(Register8),
    /// A 16-bit register pair.
    DoubleRegister(Register16),
    /// A byte of the address space.
    Address(u16),
}

/// The eight 8-bit registers; F only ever holds flag bits in its high
/// nibble.
#[derive(Clone, Copy)]
pub struct Registers {
    /// The F register.
    pub flags: u8,
    /// The accumulator.
    pub a: u8,
    /// General-purpose register B.
    pub b: u8,
    /// General-purpose register C.
    pub c: u8,
    /// General-purpose register D.
    pub d: u8,
    /// General-purpose register E.
    pub e: u8,
    /// General-purpose register H.
    pub h: u8,
    /// General-purpose register L.
    pub l: u8,
}

proof fn lemma_mask_ops(f: u8, m: u8)
    by (bit_vector)
    requires
        f & 0x0f == 0,
        m & 0x0f == 0,
    ensures
        (f | m) & 0x0f == 0,
        (f & !m) & 0x0f == 0,
{
}

proof fn lemma_high_nibble(x: u8)
    by (bit_vector)
    ensures
        (x & 0xf0) & 0x0f == 0,
{
}

impl Registers {
    /// Registers with a zero low flag nibble.
    pub open spec fn wf(self) -> bool {
        flags_wf(self.flags)
    }

    /// All registers zero, as at raw power-on.
    pub fn new() -> (r: Registers)
        ensures
            r.wf(),
            r == (Registers { flags: 0, a: 0, b: 0, c: 0, d: 0, e: 0, h: 0, l: 0 }),
    {
        proof {
            assert(0u8 & 0x0f == 0) by (bit_vector);
        }
        Registers { flags: 0, a: 0, b: 0, c: 0, d: 0, e: 0, h: 0, l: 0 }
    }

    /// The HL pair.
    pub fn hl(&self) -> (r: u16)
        ensures
            r == self.h * 256 + self.l,
    {
        (self.h as u16) * 256 + (self.l as u16)
    }

    /// The BC pair.
    pub fn bc(&self) -> (r: u16)
        ensures
            r == self.b * 256 + self.c,
    {
        (self.b as u16) * 256 + (self.c as u16)
    }

    /// The DE pair.
    pub fn de(&self) -> (r: u16)
        ensures
            r == self.d * 256 + self.e,
    {
        (self.d as u16) * 256 + (self.e as u16)
    }

    /// The AF pair: the accumulator over the flags.
    pub fn af(&self) -> (r: u16)
        ensures
            r == self.a * 256 + self.flags,
    {
        (self.a as u16) * 256 + (self.flags as u16)
    }

    /// Store a 16-bit value into BC.
    pub fn write_bc(&mut self, value: u16)
        ensures
            *final(self) == (Registers {
                b: (value / 256) as u8,
                c: (value % 256) as u8,
                ..*old(self)
            }),
    {
        self.b = (value / 256) as u8;
        self.c = (value % 256) as u8;
    }

    /// Store a 16-bit value into DE.
    pub fn write_de(&mut self, value: u16)
        ensures
            *final(self) == (Registers {
                d: (value / 256) as u8,
                e: (value % 256) as u8,
                ..*old(self)
            }),
    {
        self.d = (value / 256) as u8;
        self.e = (value % 256) as u8;
    }

    /// Store a 16-bit value into HL.
    pub fn write_hl(&mut self, value: u16)
        ensures
            *final(self) == (Registers {
                h: (value / 256) as u8,
                l: (value % 256) as u8,
                ..*old(self)
            }),
    {
        self.h = (value / 256) as u8;
        self.l = (value % 256) as u8;
    }

    /// Store a 16-bit value into AF; the low nibble of F always reads 0.
    pub fn write_af(&mut self, value: u16)
        ensures
            *final(self) == (Registers {
                a: (value / 256) as u8,
                flags: ((value % 256) as u8) & 0xf0,
                ..*old(self)
            }),
            final(self).wf(),
    {
        proof {
            lemma_high_nibble((value % 256) as u8);
        }
        self.a = (value / 256) as u8;
        self.flags = ((value % 256) as u8) & 0xf0;
    }

    /// Set or clear one flag bit; `flag` is one of the four flag masks.
    pub fn set_flag(&mut self, flag: u8, value: bool)
        requires
            flag == ZERO_FLAG || flag == SUBTRACT_FLAG || flag == HALF_CARRY_FLAG || flag
                == CARRY_FLAG,
        ensures
            *final(self) == (Registers {
                flags: if value {
                    old(self).regs_or_flag(flag)
                } else {
                    old(self).regs_and_not_flag(flag)
                },
                ..*old(self)
            }),
            old(self).wf() ==> final(self).wf(),
    {
        proof {
            assert(flag & 0x0f == 0) by (bit_vector)
                requires
                    flag == 0x80 || flag == 0x40 || flag == 0x20 || flag == 0x10,
            ;
            if flags_wf(self.flags) {
                lemma_mask_ops(self.flags, flag);
            }
        }
        if value {
            self.flags = self.flags | flag;
        } else {
            self.flags = self.flags & !flag;
        }
    }

    /// The flags with `flag` forced on.
    pub open spec fn regs_or_flag(self, flag: u8) -> u8 {
        self.flags | flag
    }

    /// The flags with `flag` forced off.
    pub open spec fn regs_and_not_flag(self, flag: u8) -> u8 {
        self.flags & !flag
    }
}

/// The value an 8-bit register holds.
pub open spec fn reg8_spec(regs: Registers, r: Register8) -> u8 {
    match r {
        Register8::A => regs.a,
        Register8::B => regs.b,
        Register8::C => regs.c,
        Register8::D => regs.d,
        Register8::E => regs.e,
        Register8::H => regs.h,
        Register8::L => regs.l,
    }
}

/// The registers with one 8-bit register replaced.
pub open spec fn reg8_store_spec(regs: Registers, r: Register8, v: u8) -> Registers {
    match r {
        Register8::A => Registers { a: v, ..regs },
        Register8::B => Registers { b: v, ..regs },
        Register8::C => Registers { c: v, ..regs },
        Register8::D => Registers { d: v, ..regs },
        Register8::E => Registers { e: v, ..regs },
        Register8::H => Registers { h: v, ..regs },
        Register8::L => Registers { l: v, ..regs },
    }
}

/// The value a pair holds.
pub open spec fn reg16_spec(regs: Registers, r: Register16) -> int {
    match r {
        Register16::BC => regs.b * 256 + regs.c,
        Register16::DE => regs.d * 256 + regs.e,
        Register16::HL => regs.h * 256 + regs.l,
    }
}

/// What a location reads as; reading a pair through the 8-bit path is
/// excluded by the callers' preconditions.
pub open spec fn loc_load8_spec(loc: Location, regs: Registers, mem: Memory) -> u8 {
    match loc {
        Location::Register(r) => reg8_spec(regs, r),
        Location::Address(a) => mem.load_spec(a),
        Location::DoubleRegister(_) => 0,
    }
}

impl Location {
    /// Read the byte a location refers to.
    pub fn load8(&self, regs: &Registers, address_space: &Memory) -> (r: u8)
        requires
            address_space.wf(),
            !(self is DoubleRegister),
        ensures
            r == loc_load8_spec(*self, *regs, *address_space),
    {
        match self {
            Location::Register(reg) => match reg {
                Register8::A => regs.a,
                Register8::B => regs.b,
                Register8::C => regs.c,
                Register8::D => regs.d,
                Register8::E => regs.e,
                Register8::H => regs.h,
                Register8::L => regs.l,
            },
            Location::DoubleRegister(_) => 0,
            Location::Address(address) => address_space.load(*address as usize),
        }
    }

    /// Read the pair a location names.
    pub fn load16(&self, regs: &Registers) -> (r: u16)
        requires
            self is DoubleRegister,
        ensures
            r == reg16_spec(*regs, self->DoubleRegister_0),
    {
        match self {
            Location::DoubleRegister(reg) => match reg {
                Register16::BC => regs.bc(),
                Register16::HL => regs.hl(),
                Register16::DE => regs.de(),
            },
            _ => 0,
        }
    }

    /// Write the byte a location refers to: a register changes and the
    /// bus does not, or the other way around.
    pub fn store8(&self, regs: &mut Registers, address_space: &mut Memory, value: u8)
        requires
            old(address_space).wf(),
            !(self is DoubleRegister),
        ensures
            final(address_space).wf(),
            match *self {
                Location::Register(r) => *final(regs) == reg8_store_spec(*old(regs), r, value)
                    && *final(address_space) == *old(address_space),
                Location::Address(a) => *final(regs) == *old(regs) && Memory::write_effect(
                    *old(address_space),
                    *final(address_space),
                    a,
                    value,
                ),
                Location::DoubleRegister(_) => false,
            },
    {
        match self {
            Location::Register(reg) => match reg {
                Register8::A => regs.a = value,
                Register8::B => regs.b = value,
                Register8::C => regs.c = value,
                Register8::D => regs.d = value,
                Register8::E => regs.e = value,
                Register8::H => regs.h = value,
                Register8::L => regs.l = value,
            },
            Location::DoubleRegister(_) => {},
            Location::Address(address) => {
                address_space.write(*address as usize, value);
            },
        }
    }

    /// Write the pair a location names.
    pub fn store16(&self, regs: &mut Registers, value: u16)
        requires
            self is DoubleRegister,
        ensures
            match *self {
                Location::DoubleRegister(r) => match r {
                    Register16::BC => *final(regs) == (Registers {
                        b: (value / 256) as u8,
                        c: (value % 256) as u8,
                        ..*old(regs)
                    }),
                    Register16::DE => *final(regs) == (Registers {
                        d: (value / 256) as u8,
                        e: (value % 256) as u8,
                        ..*old(regs)
                    }),
                    Register16::HL => *final(regs) == (Registers {
                        h: (value / 256) as u8,
                        l: (value % 256) as u8,
                        ..*old(regs)
                    }),
                },
                _ => false,
            },
    {
        match self {
            Location::DoubleRegister(reg) => match reg {
                Register16::BC => regs.write_bc(value),
                Register16::HL => regs.write_hl(value),
                Register16::DE => regs.write_de(value),
            },
            _ => {},
        }
    }
}

/// Read a byte from the bus.
fn rd(mem: &Memory, addr: u16) -> (r: u8)
    requires
        mem.wf(),
    ensures
        r == mem.load_spec(addr),
{
    mem.load(addr as usize)
}

/// Write a byte to the bus.
fn wr(mem: &mut Memory, addr: u16, v: u8)
    requires
        old(mem).wf(),
    ensures
        final(mem).wf(),
        Memory::write_effect(*old(mem), *final(mem), addr, v),
{
    mem.write(addr as usize, v);
}

/// 16-bit address arithmetic that wraps around the address space.
fn wadd(x: u16, d: u16) -> (r: u16)
    ensures
        r == (x + d) % 0x10000,
{
    (((x as u32) + (d as u32)) % 0x10000) as u16
}

/// Wrapping 16-bit subtraction.
fn wsub(x: u16, d: u16) -> (r: u16)
    requires
        d <= 0x10000,
    ensures
        r == (x + 0x10000 - d) % 0x10000,
{
    (((x as u32) + 0x10000 - (d as u32)) % 0x10000) as u16
}

/// The target of a relative jump: past the 2-byte instruction, then the
/// signed offset, wrapping.
fn rel_target(pc0: u16, e: u8) -> (t: u16)
    ensures
        t == (pc0 + 2 + signed8(e) + 0x10000) % 0x10000,
{
    let off: u32 = if e < 128 {
        e as u32
    } else {
        e as u32 + 0x10000 - 256
    };
    (((pc0 as u32) + 2 + off) % 0x10000) as u16
}

/// One bit of carry as a number.
pub open spec fn cbit(f: u8) -> int {
    if f_c(f) {
        1
    } else {
        0
    }
}

/// The accumulator after an ALU operation; `op3` selects ADD, ADC, SUB,
/// SBC, AND, XOR, OR, CP in opcode-table order (CP leaves A alone).
pub open spec fn alu_acc_a(op3: u8, a: u8, f: u8, n: u8) -> u8 {
    if op3 == 0 {
        ((a + n) % 256) as u8
    } else if op3 == 1 {
        ((a + n + cbit(f)) % 256) as u8
    } else if op3 == 2 {
        ((a + 256 - n) % 256) as u8
    } else if op3 == 3 {
        ((a + 512 - n - cbit(f)) % 256) as u8
    } else if op3 == 4 {
        a & n
    } else if op3 == 5 {
        a ^ n
    } else if op3 == 6 {
        a | n
    } else {
        a
    }
}

/// The flags after an ALU operation on the accumulator.
pub open spec fn alu_acc_f(op3: u8, a: u8, f: u8, n: u8) -> u8 {
    if op3 == 0 {
        make_flags((a + n) % 256 == 0, false, a % 16 + n % 16 > 15, a + n > 255)
    } else if op3 == 1 {
        make_flags(
            (a + n + cbit(f)) % 256 == 0,
            false,
            a % 16 + n % 16 + cbit(f) > 15,
            a + n + cbit(f) > 255,
        )
    } else if op3 == 2 {
        make_flags(a == n, true, a % 16 < n % 16, a < n)
    } else if op3 == 3 {
        make_flags(
            (a + 512 - n - cbit(f)) % 256 == 0,
            true,
            a % 16 < n % 16 + cbit(f),
            (a as int) < n + cbit(f),
        )
    } else if op3 == 4 {
        make_flags((a & n) == 0, false, true, false)
    } else if op3 == 5 {
        make_flags((a ^ n) == 0, false, false, false)
    } else if op3 == 6 {
        make_flags((a | n) == 0, false, false, false)
    } else {
        make_flags(a == n, true, a % 16 < n % 16, a < n)
    }
}

/// Whether a jump condition (NZ, Z, NC, C in table order) holds.
pub open spec fn cond_spec(cc: u8, f: u8) -> bool {
    if cc == 0 {
        !f_z(f)
    } else if cc == 1 {
        f_z(f)
    } else if cc == 2 {
        !f_c(f)
    } else {
        f_c(f)
    }
}

/// The location the 3-bit register field selects: B, C, D, E, H, L,
/// memory at HL, A.
pub open spec fn index_spec(regs: Registers, idx: u8) -> Location {
    if idx == 0 {
        Location::Register(Register8::B)
    } else if idx == 1 {
        Location::Register(Register8::C)
    } else if idx == 2 {
        Location::Register(Register8::D)
    } else if idx == 3 {
        Location::Register(Register8::E)
    } else if idx == 4 {
        Location::Register(Register8::H)
    } else if idx == 5 {
        Location::Register(Register8::L)
    } else if idx == 6 {
        Location::Address((regs.h * 256 + regs.l) as u16)
    } else {
        Location::Register(Register8::A)
    }
}

/// The result and flags of a CB-page rotate, shift or SWAP, by the
/// 3-bit operation field: RLC, RRC, RL, RR, SLA, SRA, SWAP, SRL.
pub open spec fn cb_shift_result(op3: u8, v: u8, cin: bool) -> (u8, u8) {
    if op3 == 0 {
        (
            ((2 * v) % 256 + v / 128) as u8,
            make_flags((2 * v) % 256 + v / 128 == 0, false, false, v / 128 == 1),
        )
    } else if op3 == 1 {
        (
            (v / 2 + (v % 2) * 128) as u8,
            make_flags(v / 2 + (v % 2) * 128 == 0, false, false, v % 2 == 1),
        )
    } else if op3 == 2 {
        let r = (2 * v) % 256 + (if cin {
            1int
        } else {
            0int
        });
        (r as u8, make_flags(r == 0, false, false, v / 128 == 1))
    } else if op3 == 3 {
        let r = v / 2 + (if cin {
            128int
        } else {
            0int
        });
        (r as u8, make_flags(r == 0, false, false, v % 2 == 1))
    } else if op3 == 4 {
        (((2 * v) % 256) as u8, make_flags((2 * v) % 256 == 0, false, false, v / 128 == 1))
    } else if op3 == 5 {
        (
            (v / 2 + (v / 128) * 128) as u8,
            make_flags(v / 2 + (v / 128) * 128 == 0, false, false, v % 2 == 1),
        )
    } else if op3 == 6 {
        (((v % 16) * 16 + v / 16) as u8, make_flags(v == 0, false, false, false))
    } else {
        ((v / 2) as u8, make_flags(v / 2 == 0, false, false, v % 2 == 1))
    }
}

/// The lowest set bit of a five-bit interrupt mask.
pub open spec fn lowest_bit(v: u8) -> u8 {
    if v % 2 == 1 {
        1
    } else if (v / 2) % 2 == 1 {
        2
    } else if (v / 4) % 2 == 1 {
        4
    } else if (v / 8) % 2 == 1 {
        8
    } else {
        16
    }
}

/// The interrupt vector for a one-bit mask: 0x40 for VBlank up to 0x60
/// for Joypad.
pub open spec fn vector_of(m: u8) -> u16 {
    if m == 1 {
        0x40
    } else if m == 2 {
        0x48
    } else if m == 4 {
        0x50
    } else if m == 8 {
        0x58
    } else {
        0x60
    }
}

/// Two bus writes that push a 16-bit value at `sp0`: the high byte to
/// sp0-1 and the low byte to sp0-2.
pub open spec fn pushed16(m0: Memory, m1: Memory, sp0: u16, v: int) -> bool {
    exists|mm: Memory|
        #[trigger] Memory::write_effect(
            m0,
            mm,
            ((sp0 + 0x10000 - 1) % 0x10000) as u16,
            (v / 256) as u8,
        ) && Memory::write_effect(mm, m1, ((sp0 + 0x10000 - 2) % 0x10000) as u16, (v % 256) as u8)
}

/// The LR35902 processor state. It borrows the bus for each step.
pub struct Cpu {
    /// The eight 8-bit registers.
    pub regs: Registers,
    /// The stack pointer.
    pub sp: u16,
    /// The program counter.
    pub pc: u16,
    /// IME, the master interrupt gate.
    pub interrupts_enabled: bool,
    /// Whether a HALT is waiting for an interrupt request.
    pub halted: bool,
    /// Whether an EI is waiting to raise IME after the next instruction.
    pub ei_pending: bool,
}

/// The processor state at raw power-on: everything zero.
pub open spec fn power_on_state(c: Cpu) -> bool {
    c == (Cpu {
        regs: Registers { flags: 0, a: 0, b: 0, c: 0, d: 0, e: 0, h: 0, l: 0 },
        sp: 0,
        pc: 0,
        interrupts_enabled: false,
        halted: false,
        ei_pending: false,
    })
}

/// The register state the DMG boot ROM hands off with, at the cartridge
/// entry point.
pub open spec fn handoff_state(c: Cpu) -> bool {
    c == (Cpu {
        regs: Registers {
            flags: 0xb0,
            a: 0x01,
            b: 0x00,
            c: 0x13,
            d: 0x00,
            e: 0xd8,
            h: 0x01,
            l: 0x4d,
        },
        sp: 0xfffe,
        pc: 0x0100,
        interrupts_enabled: false,
        halted: false,
        ei_pending: false,
    })
}

/// The exact transition of a CB-prefixed operation `cb`: the rotate,
/// shift, SWAP, BIT, RES or SET picked by its high bits, applied to the
/// register or to memory at HL, with PC moved past the two bytes.
#[verifier::opaque]
pub open spec fn cb_effect(c0: Cpu, m0: Memory, c1: Cpu, m1: Memory, cb: u8, cycles: u8) -> bool {
        let group = (cb / 64) % 4;
        let op3 = (cb / 8) % 8;
        let idx = cb % 8;
        let loc = index_spec(c0.regs, idx);
        let v = loc_load8_spec(loc, c0.regs, m0);
        let cin = f_c(c0.regs.flags);
        let hl = (c0.regs.h * 256 + c0.regs.l) as u16;
        &&& (group == 0 && idx != 6 ==> m1 == m0 && c1 == (Cpu {
            pc: ((c0.pc + 2) % 0x10000) as u16,
            regs: Registers {
                flags: cb_shift_result(op3, v, cin).1,
                ..reg8_store_spec(
                    c0.regs,
                    loc->Register_0,
                    cb_shift_result(op3, v, cin).0,
                )
            },
            ..c0
        }) && cycles == 8)
        &&& (group == 0 && idx == 6 ==> c1 == (Cpu {
            pc: ((c0.pc + 2) % 0x10000) as u16,
            regs: Registers { flags: cb_shift_result(op3, v, cin).1, ..c0.regs },
            ..c0
        }) && Memory::write_effect(
            m0,
            m1,
            hl,
            cb_shift_result(op3, v, cin).0,
        ) && cycles == 16)
        &&& (group == 1 ==> m1 == m0 && c1 == (Cpu {
            pc: ((c0.pc + 2) % 0x10000) as u16,
            regs: Registers {
                flags: make_flags(v & p2(op3) == 0, false, true, cin),
                ..c0.regs
            },
            ..c0
        }) && cycles == (if idx == 6 {
            12int
        } else {
            8int
        }))
        &&& (group == 2 && idx != 6 ==> m1 == m0 && c1 == (Cpu {
            pc: ((c0.pc + 2) % 0x10000) as u16,
            regs: reg8_store_spec(c0.regs, loc->Register_0, v & !p2(op3)),
            ..c0
        }) && cycles == 8)
        &&& (group == 2 && idx == 6 ==> c1 == (Cpu { pc: ((c0.pc + 2) % 0x10000) as u16, ..c0 })
            && Memory::write_effect(m0, m1, hl, v & !p2(op3)) && cycles
            == 16)
        &&& (group == 3 && idx != 6 ==> m1 == m0 && c1 == (Cpu {
            pc: ((c0.pc + 2) % 0x10000) as u16,
            regs: reg8_store_spec(c0.regs, loc->Register_0, v | p2(op3)),
            ..c0
        }) && cycles == 8)
        &&& (group == 3 && idx == 6 ==> c1 == (Cpu { pc: ((c0.pc + 2) % 0x10000) as u16, ..c0 })
            && Memory::write_effect(m0, m1, hl, v | p2(op3)) && cycles
            == 16)
}

impl Cpu {
    /// Well-formed processor state: the flag register's low nibble is 0.
    pub open spec fn wf(self) -> bool {
        self.regs.wf()
    }

    /// A processor at power-on, before any boot ROM has run.
    pub fn new() -> (c: Cpu)
        ensures
            c.wf(),
            c == (Cpu {
                regs: Registers { flags: 0, a: 0, b: 0, c: 0, d: 0, e: 0, h: 0, l: 0 },
                sp: 0,
                pc: 0,
                interrupts_enabled: false,
                halted: false,
                ei_pending: false,
            }),
    {
        Cpu {
            regs: Registers::new(),
            sp: 0,
            pc: 0,
            interrupts_enabled: false,
            halted: false,
            ei_pending: false,
        }
    }

    /// A processor in the state the DMG boot ROM leaves behind, for use
    /// without one: registers set to the handoff values and the program
    /// counter at the cartridge entry point.
    pub fn new_initialized() -> (c: Cpu)
        ensures
            c.wf(),
            c.regs.a == 0x01 && c.regs.flags == 0xb0 && c.regs.b == 0x00 && c.regs.c == 0x13
                && c.regs.d == 0x00 && c.regs.e == 0xd8 && c.regs.h == 0x01 && c.regs.l == 0x4d,
            c.sp == 0xfffe && c.pc == 0x0100,
            !c.interrupts_enabled && !c.halted && !c.ei_pending,
    {
        proof {
            assert(0xb0u8 & 0x0f == 0) by (bit_vector);
        }
        Cpu {
            regs: Registers {
                flags: 0xb0,
                a: 0x01,
                b: 0x00,
                c: 0x13,
                d: 0x00,
                e: 0xd8,
                h: 0x01,
                l: 0x4d,
            },
            sp: 0xfffe,
            pc: 0x0100,
            interrupts_enabled: false,
            halted: false,
            ei_pending: false,
        }
    }

    /// Read the byte the program counter points at.
    pub fn load_immediate8(&self, mem: &Memory) -> (r: u8)
        requires
            mem.wf(),
        ensures
            r == mem.load_spec(self.pc),
    {
        mem.load(self.pc as usize)
    }

    /// Map the 3-bit register field of an opcode to its location.
    pub fn index(&self, index: u8) -> (r: Location)
        requires
            index < 8,
        ensures
            r == index_spec(self.regs, index),
    {
        match index {
            0 => Location::Register(Register8::B),
            1 => Location::Register(Register8::C),
            2 => Location::Register(Register8::D),
            3 => Location::Register(Register8::E),
            4 => Location::Register(Register8::H),
            5 => Location::Register(Register8::L),
            6 => Location::Address(self.regs.hl()),
            _ => Location::Register(Register8::A),
        }
    }

    /// Whether a jump condition holds of the current flags.
    fn test_cond(&self, cc: u8) -> (b: bool)
        requires
            cc < 4,
        ensures
            b == cond_spec(cc, self.regs.flags),
    {
        if cc == 0 {
            !crate::flags::flag_z(self.regs.flags)
        } else if cc == 1 {
            crate::flags::flag_z(self.regs.flags)
        } else if cc == 2 {
            !crate::flags::flag_c(self.regs.flags)
        } else {
            crate::flags::flag_c(self.regs.flags)
        }
    }

    /// Push a 16-bit value: the high byte goes to SP-1, the low byte to
    /// SP-2, and SP drops by two.
    fn push16(&mut self, mem: &mut Memory, v: u16)
        requires
            old(self).wf(),
            old(mem).wf(),
        ensures
            final(self).wf(),
            final(mem).wf(),
            *final(self) == (Cpu {
                sp: ((old(self).sp + 0x10000 - 2) % 0x10000) as u16,
                ..*old(self)
            }),
            pushed16(*old(mem), *final(mem), old(self).sp, v as int),
    {
        let sp1: u16 = wsub(self.sp, 1);
        wr(mem, sp1, (v / 256) as u8);
        let ghost m1 = *mem;
        let sp2: u16 = wsub(self.sp, 2);
        wr(mem, sp2, (v % 256) as u8);
        self.sp = sp2;
        proof {
            assert(Memory::write_effect(
                *old(mem),
                m1,
                ((old(self).sp + 0x10000 - 1) % 0x10000) as u16,
                (v / 256) as u8,
            ));
            assert(Memory::write_effect(
                m1,
                *mem,
                ((old(self).sp + 0x10000 - 2) % 0x10000) as u16,
                (v % 256) as u8,
            ));
        }
    }

    /// Pop a 16-bit value: the low byte comes from SP, the high byte
    /// from SP+1, and SP rises by two.
    fn pop16(&mut self, mem: &Memory) -> (r: u16)
        requires
            old(self).wf(),
            mem.wf(),
        ensures
            final(self).wf(),
            *final(self) == (Cpu { sp: ((old(self).sp + 2) % 0x10000) as u16, ..*old(self) }),
            r == mem.load_spec(old(self).sp) + 256 * mem.load_spec(
                ((old(self).sp + 1) % 0x10000) as u16,
            ),
    {
        let low: u8 = rd(mem, self.sp);
        let high: u8 = rd(mem, wadd(self.sp, 1));
        self.sp = wadd(self.sp, 2);
        (low as u16) + 256 * (high as u16)
    }

    /// Run one ALU operation against the accumulator.
    fn alu_acc(&mut self, op3: u8, n: u8)
        requires
            op3 < 8,
            old(self).wf(),
        ensures
            final(self).wf(),
            *final(self) == (Cpu {
                regs: Registers {
                    a: alu_acc_a(op3, old(self).regs.a, old(self).regs.flags, n),
                    flags: alu_acc_f(op3, old(self).regs.a, old(self).regs.flags, n),
                    ..old(self).regs
                },
                ..*old(self)
            }),
    {
        let a: u8 = self.regs.a;
        let f: u8 = self.regs.flags;
        let cin: bool = crate::flags::flag_c(f);
        if op3 == 0 {
            let (r, nf) = crate::alu::alu_add(a, n);
            self.regs.a = r;
            self.regs.flags = nf;
        } else if op3 == 1 {
            let (r, nf) = crate::alu::alu_adc(a, n, cin);
            self.regs.a = r;
            self.regs.flags = nf;
        } else if op3 == 2 {
            let (r, nf) = crate::alu::alu_sub(a, n);
            self.regs.a = r;
            self.regs.flags = nf;
        } else if op3 == 3 {
            let (r, nf) = crate::alu::alu_sbc(a, n, cin);
            self.regs.a = r;
            self.regs.flags = nf;
        } else if op3 == 4 {
            let (r, nf) = crate::alu::alu_and(a, n);
            self.regs.a = r;
            self.regs.flags = nf;
        } else if op3 == 5 {
            let (r, nf) = crate::alu::alu_xor(a, n);
            self.regs.a = r;
            self.regs.flags = nf;
        } else if op3 == 6 {
            let (r, nf) = crate::alu::alu_or(a, n);
            self.regs.a = r;
            self.regs.flags = nf;
        } else {
            let nf: u8 = crate::alu::alu_cp(a, n);
            self.regs.flags = nf;
        }
    }

    /// Execute one CB-prefixed operation: rotates, shifts, SWAP, BIT,
    /// RES and SET over the register field.
    fn exec_cb(&mut self, mem: &mut Memory, cb: u8) -> (cycles: u8)
        requires
            old(self).wf(),
            old(mem).wf(),
        ensures
            final(self).wf(),
            final(mem).wf(),
            cycles == 8 || cycles == 12 || cycles == 16,
            cb_effect(*old(self), *old(mem), *final(self), *final(mem), cb, cycles),
    {
        proof {
            reveal(cb_effect);
        }
        let pc2: u16 = wadd(self.pc, 2);
        let group: u8 = (cb / 64) % 4;
        let op3: u8 = (cb / 8) % 8;
        let idx: u8 = cb % 8;
        let loc: Location = self.index(idx);
        let is_mem: bool = idx == 6;
        let cycles: u8 = if group == 0 {
            let v: u8 = loc.load8(&self.regs, mem);
            let cin: bool = crate::flags::flag_c(self.regs.flags);
            let rf: (u8, u8) = if op3 == 0 {
                crate::alu::alu_rlc(v, true)
            } else if op3 == 1 {
                crate::alu::alu_rrc(v, true)
            } else if op3 == 2 {
                crate::alu::alu_rl(v, cin, true)
            } else if op3 == 3 {
                crate::alu::alu_rr(v, cin, true)
            } else if op3 == 4 {
                crate::alu::alu_sla(v)
            } else if op3 == 5 {
                crate::alu::alu_sra(v)
            } else if op3 == 6 {
                crate::alu::alu_swap(v)
            } else {
                crate::alu::alu_srl(v)
            };
            loc.store8(&mut self.regs, mem, rf.0);
            self.regs.flags = rf.1;
            if is_mem {
                16
            } else {
                8
            }
        } else if group == 1 {
            let v: u8 = loc.load8(&self.regs, mem);
            self.regs.flags = crate::alu::alu_bit(v, op3, self.regs.flags);
            if is_mem {
                12
            } else {
                8
            }
        } else if group == 2 {
            let v: u8 = loc.load8(&self.regs, mem);
            let r: u8 = crate::alu::alu_res(v, op3);
            loc.store8(&mut self.regs, mem, r);
            if is_mem {
                16
            } else {
                8
            }
        } else {
            let v: u8 = loc.load8(&self.regs, mem);
            let r: u8 = crate::alu::alu_set(v, op3);
            loc.store8(&mut self.regs, mem, r);
            if is_mem {
                16
            } else {
                8
            }
        };
        self.pc = pc2;
        cycles
    }
}

/// The exact machine transition of the instruction `op`, from CPU and
/// bus state (c0, m0) to (c1, m1), taking `cycles`. For the stack
/// writers (PUSH, CALL, RST, LD (a16),SP and taken CALLs) the CPU side
/// is stated here and the bus side by `Cpu::push16`.
pub open spec fn instr_effect(c0: Cpu, m0: Memory, c1: Cpu, m1: Memory, op: u8, cycles: u8) -> bool {
        let pc1 = ((c0.pc + 1) % 0x10000) as u16;
        let pc2 = ((c0.pc + 2) % 0x10000) as u16;
        let pc3 = ((c0.pc + 3) % 0x10000) as u16;
        let rgs = c0.regs;
        let fl = rgs.flags;
        let hl = (rgs.h * 256 + rgs.l) as u16;
        let bc = (rgs.b * 256 + rgs.c) as u16;
        let de = (rgs.d * 256 + rgs.e) as u16;
        let n8 = m0.load_spec(pc1);
        let n16 = (m0.load_spec(pc1) + 256 * m0.load_spec(pc2)) as u16;
        let sp_dn = ((c0.sp + 0x10000 - 2) % 0x10000) as u16;
        let sp_up = ((c0.sp + 2) % 0x10000) as u16;
        let stack_lo = m0.load_spec(c0.sp);
        let stack_hi = m0.load_spec(((c0.sp + 1) % 0x10000) as u16);
        let ret_addr = (stack_lo + 256 * stack_hi) as u16;
        &&& (op == 0x00 ==> c1 == (Cpu { pc: pc1, ..c0 }) && m1
            == m0 && cycles == 4)
        &&& (0x40 <= op <= 0x7f && op != 0x76 ==> {
            let v = loc_load8_spec(index_spec(rgs, op % 8), rgs, m0);
            let dst = (op / 8) % 8;
            &&& cycles == (if op % 8 == 6 || dst == 6 {
                8int
            } else {
                4int
            })
            &&& (dst != 6 ==> m1 == m0 && c1 == (Cpu {
                pc: pc1,
                regs: reg8_store_spec(rgs, index_spec(rgs, dst)->Register_0, v),
                ..c0
            }))
            &&& (dst == 6 ==> c1 == (Cpu { pc: pc1, ..c0 })
                && Memory::write_effect(m0, m1, hl, v))
        })
        &&& (op < 0x40 && op % 8 == 6 ==> {
            let dst = (op / 8) % 8;
            &&& (dst != 6 ==> m1 == m0 && c1 == (Cpu {
                pc: pc2,
                regs: reg8_store_spec(rgs, index_spec(rgs, dst)->Register_0, n8),
                ..c0
            }) && cycles == 8)
            &&& (dst == 6 ==> c1 == (Cpu { pc: pc2, ..c0 })
                && Memory::write_effect(m0, m1, hl, n8) && cycles == 12)
        })
        &&& (op < 0x40 && op % 8 == 4 ==> {
            let dst = (op / 8) % 8;
            let v = loc_load8_spec(index_spec(rgs, dst), rgs, m0);
            let r = ((v + 1) % 256) as u8;
            let nf = make_flags((v + 1) % 256 == 0, false, v % 16 == 15, f_c(fl));
            &&& (dst != 6 ==> m1 == m0 && c1 == (Cpu {
                pc: pc1,
                regs: Registers {
                    flags: nf,
                    ..reg8_store_spec(rgs, index_spec(rgs, dst)->Register_0, r)
                },
                ..c0
            }) && cycles == 4)
            &&& (dst == 6 ==> c1 == (Cpu {
                pc: pc1,
                regs: Registers { flags: nf, ..rgs },
                ..c0
            }) && Memory::write_effect(m0, m1, hl, r) && cycles == 12)
        })
        &&& (op < 0x40 && op % 8 == 5 ==> {
            let dst = (op / 8) % 8;
            let v = loc_load8_spec(index_spec(rgs, dst), rgs, m0);
            let r = ((v + 255) % 256) as u8;
            let nf = make_flags(v == 1, true, v % 16 == 0, f_c(fl));
            &&& (dst != 6 ==> m1 == m0 && c1 == (Cpu {
                pc: pc1,
                regs: Registers {
                    flags: nf,
                    ..reg8_store_spec(rgs, index_spec(rgs, dst)->Register_0, r)
                },
                ..c0
            }) && cycles == 4)
            &&& (dst == 6 ==> c1 == (Cpu {
                pc: pc1,
                regs: Registers { flags: nf, ..rgs },
                ..c0
            }) && Memory::write_effect(m0, m1, hl, r) && cycles == 12)
        })
        &&& (op == 0x01 ==> m1 == m0 && c1 == (Cpu {
            pc: pc3,
            regs: Registers { b: (n16 / 256) as u8, c: (n16 % 256) as u8, ..rgs },
            ..c0
        }) && cycles == 12)
        &&& (op == 0x11 ==> m1 == m0 && c1 == (Cpu {
            pc: pc3,
            regs: Registers { d: (n16 / 256) as u8, e: (n16 % 256) as u8, ..rgs },
            ..c0
        }) && cycles == 12)
        &&& (op == 0x21 ==> m1 == m0 && c1 == (Cpu {
            pc: pc3,
            regs: Registers { h: (n16 / 256) as u8, l: (n16 % 256) as u8, ..rgs },
            ..c0
        }) && cycles == 12)
        &&& (op == 0x31 ==> m1 == m0 && c1 == (Cpu {
            pc: pc3,
            sp: n16,
            ..c0
        }) && cycles == 12)
        &&& (op == 0x03 ==> m1 == m0 && c1 == (Cpu {
            pc: pc1,
            regs: Registers {
                b: (((bc + 1) % 0x10000) / 256) as u8,
                c: (((bc + 1) % 0x10000) % 256) as u8,
                ..rgs
            },
            ..c0
        }) && cycles == 8)
        &&& (op == 0x13 ==> m1 == m0 && c1 == (Cpu {
            pc: pc1,
            regs: Registers {
                d: (((de + 1) % 0x10000) / 256) as u8,
                e: (((de + 1) % 0x10000) % 256) as u8,
                ..rgs
            },
            ..c0
        }) && cycles == 8)
        &&& (op == 0x23 ==> m1 == m0 && c1 == (Cpu {
            pc: pc1,
            regs: Registers {
                h: (((hl + 1) % 0x10000) / 256) as u8,
                l: (((hl + 1) % 0x10000) % 256) as u8,
                ..rgs
            },
            ..c0
        }) && cycles == 8)
        &&& (op == 0x33 ==> m1 == m0 && c1 == (Cpu {
            pc: pc1,
            sp: ((c0.sp + 1) % 0x10000) as u16,
            ..c0
        }) && cycles == 8)
        &&& (op == 0x0b ==> m1 == m0 && c1 == (Cpu {
            pc: pc1,
            regs: Registers {
                b: (((bc + 0x10000 - 1) % 0x10000) / 256) as u8,
                c: (((bc + 0x10000 - 1) % 0x10000) % 256) as u8,
                ..rgs
            },
            ..c0
        }) && cycles == 8)
        &&& (op == 0x1b ==> m1 == m0 && c1 == (Cpu {
            pc: pc1,
            regs: Registers {
                d: (((de + 0x10000 - 1) % 0x10000) / 256) as u8,
                e: (((de + 0x10000 - 1) % 0x10000) % 256) as u8,
                ..rgs
            },
            ..c0
        }) && cycles == 8)
        &&& (op == 0x2b ==> m1 == m0 && c1 == (Cpu {
            pc: pc1,
            regs: Registers {
                h: (((hl + 0x10000 - 1) % 0x10000) / 256) as u8,
                l: (((hl + 0x10000 - 1) % 0x10000) % 256) as u8,
                ..rgs
            },
            ..c0
        }) && cycles == 8)
        &&& (op == 0x3b ==> m1 == m0 && c1 == (Cpu {
            pc: pc1,
            sp: ((c0.sp + 0x10000 - 1) % 0x10000) as u16,
            ..c0
        }) && cycles == 8)
        &&& (op == 0x02 ==> c1 == (Cpu { pc: pc1, ..c0 })
            && Memory::write_effect(m0, m1, bc, rgs.a) && cycles == 8)
        &&& (op == 0x12 ==> c1 == (Cpu { pc: pc1, ..c0 })
            && Memory::write_effect(m0, m1, de, rgs.a) && cycles == 8)
        &&& (op == 0x22 ==> c1 == (Cpu {
            pc: pc1,
            regs: Registers {
                h: (((hl + 1) % 0x10000) / 256) as u8,
                l: (((hl + 1) % 0x10000) % 256) as u8,
                ..rgs
            },
            ..c0
        }) && Memory::write_effect(m0, m1, hl, rgs.a) && cycles == 8)
        &&& (op == 0x32 ==> c1 == (Cpu {
            pc: pc1,
            regs: Registers {
                h: (((hl + 0x10000 - 1) % 0x10000) / 256) as u8,
                l: (((hl + 0x10000 - 1) % 0x10000) % 256) as u8,
                ..rgs
            },
            ..c0
        }) && Memory::write_effect(m0, m1, hl, rgs.a) && cycles == 8)
        &&& (op == 0x0a ==> m1 == m0 && c1 == (Cpu {
            pc: pc1,
            regs: Registers { a: m0.load_spec(bc), ..rgs },
            ..c0
        }) && cycles == 8)
        &&& (op == 0x1a ==> m1 == m0 && c1 == (Cpu {
            pc: pc1,
            regs: Registers { a: m0.load_spec(de), ..rgs },
            ..c0
        }) && cycles == 8)
        &&& (op == 0x2a ==> m1 == m0 && c1 == (Cpu {
            pc: pc1,
            regs: Registers {
                a: m0.load_spec(hl),
                h: (((hl + 1) % 0x10000) / 256) as u8,
                l: (((hl + 1) % 0x10000) % 256) as u8,
                ..rgs
            },
            ..c0
        }) && cycles == 8)
        &&& (op == 0x3a ==> m1 == m0 && c1 == (Cpu {
            pc: pc1,
            regs: Registers {
                a: m0.load_spec(hl),
                h: (((hl + 0x10000 - 1) % 0x10000) / 256) as u8,
                l: (((hl + 0x10000 - 1) % 0x10000) % 256) as u8,
                ..rgs
            },
            ..c0
        }) && cycles == 8)
        &&& (op == 0x07 ==> m1 == m0 && c1 == (Cpu {
            pc: pc1,
            regs: Registers {
                a: cb_shift_result(0, rgs.a, f_c(fl)).0,
                flags: make_flags(false, false, false, rgs.a / 128 == 1),
                ..rgs
            },
            ..c0
        }) && cycles == 4)
        &&& (op == 0x0f ==> m1 == m0 && c1 == (Cpu {
            pc: pc1,
            regs: Registers {
                a: cb_shift_result(1, rgs.a, f_c(fl)).0,
                flags: make_flags(false, false, false, rgs.a % 2 == 1),
                ..rgs
            },
            ..c0
        }) && cycles == 4)
        &&& (op == 0x17 ==> m1 == m0 && c1 == (Cpu {
            pc: pc1,
            regs: Registers {
                a: cb_shift_result(2, rgs.a, f_c(fl)).0,
                flags: make_flags(false, false, false, rgs.a / 128 == 1),
                ..rgs
            },
            ..c0
        }) && cycles == 4)
        &&& (op == 0x1f ==> m1 == m0 && c1 == (Cpu {
            pc: pc1,
            regs: Registers {
                a: cb_shift_result(3, rgs.a, f_c(fl)).0,
                flags: make_flags(false, false, false, rgs.a % 2 == 1),
                ..rgs
            },
            ..c0
        }) && cycles == 4)
        &&& (op == 0x08 ==> c1 == (Cpu { pc: pc3, ..c0 }) && cycles == 20 && (exists|mm: Memory|
            #[trigger] Memory::write_effect(m0, mm, n16, (c0.sp % 256) as u8)
                && Memory::write_effect(
                mm,
                m1,
                ((n16 + 1) % 0x10000) as u16,
                (c0.sp / 256) as u8,
            )))
        &&& (op == 0x09 ==> m1 == m0 && c1 == (Cpu {
            pc: pc1,
            regs: Registers {
                h: (((hl + bc) % 0x10000) / 256) as u8,
                l: (((hl + bc) % 0x10000) % 256) as u8,
                flags: make_flags(
                    f_z(fl),
                    false,
                    hl % 4096 + bc % 4096 > 4095,
                    hl + bc > 65535,
                ),
                ..rgs
            },
            ..c0
        }) && cycles == 8)
        &&& (op == 0x19 ==> m1 == m0 && c1 == (Cpu {
            pc: pc1,
            regs: Registers {
                h: (((hl + de) % 0x10000) / 256) as u8,
                l: (((hl + de) % 0x10000) % 256) as u8,
                flags: make_flags(
                    f_z(fl),
                    false,
                    hl % 4096 + de % 4096 > 4095,
                    hl + de > 65535,
                ),
                ..rgs
            },
            ..c0
        }) && cycles == 8)
        &&& (op == 0x29 ==> m1 == m0 && c1 == (Cpu {
            pc: pc1,
            regs: Registers {
                h: (((hl + hl) % 0x10000) / 256) as u8,
                l: (((hl + hl) % 0x10000) % 256) as u8,
                flags: make_flags(
                    f_z(fl),
                    false,
                    hl % 4096 + hl % 4096 > 4095,
                    hl + hl > 65535,
                ),
                ..rgs
            },
            ..c0
        }) && cycles == 8)
        &&& (op == 0x39 ==> m1 == m0 && c1 == (Cpu {
            pc: pc1,
            regs: Registers {
                h: (((hl + c0.sp) % 0x10000) / 256) as u8,
                l: (((hl + c0.sp) % 0x10000) % 256) as u8,
                flags: make_flags(
                    f_z(fl),
                    false,
                    hl % 4096 + c0.sp % 4096 > 4095,
                    hl + c0.sp > 65535,
                ),
                ..rgs
            },
            ..c0
        }) && cycles == 8)
        &&& (op == 0x10 ==> m1 == m0 && c1 == (Cpu {
            pc: pc2,
            halted: true,
            ..c0
        }) && cycles == 4)
        &&& (op == 0x27 ==> m1 == m0 && c1 == (Cpu {
            pc: pc1,
            regs: Registers {
                a: crate::alu::daa_value(rgs.a, fl),
                flags: crate::alu::daa_flags(rgs.a, fl),
                ..rgs
            },
            ..c0
        }) && cycles == 4)
        &&& (op == 0x2f ==> m1 == m0 && c1 == (Cpu {
            pc: pc1,
            regs: Registers {
                a: !rgs.a,
                flags: make_flags(f_z(fl), true, true, f_c(fl)),
                ..rgs
            },
            ..c0
        }) && cycles == 4)
        &&& (op == 0x37 ==> m1 == m0 && c1 == (Cpu {
            pc: pc1,
            regs: Registers { flags: make_flags(f_z(fl), false, false, true), ..rgs },
            ..c0
        }) && cycles == 4)
        &&& (op == 0x3f ==> m1 == m0 && c1 == (Cpu {
            pc: pc1,
            regs: Registers { flags: make_flags(f_z(fl), false, false, !f_c(fl)), ..rgs },
            ..c0
        }) && cycles == 4)
        &&& ((op == 0x20 || op == 0x28 || op == 0x30 || op == 0x38) ==> m1
            == m0 && (if cond_spec((op / 8) % 4, fl) {
            c1 == (Cpu {
                pc: ((c0.pc + 2 + signed8(n8) + 0x10000) % 0x10000) as u16,
                ..c0
            }) && cycles == 12
        } else {
            c1 == (Cpu { pc: pc2, ..c0 }) && cycles == 8
        }))
        &&& ((op == 0xc0 || op == 0xc8 || op == 0xd0 || op == 0xd8) ==> m1
            == m0 && (if cond_spec((op / 8) % 4, fl) {
            c1 == (Cpu { pc: ret_addr, sp: sp_up, ..c0 }) && cycles
                == 20
        } else {
            c1 == (Cpu { pc: pc1, ..c0 }) && cycles == 8
        }))
        &&& (op == 0xc9 ==> m1 == m0 && c1 == (Cpu {
            pc: ret_addr,
            sp: sp_up,
            ..c0
        }) && cycles == 16)
        &&& (op == 0xd9 ==> m1 == m0 && c1 == (Cpu {
            pc: ret_addr,
            sp: sp_up,
            interrupts_enabled: true,
            ..c0
        }) && cycles == 16)
        &&& (op == 0xc1 ==> m1 == m0 && c1 == (Cpu {
            pc: pc1,
            sp: sp_up,
            regs: Registers { b: stack_hi, c: stack_lo, ..rgs },
            ..c0
        }) && cycles == 12)
        &&& (op == 0xd1 ==> m1 == m0 && c1 == (Cpu {
            pc: pc1,
            sp: sp_up,
            regs: Registers { d: stack_hi, e: stack_lo, ..rgs },
            ..c0
        }) && cycles == 12)
        &&& (op == 0xe1 ==> m1 == m0 && c1 == (Cpu {
            pc: pc1,
            sp: sp_up,
            regs: Registers { h: stack_hi, l: stack_lo, ..rgs },
            ..c0
        }) && cycles == 12)
        &&& (op == 0xf1 ==> m1 == m0 && c1 == (Cpu {
            pc: pc1,
            sp: sp_up,
            regs: Registers { a: stack_hi, flags: stack_lo & 0xf0, ..rgs },
            ..c0
        }) && cycles == 12)
        &&& ((op == 0xc5 || op == 0xd5 || op == 0xe5 || op == 0xf5) ==> c1
            == (Cpu { pc: pc1, sp: sp_dn, ..c0 }) && cycles == 16 && pushed16(
            m0,
            m1,
            c0.sp,
            if op == 0xc5 {
                bc as int
            } else if op == 0xd5 {
                de as int
            } else if op == 0xe5 {
                hl as int
            } else {
                c0.regs.a * 256 + c0.regs.flags
            },
        ))
        &&& ((op == 0xc2 || op == 0xca || op == 0xd2 || op == 0xda) ==> m1
            == m0 && (if cond_spec((op / 8) % 4, fl) {
            c1 == (Cpu { pc: n16, ..c0 }) && cycles == 16
        } else {
            c1 == (Cpu { pc: pc3, ..c0 }) && cycles == 12
        }))
        &&& ((op == 0xcd || op == 0xc4 || op == 0xcc || op == 0xd4 || op == 0xdc) ==> (
        if op == 0xcd || cond_spec((op / 8) % 4, fl) {
            c1 == (Cpu { pc: n16, sp: sp_dn, ..c0 }) && cycles == 24 && pushed16(
                m0,
                m1,
                c0.sp,
                pc3 as int,
            )
        } else {
            c1 == (Cpu { pc: pc3, ..c0 }) && m1 == m0
                && cycles == 12
        }))
        &&& ((op == 0xc7 || op == 0xcf || op == 0xd7 || op == 0xdf || op == 0xe7 || op
            == 0xef || op == 0xf7 || op == 0xff) ==> c1 == (Cpu {
            pc: (op - 0xc7) as u16,
            sp: sp_dn,
            ..c0
        }) && cycles == 16 && pushed16(m0, m1, c0.sp, pc1 as int))
        &&& (op == 0xcb ==> cb_effect(c0, m0, c1, m1, m0.load_spec(pc1), cycles))
        &&& (op == 0xe0 ==> c1 == (Cpu { pc: pc2, ..c0 })
            && Memory::write_effect(m0, m1, (0xff00 + n8) as u16, rgs.a)
            && cycles == 12)
        &&& (op == 0xf0 ==> m1 == m0 && c1 == (Cpu {
            pc: pc2,
            regs: Registers { a: m0.load_spec((0xff00 + n8) as u16), ..rgs },
            ..c0
        }) && cycles == 12)
        &&& (op == 0xe2 ==> c1 == (Cpu { pc: pc1, ..c0 })
            && Memory::write_effect(
            m0,
            m1,
            (0xff00 + rgs.c) as u16,
            rgs.a,
        ) && cycles == 8)
        &&& (op == 0xf2 ==> m1 == m0 && c1 == (Cpu {
            pc: pc1,
            regs: Registers { a: m0.load_spec((0xff00 + rgs.c) as u16), ..rgs },
            ..c0
        }) && cycles == 8)
        &&& (op == 0xea ==> c1 == (Cpu { pc: pc3, ..c0 })
            && Memory::write_effect(m0, m1, n16, rgs.a) && cycles == 16)
        &&& (op == 0xfa ==> m1 == m0 && c1 == (Cpu {
            pc: pc3,
            regs: Registers { a: m0.load_spec(n16), ..rgs },
            ..c0
        }) && cycles == 16)
        &&& (op == 0xe8 ==> m1 == m0 && c1 == (Cpu {
            pc: pc2,
            sp: ((c0.sp + signed8(n8) + 0x10000) % 0x10000) as u16,
            regs: Registers {
                flags: make_flags(
                    false,
                    false,
                    c0.sp % 16 + n8 % 16 > 15,
                    c0.sp % 256 + n8 > 255,
                ),
                ..rgs
            },
            ..c0
        }) && cycles == 16)
        &&& (op == 0xf8 ==> m1 == m0 && c1 == (Cpu {
            pc: pc2,
            regs: Registers {
                h: (((c0.sp + signed8(n8) + 0x10000) % 0x10000) / 256) as u8,
                l: (((c0.sp + signed8(n8) + 0x10000) % 0x10000) % 256) as u8,
                flags: make_flags(
                    false,
                    false,
                    c0.sp % 16 + n8 % 16 > 15,
                    c0.sp % 256 + n8 > 255,
                ),
                ..rgs
            },
            ..c0
        }) && cycles == 12)
        &&& ((op == 0xd3 || op == 0xdb || op == 0xdd || op == 0xe3 || op == 0xe4 || op
            == 0xeb || op == 0xec || op == 0xed || op == 0xf4 || op == 0xfc || op == 0xfd)
            ==> m1 == m0 && c1 == (Cpu {
            pc: pc1,
            ..c0
        }) && cycles == 4)
        &&& (op == 0x76 ==> c1 == (Cpu { pc: pc1, halted: true, ..c0 })
            && m1 == m0 && cycles == 4)
        &&& (op == 0xf3 ==> c1 == (Cpu {
            pc: pc1,
            interrupts_enabled: false,
            ei_pending: false,
            ..c0
        }) && m1 == m0 && cycles == 4)
        &&& (op == 0xfb ==> c1 == (Cpu {
            pc: pc1,
            ei_pending: true,
            ..c0
        }) && m1 == m0 && cycles == 4)
        &&& (op == 0xc3 ==> c1 == (Cpu {
            pc: (m0.load_spec(pc1) + 256 * m0.load_spec(pc2)) as u16,
            ..c0
        }) && m1 == m0 && cycles == 16)
        &&& (op == 0x18 ==> c1 == (Cpu {
            pc: ((c0.pc + 2 + signed8(m0.load_spec(pc1)) + 0x10000)
                % 0x10000) as u16,
            ..c0
        }) && m1 == m0 && cycles == 12)
        &&& (op == 0xe9 ==> c1 == (Cpu {
            pc: (c0.regs.h * 256 + c0.regs.l) as u16,
            ..c0
        }) && m1 == m0 && cycles == 4)
        &&& (op == 0xf9 ==> c1 == (Cpu {
            pc: pc1,
            sp: (c0.regs.h * 256 + c0.regs.l) as u16,
            ..c0
        }) && m1 == m0 && cycles == 8)
        &&& (0x80 <= op <= 0xbf ==> {
            let n = loc_load8_spec(
                index_spec(c0.regs, op % 8),
                c0.regs,
                m0,
            );
            &&& c1 == (Cpu {
                pc: pc1,
                regs: Registers {
                    a: alu_acc_a(
                        (op / 8) % 8,
                        c0.regs.a,
                        c0.regs.flags,
                        n,
                    ),
                    flags: alu_acc_f(
                        (op / 8) % 8,
                        c0.regs.a,
                        c0.regs.flags,
                        n,
                    ),
                    ..c0.regs
                },
                ..c0
            })
            &&& m1 == m0
            &&& cycles == (if op % 8 == 6 {
                8int
            } else {
                4int
            })
        })
        &&& ((op == 0xc6 || op == 0xce || op == 0xd6 || op == 0xde || op == 0xe6 || op
            == 0xee || op == 0xf6 || op == 0xfe) ==> {
            let n = m0.load_spec(pc1);
            &&& c1 == (Cpu {
                pc: pc2,
                regs: Registers {
                    a: alu_acc_a(
                        (op / 8) % 8,
                        c0.regs.a,
                        c0.regs.flags,
                        n,
                    ),
                    flags: alu_acc_f(
                        (op / 8) % 8,
                        c0.regs.a,
                        c0.regs.flags,
                        n,
                    ),
                    ..c0.regs
                },
                ..c0
            })
            &&& m1 == m0
            &&& cycles == 8
        })
}

/// Whether an opcode at or above 0xC0 belongs to the miscellaneous half
/// of that block: immediate ALU, high-page loads, stack-pointer
/// arithmetic, the interrupt gates and the unused encodings.
pub open spec fn high_misc(opcode: u8) -> bool {
    ||| opcode % 8 == 6
    ||| opcode == 0xe0
    ||| opcode == 0xf0
    ||| opcode == 0xe2
    ||| opcode == 0xf2
    ||| opcode == 0xe8
    ||| opcode == 0xf8
    ||| opcode == 0xf9
    ||| opcode == 0xe9
    ||| opcode == 0xea
    ||| opcode == 0xfa
    ||| opcode == 0xf3
    ||| opcode == 0xfb
    ||| opcode == 0xd3
    ||| opcode == 0xdb
    ||| opcode == 0xdd
    ||| opcode == 0xe3
    ||| opcode == 0xe4
    ||| opcode == 0xeb
    ||| opcode == 0xec
    ||| opcode == 0xed
    ||| opcode == 0xf4
    ||| opcode == 0xfc
    ||| opcode == 0xfd
}

impl Cpu {
    /// Fetch, decode and execute the instruction at PC, returning the
    /// T-cycles it took. Every opcode byte is defined; the few encodings
    /// the hardware leaves unused fall through as one-byte no-ops.
    /// After any instruction the low nibble of F is zero; the whole
    /// transition is the one `instr_effect` states for the fetched
    /// opcode.
    pub fn decode(&mut self, mem: &mut Memory) -> (cycles: u8)
        requires
            old(self).wf(),
            old(mem).wf(),
        ensures
            final(self).wf(),
            final(mem).wf(),
            flags_wf(final(self).regs.flags),
            4 <= cycles <= 24 && cycles % 4 == 0,
            instr_effect(
                *old(self),
                *old(mem),
                *final(self),
                *final(mem),
                old(mem).load_spec(old(self).pc),
                cycles,
            ),
    {
        let pc0: u16 = self.pc;
        let opcode: u8 = rd(mem, pc0);
        if opcode < 0x40 {
            self.exec_low(mem, opcode)
        } else if opcode < 0xc0 {
            self.exec_mid(mem, opcode)
        } else {
            self.exec_high(mem, opcode)
        }
    }

    /// Execute one opcode of the block below 0x40: loads, 16-bit steps,
    /// rotates on A, relative jumps and the flag instructions.
    #[verifier::rlimit(100)]
    #[verifier::spinoff_prover]
    fn exec_low(&mut self, mem: &mut Memory, opcode: u8) -> (cycles: u8)
        requires
            old(self).wf(),
            old(mem).wf(),
            opcode < 0x40,
        ensures
            final(self).wf(),
            final(mem).wf(),
            flags_wf(final(self).regs.flags),
            4 <= cycles <= 24 && cycles % 4 == 0,
            instr_effect(*old(self), *old(mem), *final(self), *final(mem), opcode, cycles),
    {
        let pc0: u16 = self.pc;
        let mut cycles: u8 = 4;
        if opcode == 0x00 {
            // NOP
            self.pc = wadd(pc0, 1);
        } else if opcode == 0x01 || opcode == 0x11 || opcode == 0x21 || opcode == 0x31 {
            // LD rr,d16
            let low: u8 = rd(mem, wadd(pc0, 1));
            let high: u8 = rd(mem, wadd(pc0, 2));
            let imm: u16 = (low as u16) + 256 * (high as u16);
            if opcode == 0x01 {
                self.regs.write_bc(imm);
            } else if opcode == 0x11 {
                self.regs.write_de(imm);
            } else if opcode == 0x21 {
                self.regs.write_hl(imm);
            } else {
                self.sp = imm;
            }
            self.pc = wadd(pc0, 3);
            cycles = 12;
        } else if opcode == 0x02 || opcode == 0x12 || opcode == 0x22 || opcode == 0x32 {
            // LD (BC|DE|HL+|HL-),A
            let addr: u16 = if opcode == 0x02 {
                self.regs.bc()
            } else if opcode == 0x12 {
                self.regs.de()
            } else {
                self.regs.hl()
            };
            wr(mem, addr, self.regs.a);
            if opcode == 0x22 {
                let hl: u16 = self.regs.hl();
                self.regs.write_hl(wadd(hl, 1));
            } else if opcode == 0x32 {
                let hl: u16 = self.regs.hl();
                self.regs.write_hl(wsub(hl, 1));
            }
            self.pc = wadd(pc0, 1);
            cycles = 8;
        } else if opcode == 0x0a || opcode == 0x1a || opcode == 0x2a || opcode == 0x3a {
            // LD A,(BC|DE|HL+|HL-)
            let addr: u16 = if opcode == 0x0a {
                self.regs.bc()
            } else if opcode == 0x1a {
                self.regs.de()
            } else {
                self.regs.hl()
            };
            self.regs.a = rd(mem, addr);
            if opcode == 0x2a {
                let hl: u16 = self.regs.hl();
                self.regs.write_hl(wadd(hl, 1));
            } else if opcode == 0x3a {
                let hl: u16 = self.regs.hl();
                self.regs.write_hl(wsub(hl, 1));
            }
            self.pc = wadd(pc0, 1);
            cycles = 8;
        } else if opcode == 0x03 || opcode == 0x13 || opcode == 0x23 || opcode == 0x33 {
            // INC rr: no flags
            if opcode == 0x03 {
                let v: u16 = self.regs.bc();
                self.regs.write_bc(wadd(v, 1));
            } else if opcode == 0x13 {
                let v: u16 = self.regs.de();
                self.regs.write_de(wadd(v, 1));
            } else if opcode == 0x23 {
                let v: u16 = self.regs.hl();
                self.regs.write_hl(wadd(v, 1));
            } else {
                self.sp = wadd(self.sp, 1);
            }
            self.pc = wadd(pc0, 1);
            cycles = 8;
        } else if opcode == 0x0b || opcode == 0x1b || opcode == 0x2b || opcode == 0x3b {
            // DEC rr: no flags
            if opcode == 0x0b {
                let v: u16 = self.regs.bc();
                self.regs.write_bc(wsub(v, 1));
            } else if opcode == 0x1b {
                let v: u16 = self.regs.de();
                self.regs.write_de(wsub(v, 1));
            } else if opcode == 0x2b {
                let v: u16 = self.regs.hl();
                self.regs.write_hl(wsub(v, 1));
            } else {
                self.sp = wsub(self.sp, 1);
            }
            self.pc = wadd(pc0, 1);
            cycles = 8;
        } else if opcode == 0x04 || opcode == 0x14 || opcode == 0x24 || opcode == 0x34
            || opcode == 0x0c || opcode == 0x1c || opcode == 0x2c || opcode == 0x3c {
            // INC r
            let idx: u8 = (opcode / 8) % 8;
            let loc: Location = self.index(idx);
            let v: u8 = loc.load8(&self.regs, mem);
            let (r, f) = crate::alu::alu_inc(v, self.regs.flags);
            loc.store8(&mut self.regs, mem, r);
            self.regs.flags = f;
            self.pc = wadd(pc0, 1);
            cycles = if idx == 6 {
                12
            } else {
                4
            };
        } else if opcode == 0x05 || opcode == 0x15 || opcode == 0x25 || opcode == 0x35
            || opcode == 0x0d || opcode == 0x1d || opcode == 0x2d || opcode == 0x3d {
            // DEC r
            let idx: u8 = (opcode / 8) % 8;
            let loc: Location = self.index(idx);
            let v: u8 = loc.load8(&self.regs, mem);
            let (r, f) = crate::alu::alu_dec(v, self.regs.flags);
            loc.store8(&mut self.regs, mem, r);
            self.regs.flags = f;
            self.pc = wadd(pc0, 1);
            cycles = if idx == 6 {
                12
            } else {
                4
            };
        } else if opcode == 0x06 || opcode == 0x16 || opcode == 0x26 || opcode == 0x36
            || opcode == 0x0e || opcode == 0x1e || opcode == 0x2e || opcode == 0x3e {
            // LD r,d8
            let imm: u8 = rd(mem, wadd(pc0, 1));
            let idx: u8 = (opcode / 8) % 8;
            let loc: Location = self.index(idx);
            loc.store8(&mut self.regs, mem, imm);
            self.pc = wadd(pc0, 2);
            cycles = if idx == 6 {
                12
            } else {
                8
            };
        } else if opcode == 0x07 {
            // RLCA: Z is forced to 0
            let (r, f) = crate::alu::alu_rlc(self.regs.a, false);
            self.regs.a = r;
            self.regs.flags = f;
            self.pc = wadd(pc0, 1);
        } else if opcode == 0x0f {
            // RRCA
            let (r, f) = crate::alu::alu_rrc(self.regs.a, false);
            self.regs.a = r;
            self.regs.flags = f;
            self.pc = wadd(pc0, 1);
        } else if opcode == 0x17 {
            // RLA
            let cin: bool = crate::flags::flag_c(self.regs.flags);
            let (r, f) = crate::alu::alu_rl(self.regs.a, cin, false);
            self.regs.a = r;
            self.regs.flags = f;
            self.pc = wadd(pc0, 1);
        } else if opcode == 0x1f {
            // RRA
            let cin: bool = crate::flags::flag_c(self.regs.flags);
            let (r, f) = crate::alu::alu_rr(self.regs.a, cin, false);
            self.regs.a = r;
            self.regs.flags = f;
            self.pc = wadd(pc0, 1);
        } else if opcode == 0x08 {
            // LD (a16),SP
            let low: u8 = rd(mem, wadd(pc0, 1));
            let high: u8 = rd(mem, wadd(pc0, 2));
            let addr: u16 = (low as u16) + 256 * (high as u16);
            wr(mem, addr, (self.sp % 256) as u8);
            let ghost mm = *mem;
            wr(mem, wadd(addr, 1), (self.sp / 256) as u8);
            proof {
                assert(Memory::write_effect(*old(mem), mm, addr, (self.sp % 256) as u8)
                    && Memory::write_effect(
                    mm,
                    *mem,
                    ((addr + 1) % 0x10000) as u16,
                    (self.sp / 256) as u8,
                ));
            }
            self.pc = wadd(pc0, 3);
            cycles = 20;
        } else if opcode == 0x09 || opcode == 0x19 || opcode == 0x29 || opcode == 0x39 {
            // ADD HL,rr
            let operand: u16 = if opcode == 0x09 {
                self.regs.bc()
            } else if opcode == 0x19 {
                self.regs.de()
            } else if opcode == 0x29 {
                self.regs.hl()
            } else {
                self.sp
            };
            let (r, f) = crate::alu::alu_add16(self.regs.hl(), operand, self.regs.flags);
            self.regs.write_hl(r);
            self.regs.flags = f;
            self.pc = wadd(pc0, 1);
            cycles = 8;
        } else if opcode == 0x10 {
            // STOP: treated as HALT; the operand byte is skipped
            self.halted = true;
            self.pc = wadd(pc0, 2);
        } else if opcode == 0x18 {
            // JR e
            let e: u8 = rd(mem, wadd(pc0, 1));
            self.pc = rel_target(pc0, e);
            cycles = 12;
        } else if opcode == 0x20 || opcode == 0x28 || opcode == 0x30 || opcode == 0x38 {
            // JR cc,e
            let e: u8 = rd(mem, wadd(pc0, 1));
            let cc: u8 = (opcode / 8) % 4;
            if self.test_cond(cc) {
                self.pc = rel_target(pc0, e);
                cycles = 12;
            } else {
                self.pc = wadd(pc0, 2);
                cycles = 8;
            }
        } else if opcode == 0x27 {
            // DAA
            let (r, f) = crate::alu::alu_daa(self.regs.a, self.regs.flags);
            self.regs.a = r;
            self.regs.flags = f;
            self.pc = wadd(pc0, 1);
        } else if opcode == 0x2f {
            // CPL
            self.regs.a = !self.regs.a;
            self.regs.flags = crate::flags::flags_from(
                crate::flags::flag_z(self.regs.flags),
                true,
                true,
                crate::flags::flag_c(self.regs.flags),
            );
            self.pc = wadd(pc0, 1);
        } else if opcode == 0x37 {
            // SCF
            self.regs.flags = crate::flags::flags_from(
                crate::flags::flag_z(self.regs.flags),
                false,
                false,
                true,
            );
            self.pc = wadd(pc0, 1);
        } else if opcode == 0x3f {
            // CCF
            self.regs.flags = crate::flags::flags_from(
                crate::flags::flag_z(self.regs.flags),
                false,
                false,
                !crate::flags::flag_c(self.regs.flags),
            );
            self.pc = wadd(pc0, 1);
        } else {
            // the branches above cover every opcode this block admits
            proof {
                assert(false);
            }
        }
        cycles
    }

    /// Execute one opcode of the register-to-register load block and the
    /// ALU block, 0x40 to 0xBF.
    #[verifier::rlimit(100)]
    #[verifier::spinoff_prover]
    fn exec_mid(&mut self, mem: &mut Memory, opcode: u8) -> (cycles: u8)
        requires
            old(self).wf(),
            old(mem).wf(),
            0x40 <= opcode < 0xc0,
        ensures
            final(self).wf(),
            final(mem).wf(),
            flags_wf(final(self).regs.flags),
            4 <= cycles <= 24 && cycles % 4 == 0,
            instr_effect(*old(self), *old(mem), *final(self), *final(mem), opcode, cycles),
    {
        let pc0: u16 = self.pc;
        let mut cycles: u8 = 4;
        if opcode == 0x76 {
            // HALT
            self.halted = true;
            self.pc = wadd(pc0, 1);
        } else if 0x40 <= opcode && opcode <= 0x7f {
            // LD r,r'
            let src: u8 = opcode % 8;
            let dst: u8 = (opcode / 8) % 8;
            let src_loc: Location = self.index(src);
            let v: u8 = src_loc.load8(&self.regs, mem);
            let dst_loc: Location = self.index(dst);
            dst_loc.store8(&mut self.regs, mem, v);
            self.pc = wadd(pc0, 1);
            cycles = if src == 6 || dst == 6 {
                8
            } else {
                4
            };
        } else if 0x80 <= opcode && opcode <= 0xbf {
            // ALU A,r
            let src: u8 = opcode % 8;
            let op3: u8 = (opcode / 8) % 8;
            let loc: Location = self.index(src);
            let n: u8 = loc.load8(&self.regs, mem);
            self.alu_acc(op3, n);
            self.pc = wadd(pc0, 1);
            cycles = if src == 6 {
                8
            } else {
                4
            };
        } else {
            // the branches above cover every opcode this block admits
            proof {
                assert(false);
            }
        }
        cycles
    }

    /// Execute one opcode of the block from 0xC0 up, split between the
    /// control-flow opcodes and the rest.
    fn exec_high(&mut self, mem: &mut Memory, opcode: u8) -> (cycles: u8)
        requires
            old(self).wf(),
            old(mem).wf(),
            opcode >= 0xc0,
        ensures
            final(self).wf(),
            final(mem).wf(),
            flags_wf(final(self).regs.flags),
            4 <= cycles <= 24 && cycles % 4 == 0,
            instr_effect(*old(self), *old(mem), *final(self), *final(mem), opcode, cycles),
    {
        if opcode % 8 == 6 || opcode == 0xe0 || opcode == 0xf0 || opcode == 0xe2
            || opcode == 0xf2 || opcode == 0xe8 || opcode == 0xf8 || opcode == 0xf9 || opcode
            == 0xe9 || opcode == 0xea || opcode == 0xfa || opcode == 0xf3 || opcode == 0xfb
            || opcode == 0xd3 || opcode == 0xdb || opcode == 0xdd || opcode == 0xe3 || opcode
            == 0xe4 || opcode == 0xeb || opcode == 0xec || opcode == 0xed || opcode == 0xf4
            || opcode == 0xfc || opcode == 0xfd {
            self.exec_high_misc(mem, opcode)
        } else {
            self.exec_high_control(mem, opcode)
        }
    }

    /// Execute one opcode of the stack, call, return, jump and CB
    /// families in the block from 0xC0 up.
    #[verifier::rlimit(100)]
    #[verifier::spinoff_prover]
    fn exec_high_control(&mut self, mem: &mut Memory, opcode: u8) -> (cycles: u8)
        requires
            old(self).wf(),
            old(mem).wf(),
            opcode >= 0xc0,
            !high_misc(opcode),
        ensures
            final(self).wf(),
            final(mem).wf(),
            flags_wf(final(self).regs.flags),
            4 <= cycles <= 24 && cycles % 4 == 0,
            instr_effect(*old(self), *old(mem), *final(self), *final(mem), opcode, cycles),
    {
        let pc0: u16 = self.pc;
        let mut cycles: u8 = 4;
        if opcode == 0xc0 || opcode == 0xc8 || opcode == 0xd0 || opcode == 0xd8 {
            // RET cc
            let cc: u8 = (opcode / 8) % 4;
            if self.test_cond(cc) {
                let addr: u16 = self.pop16(mem);
                self.pc = addr;
                cycles = 20;
            } else {
                self.pc = wadd(pc0, 1);
                cycles = 8;
            }
        } else if opcode == 0xc9 {
            // RET
            let addr: u16 = self.pop16(mem);
            self.pc = addr;
            cycles = 16;
        } else if opcode == 0xd9 {
            // RETI: return and re-enable interrupts
            let addr: u16 = self.pop16(mem);
            self.pc = addr;
            self.interrupts_enabled = true;
            cycles = 16;
        } else if opcode == 0xc1 || opcode == 0xd1 || opcode == 0xe1 || opcode == 0xf1 {
            // POP rr
            let v: u16 = self.pop16(mem);
            if opcode == 0xc1 {
                self.regs.write_bc(v);
            } else if opcode == 0xd1 {
                self.regs.write_de(v);
            } else if opcode == 0xe1 {
                self.regs.write_hl(v);
            } else {
                self.regs.write_af(v);
            }
            self.pc = wadd(pc0, 1);
            cycles = 12;
        } else if opcode == 0xc5 || opcode == 0xd5 || opcode == 0xe5 || opcode == 0xf5 {
            // PUSH rr
            let v: u16 = if opcode == 0xc5 {
                self.regs.bc()
            } else if opcode == 0xd5 {
                self.regs.de()
            } else if opcode == 0xe5 {
                self.regs.hl()
            } else {
                self.regs.af()
            };
            self.push16(mem, v);
            self.pc = wadd(pc0, 1);
            cycles = 16;
        } else if opcode == 0xc3 {
            // JP a16
            let low: u8 = rd(mem, wadd(pc0, 1));
            let high: u8 = rd(mem, wadd(pc0, 2));
            self.pc = (low as u16) + 256 * (high as u16);
            cycles = 16;
        } else if opcode == 0xc2 || opcode == 0xca || opcode == 0xd2 || opcode == 0xda {
            // JP cc,a16
            let low: u8 = rd(mem, wadd(pc0, 1));
            let high: u8 = rd(mem, wadd(pc0, 2));
            let cc: u8 = (opcode / 8) % 4;
            if self.test_cond(cc) {
                self.pc = (low as u16) + 256 * (high as u16);
                cycles = 16;
            } else {
                self.pc = wadd(pc0, 3);
                cycles = 12;
            }
        } else if opcode == 0xc4 || opcode == 0xcc || opcode == 0xd4 || opcode == 0xdc || opcode
            == 0xcd {
            // CALL [cc,]a16
            let low: u8 = rd(mem, wadd(pc0, 1));
            let high: u8 = rd(mem, wadd(pc0, 2));
            let taken: bool = if opcode == 0xcd {
                true
            } else {
                let cc: u8 = (opcode / 8) % 4;
                self.test_cond(cc)
            };
            if taken {
                let ret: u16 = wadd(pc0, 3);
                self.push16(mem, ret);
                self.pc = (low as u16) + 256 * (high as u16);
                cycles = 24;
            } else {
                self.pc = wadd(pc0, 3);
                cycles = 12;
            }
        } else if opcode == 0xc7 || opcode == 0xcf || opcode == 0xd7 || opcode == 0xdf || opcode
            == 0xe7 || opcode == 0xef || opcode == 0xf7 || opcode == 0xff {
            // RST n
            let ret: u16 = wadd(pc0, 1);
            self.push16(mem, ret);
            self.pc = (opcode - 0xc7) as u16;
            cycles = 16;
        } else if opcode == 0xcb {
            // CB prefix
            let cb: u8 = rd(mem, wadd(pc0, 1));
            cycles = self.exec_cb(mem, cb);
        } else {
            // the branches above cover every opcode this block admits
            proof {
                assert(false);
            }
        }
        cycles
    }

    /// Execute one opcode of the immediate-ALU, high-page load,
    /// stack-pointer and interrupt-gate families in the block from 0xC0 up.
    #[verifier::rlimit(100)]
    #[verifier::spinoff_prover]
    fn exec_high_misc(&mut self, mem: &mut Memory, opcode: u8) -> (cycles: u8)
        requires
            old(self).wf(),
            old(mem).wf(),
            opcode >= 0xc0,
            high_misc(opcode),
        ensures
            final(self).wf(),
            final(mem).wf(),
            flags_wf(final(self).regs.flags),
            4 <= cycles <= 24 && cycles % 4 == 0,
            instr_effect(*old(self), *old(mem), *final(self), *final(mem), opcode, cycles),
    {
        let pc0: u16 = self.pc;
        let mut cycles: u8 = 4;
        if opcode == 0xc6 || opcode == 0xce || opcode == 0xd6 || opcode == 0xde || opcode
            == 0xe6 || opcode == 0xee || opcode == 0xf6 || opcode == 0xfe {
            // ALU A,d8
            let n: u8 = rd(mem, wadd(pc0, 1));
            let op3: u8 = (opcode / 8) % 8;
            self.alu_acc(op3, n);
            self.pc = wadd(pc0, 2);
            cycles = 8;
        } else if opcode == 0xe0 {
            // LDH (a8),A
            let n: u8 = rd(mem, wadd(pc0, 1));
            wr(mem, 0xff00 + (n as u16), self.regs.a);
            self.pc = wadd(pc0, 2);
            cycles = 12;
        } else if opcode == 0xf0 {
            // LDH A,(a8)
            let n: u8 = rd(mem, wadd(pc0, 1));
            self.regs.a = rd(mem, 0xff00 + (n as u16));
            self.pc = wadd(pc0, 2);
            cycles = 12;
        } else if opcode == 0xe2 {
            // LD (C),A
            wr(mem, 0xff00 + (self.regs.c as u16), self.regs.a);
            self.pc = wadd(pc0, 1);
            cycles = 8;
        } else if opcode == 0xf2 {
            // LD A,(C)
            self.regs.a = rd(mem, 0xff00 + (self.regs.c as u16));
            self.pc = wadd(pc0, 1);
            cycles = 8;
        } else if opcode == 0xe8 {
            // ADD SP,e8
            let e: u8 = rd(mem, wadd(pc0, 1));
            let (r, f) = crate::alu::alu_add_sp(self.sp, e);
            self.sp = r;
            self.regs.flags = f;
            self.pc = wadd(pc0, 2);
            cycles = 16;
        } else if opcode == 0xf8 {
            // LD HL,SP+e8
            let e: u8 = rd(mem, wadd(pc0, 1));
            let (r, f) = crate::alu::alu_add_sp(self.sp, e);
            self.regs.write_hl(r);
            self.regs.flags = f;
            self.pc = wadd(pc0, 2);
            cycles = 12;
        } else if opcode == 0xf9 {
            // LD SP,HL
            self.sp = self.regs.hl();
            self.pc = wadd(pc0, 1);
            cycles = 8;
        } else if opcode == 0xe9 {
            // JP (HL)
            self.pc = self.regs.hl();
        } else if opcode == 0xea {
            // LD (a16),A
            let low: u8 = rd(mem, wadd(pc0, 1));
            let high: u8 = rd(mem, wadd(pc0, 2));
            wr(mem, (low as u16) + 256 * (high as u16), self.regs.a);
            self.pc = wadd(pc0, 3);
            cycles = 16;
        } else if opcode == 0xfa {
            // LD A,(a16)
            let low: u8 = rd(mem, wadd(pc0, 1));
            let high: u8 = rd(mem, wadd(pc0, 2));
            self.regs.a = rd(mem, (low as u16) + 256 * (high as u16));
            self.pc = wadd(pc0, 3);
            cycles = 16;
        } else if opcode == 0xf3 {
            // DI
            self.interrupts_enabled = false;
            self.ei_pending = false;
            self.pc = wadd(pc0, 1);
        } else if opcode == 0xfb {
            // EI: takes effect after the next instruction
            self.ei_pending = true;
            self.pc = wadd(pc0, 1);
        } else {
            // 0xd3, 0xdb, 0xdd, 0xe3, 0xe4, 0xeb..0xed, 0xf4, 0xfc, 0xfd:
            // not instructions on this hardware; pass over the byte
            self.pc = wadd(pc0, 1);
        }
        cycles
    }

}

/// After any instruction, whatever the opcode, the low four bits of F
/// are zero: every transition `instr_effect` admits from a well-formed
/// CPU leaves a well-formed flag register.
#[verifier::rlimit(100)]
#[verifier::spinoff_prover]
pub proof fn lemma_flags_nibble_after_instruction(
    c0: Cpu,
    m0: Memory,
    c1: Cpu,
    m1: Memory,
    op: u8,
    cycles: u8,
)
    requires
        c0.wf(),
        instr_effect(c0, m0, c1, m1, op, cycles),
    ensures
        flags_wf(c1.regs.flags),
{
    reveal(cb_effect);
    let pc1 = ((c0.pc + 1) % 0x10000) as u16;
    lemma_high_nibble(m0.load_spec(c0.pc));
    lemma_high_nibble(m0.load_spec(c0.sp));
}

/// Once an interrupt has been serviced, its bit is gone from IF, so
/// IF & IE & 0x1F has nothing left for it: the request was consumed.
pub proof fn lemma_serviced_bit_consumed(if_reg: u8, ie: u8, m: u8)
    by (bit_vector)
    requires
        m == 1 || m == 2 || m == 4 || m == 8 || m == 16,
        if_reg < 32,
        (if_reg / m) % 2 == 0,
    ensures
        if_reg & ie & m == 0,
        (if_reg & ie & 0x1f) & m == 0,
{
}

/// A five-bit register with one given bit (a power-of-two mask) forced
/// off.
pub open spec fn clear_bit_spec(v: u8, m: u8) -> u8 {
    if (v / m) % 2 == 1 {
        (v - m) as u8
    } else {
        v
    }
}

/// Clear one bit of a five-bit register.
fn clear_bit(v: u8, m: u8) -> (r: u8)
    requires
        m == 1 || m == 2 || m == 4 || m == 8 || m == 16,
        v < 32,
    ensures
        r == clear_bit_spec(v, m),
        (r / m) % 2 == 0,
        r < 32,
{
    if m == 1 {
        if (v / 1) % 2 == 1 {
            v - 1
        } else {
            v
        }
    } else if m == 2 {
        if (v / 2) % 2 == 1 {
            v - 2
        } else {
            v
        }
    } else if m == 4 {
        if (v / 4) % 2 == 1 {
            v - 4
        } else {
            v
        }
    } else if m == 8 {
        if (v / 8) % 2 == 1 {
            v - 8
        } else {
            v
        }
    } else {
        if (v / 16) % 2 == 1 {
            v - 16
        } else {
            v
        }
    }
}

/// The full transition of one processor step. A sleeping HALT (no
/// enabled request pending) idles for 4 cycles and changes nothing.
/// A pending enabled request with IME set is dispatched: 20 cycles,
/// PC pushed, IME and HALT dropped, the winning IF bit consumed, and
/// control at the vector. Otherwise the fetched instruction runs, from
/// a state with the HALT wake and the EI latch accounted, and a pending
/// EI raises IME once it is done.
pub open spec fn step_effect(c0: Cpu, m0: Memory, c1: Cpu, m1: Memory, cycles: u8) -> bool {
    let pending = (m0.if_reg & (m0.ie & 0x1f)) != 0;
    let m = lowest_bit(m0.if_reg & (m0.ie & 0x1f));
    if c0.halted && !pending {
        c1 == c0 && m1 == m0 && cycles == 4
    } else if pending && c0.interrupts_enabled {
        &&& cycles == 20
        &&& c1 == (Cpu {
            sp: ((c0.sp + 0x10000 - 2) % 0x10000) as u16,
            pc: vector_of(m),
            interrupts_enabled: false,
            halted: false,
            ..c0
        })
        &&& (m1.if_reg / m) % 2 == 0
        &&& exists|mm1: Memory, mm2: Memory|
            #[trigger] Memory::write_effect(
                m0,
                mm1,
                ((c0.sp + 0x10000 - 1) % 0x10000) as u16,
                (c0.pc / 256) as u8,
            ) && #[trigger] Memory::write_effect(
                mm1,
                mm2,
                ((c0.sp + 0x10000 - 2) % 0x10000) as u16,
                (c0.pc % 256) as u8,
            ) && m1 == (Memory { if_reg: clear_bit_spec(mm2.if_reg, m), ..mm2 })
    } else {
        exists|cmid: Cpu|
            #[trigger] instr_effect(
                Cpu { halted: false, ei_pending: false, ..c0 },
                m0,
                cmid,
                m1,
                m0.load_spec(c0.pc),
                cycles,
            ) && c1 == (Cpu {
                interrupts_enabled: cmid.interrupts_enabled || c0.ei_pending,
                ..cmid
            })
    }
}

impl Cpu {
    /// Dispatch a pending interrupt, if the master gate and the masks
    /// allow one: the lowest set bit of IF & IE wins, its IF bit is
    /// cleared, IME drops, PC is pushed and control moves to the vector.
    /// Costs 20 cycles; returns 0 when nothing is dispatched.
    pub fn service_interrupt_if_pending(&mut self, mem: &mut Memory) -> (cycles: u8)
        requires
            old(self).wf(),
            old(mem).wf(),
        ensures
            final(self).wf(),
            final(mem).wf(),
            ({
                let masked = old(mem).if_reg & (old(mem).ie & 0x1f);
                if !old(self).interrupts_enabled || masked == 0 {
                    *final(self) == *old(self) && *final(mem) == *old(mem) && cycles == 0
                } else {
                    let m = lowest_bit(masked);
                    &&& cycles == 20
                    &&& *final(self) == (Cpu {
                        sp: ((old(self).sp + 0x10000 - 2) % 0x10000) as u16,
                        pc: vector_of(m),
                        interrupts_enabled: false,
                        halted: false,
                        ..*old(self)
                    })
                    &&& (final(mem).if_reg / m) % 2 == 0
                    &&& exists|m1: Memory, m2: Memory|
                        #[trigger] Memory::write_effect(
                            *old(mem),
                            m1,
                            ((old(self).sp + 0x10000 - 1) % 0x10000) as u16,
                            (old(self).pc / 256) as u8,
                        ) && #[trigger] Memory::write_effect(
                            m1,
                            m2,
                            ((old(self).sp + 0x10000 - 2) % 0x10000) as u16,
                            (old(self).pc % 256) as u8,
                        ) && *final(mem) == (Memory {
                            if_reg: clear_bit_spec(m2.if_reg, m),
                            ..m2
                        })
                }
            }),
    {
        let masked: u8 = mem.if_reg & (mem.ie & 0x1f);
        if !self.interrupts_enabled || masked == 0 {
            return 0;
        }
        let m: u8 = if masked % 2 == 1 {
            1
        } else if (masked / 2) % 2 == 1 {
            2
        } else if (masked / 4) % 2 == 1 {
            4
        } else if (masked / 8) % 2 == 1 {
            8
        } else {
            16
        };
        let pc_now: u16 = self.pc;
        self.push16(mem, pc_now);
        let ghost m2 = *mem;
        mem.if_reg = clear_bit(mem.if_reg, m);
        self.interrupts_enabled = false;
        self.halted = false;
        self.pc = if m == 1 {
            0x40
        } else if m == 2 {
            0x48
        } else if m == 4 {
            0x50
        } else if m == 8 {
            0x58
        } else {
            0x60
        };
        proof {
            let m1 = choose|m1: Memory|
                #[trigger] Memory::write_effect(
                    *old(mem),
                    m1,
                    ((old(self).sp + 0x10000 - 1) % 0x10000) as u16,
                    (old(self).pc / 256) as u8,
                ) && Memory::write_effect(
                    m1,
                    m2,
                    ((old(self).sp + 0x10000 - 2) % 0x10000) as u16,
                    (old(self).pc % 256) as u8,
                );
            assert(Memory::write_effect(
                *old(mem),
                m1,
                ((old(self).sp + 0x10000 - 1) % 0x10000) as u16,
                (old(self).pc / 256) as u8,
            ) && Memory::write_effect(
                m1,
                m2,
                ((old(self).sp + 0x10000 - 2) % 0x10000) as u16,
                (old(self).pc % 256) as u8,
            ) && *mem == (Memory { if_reg: clear_bit_spec(m2.if_reg, m), ..m2 }));
        }
        20
    }

    /// Jump to the VBlank vector: push PC, consume the request by
    /// clearing its IF bit, drop IME, and continue at 0x40.
    pub fn vblank_int(&mut self, mem: &mut Memory)
        requires
            old(self).wf(),
            old(mem).wf(),
        ensures
            final(self).wf(),
            final(mem).wf(),
            *final(self) == (Cpu {
                sp: ((old(self).sp + 0x10000 - 2) % 0x10000) as u16,
                pc: 0x40,
                interrupts_enabled: false,
                ..*old(self)
            }),
            final(mem).if_reg % 2 == 0,
            exists|m1: Memory, m2: Memory|
                #[trigger] Memory::write_effect(
                    *old(mem),
                    m1,
                    ((old(self).sp + 0x10000 - 1) % 0x10000) as u16,
                    (old(self).pc / 256) as u8,
                ) && #[trigger] Memory::write_effect(
                    m1,
                    m2,
                    ((old(self).sp + 0x10000 - 2) % 0x10000) as u16,
                    (old(self).pc % 256) as u8,
                ) && *final(mem) == (Memory { if_reg: clear_bit_spec(m2.if_reg, 1), ..m2 }),
    {
        let pc_now: u16 = self.pc;
        self.push16(mem, pc_now);
        let ghost m2 = *mem;
        mem.if_reg = clear_bit(mem.if_reg, 1);
        self.interrupts_enabled = false;
        self.pc = 0x40;
        proof {
            let m1 = choose|m1: Memory|
                #[trigger] Memory::write_effect(
                    *old(mem),
                    m1,
                    ((old(self).sp + 0x10000 - 1) % 0x10000) as u16,
                    (old(self).pc / 256) as u8,
                ) && Memory::write_effect(
                    m1,
                    m2,
                    ((old(self).sp + 0x10000 - 2) % 0x10000) as u16,
                    (old(self).pc % 256) as u8,
                );
            assert(Memory::write_effect(
                *old(mem),
                m1,
                ((old(self).sp + 0x10000 - 1) % 0x10000) as u16,
                (old(self).pc / 256) as u8,
            ) && Memory::write_effect(
                m1,
                m2,
                ((old(self).sp + 0x10000 - 2) % 0x10000) as u16,
                (old(self).pc % 256) as u8,
            ) && *mem == (Memory { if_reg: clear_bit_spec(m2.if_reg, 1), ..m2 }));
        }
    }

    /// Jump to the STAT vector: push PC, consume the request by
    /// clearing its IF bit, drop IME, and continue at 0x48.
    pub fn status_int(&mut self, mem: &mut Memory)
        requires
            old(self).wf(),
            old(mem).wf(),
        ensures
            final(self).wf(),
            final(mem).wf(),
            *final(self) == (Cpu {
                sp: ((old(self).sp + 0x10000 - 2) % 0x10000) as u16,
                pc: 0x48,
                interrupts_enabled: false,
                ..*old(self)
            }),
            (final(mem).if_reg / 2) % 2 == 0,
            exists|m1: Memory, m2: Memory|
                #[trigger] Memory::write_effect(
                    *old(mem),
                    m1,
                    ((old(self).sp + 0x10000 - 1) % 0x10000) as u16,
                    (old(self).pc / 256) as u8,
                ) && #[trigger] Memory::write_effect(
                    m1,
                    m2,
                    ((old(self).sp + 0x10000 - 2) % 0x10000) as u16,
                    (old(self).pc % 256) as u8,
                ) && *final(mem) == (Memory { if_reg: clear_bit_spec(m2.if_reg, 2), ..m2 }),
    {
        let pc_now: u16 = self.pc;
        self.push16(mem, pc_now);
        let ghost m2 = *mem;
        mem.if_reg = clear_bit(mem.if_reg, 2);
        self.interrupts_enabled = false;
        self.pc = 0x48;
        proof {
            let m1 = choose|m1: Memory|
                #[trigger] Memory::write_effect(
                    *old(mem),
                    m1,
                    ((old(self).sp + 0x10000 - 1) % 0x10000) as u16,
                    (old(self).pc / 256) as u8,
                ) && Memory::write_effect(
                    m1,
                    m2,
                    ((old(self).sp + 0x10000 - 2) % 0x10000) as u16,
                    (old(self).pc % 256) as u8,
                );
            assert(Memory::write_effect(
                *old(mem),
                m1,
                ((old(self).sp + 0x10000 - 1) % 0x10000) as u16,
                (old(self).pc / 256) as u8,
            ) && Memory::write_effect(
                m1,
                m2,
                ((old(self).sp + 0x10000 - 2) % 0x10000) as u16,
                (old(self).pc % 256) as u8,
            ) && *mem == (Memory { if_reg: clear_bit_spec(m2.if_reg, 2), ..m2 }));
        }
    }

    /// One processor step: wake from HALT on a pending request, dispatch
    /// an interrupt if IME allows, otherwise run one instruction. An EI
    /// from the previous instruction raises IME afterwards. Returns the
    /// T-cycles consumed; `step_effect` is the whole transition.
    #[verifier::rlimit(100)]
    #[verifier::spinoff_prover]
    pub fn step(&mut self, mem: &mut Memory) -> (cycles: u8)
        requires
            old(self).wf(),
            old(mem).wf(),
        ensures
            final(self).wf(),
            final(mem).wf(),
            flags_wf(final(self).regs.flags),
            4 <= cycles <= 24 && cycles % 4 == 0,
            step_effect(*old(self), *old(mem), *final(self), *final(mem), cycles),
    {
        let pending: bool = (mem.if_reg & (mem.ie & 0x1f)) != 0;
        if self.halted {
            if pending {
                self.halted = false;
            } else {
                return 4;
            }
        }
        if self.interrupts_enabled && pending {
            return self.service_interrupt_if_pending(mem);
        }
        let ei: bool = self.ei_pending;
        self.ei_pending = false;
        let c: u8 = self.decode(mem);
        let ghost cmid = *self;
        if ei {
            self.interrupts_enabled = true;
        }
        proof {
            assert(instr_effect(
                Cpu { halted: false, ei_pending: false, ..*old(self) },
                *old(mem),
                cmid,
                *mem,
                old(mem).load_spec(old(self).pc),
                c,
            ));
            assert(*self == (Cpu {
                interrupts_enabled: cmid.interrupts_enabled || old(self).ei_pending,
                ..cmid
            }));
        }
        c
    }
}

} // verus!
