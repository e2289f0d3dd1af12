//! The addressing-mode decoders.
//!
//! Every decoder advances `pc` past its operand bytes and leaves an
//! effective address in `addr_abs`, except the relative mode, which leaves
//! a sign-extended offset in `addr_rel`, and the implied mode, which
//! latches the accumulator into `fetched`. A decoder returns 1 when it
//! crossed a page boundary and the instruction may owe an extra cycle.

use vstd::prelude::*;
use crate::bus::Bus;
use crate::cpu::AddressingMode;
use crate::cpu::Cpu;
use crate::cpu::add16;
use crate::cpu::add8;
use crate::cpu::wrap16;
use crate::cpu::wrap8;

verus! {

/// Implied (and accumulator) mode: no operand bytes; the accumulator is
/// latched into `fetched` for the operations that target it.
pub open spec fn spec_addr_imp(cpu: Cpu) -> Cpu {
    Cpu { fetched: cpu.a, ..cpu }
}

/// Immediate mode: the operand is the byte at `pc` itself.
pub open spec fn spec_addr_imm(cpu: Cpu) -> Cpu {
    Cpu { addr_abs: cpu.pc, pc: wrap16(cpu.pc + 1), ..cpu }
}

/// Zero-page mode: a one-byte address into page 0.
pub open spec fn spec_addr_zp0(cpu: Cpu, mem: Seq<u8>) -> Cpu {
    Cpu { addr_abs: mem[cpu.pc as int] as u16, pc: wrap16(cpu.pc + 1), ..cpu }
}

/// Zero-page,X mode: the operand byte plus `x`, wrapped within page 0.
pub open spec fn spec_addr_zpx(cpu: Cpu, mem: Seq<u8>) -> Cpu {
    Cpu { addr_abs: wrap8(mem[cpu.pc as int] + cpu.x) as u16, pc: wrap16(cpu.pc + 1), ..cpu }
}

/// Zero-page,Y mode: the operand byte plus `y`, wrapped within page 0.
pub open spec fn spec_addr_zpy(cpu: Cpu, mem: Seq<u8>) -> Cpu {
    Cpu { addr_abs: wrap8(mem[cpu.pc as int] + cpu.y) as u16, pc: wrap16(cpu.pc + 1), ..cpu }
}

/// Relative mode: the operand byte sign-extended to 16 bits, kept in
/// `addr_rel` for the branch instructions.
pub open spec fn spec_addr_rel(cpu: Cpu, mem: Seq<u8>) -> Cpu {
    let d = mem[cpu.pc as int];
    Cpu {
        addr_rel: if d & 0x80 != 0 {
            (d as u16) | 0xFF00
        } else {
            d as u16
        },
        pc: wrap16(cpu.pc + 1),
        ..cpu
    }
}

/// Absolute mode: a little-endian two-byte effective address.
pub open spec fn spec_addr_abs(cpu: Cpu, mem: Seq<u8>) -> Cpu {
    let lo = mem[cpu.pc as int];
    let hi = mem[wrap16(cpu.pc + 1) as int];
    Cpu { addr_abs: (hi * 0x100 + lo) as u16, pc: wrap16(cpu.pc + 2), ..cpu }
}

/// Absolute,X mode: the absolute address plus `x`; the extra-cycle flag is
/// 1 exactly when the addition carried into the high byte.
pub open spec fn spec_addr_abx(cpu: Cpu, mem: Seq<u8>) -> (Cpu, u8) {
    let lo = mem[cpu.pc as int];
    let hi = mem[wrap16(cpu.pc + 1) as int];
    let addr = wrap16(hi * 0x100 + lo + cpu.x);
    (
        Cpu { addr_abs: addr, pc: wrap16(cpu.pc + 2), ..cpu },
        if addr / 0x100 != hi as u16 {
            1u8
        } else {
            0u8
        },
    )
}

/// Absolute,Y mode: the absolute address plus `y`, with the same
/// page-cross flag as absolute,X.
pub open spec fn spec_addr_aby(cpu: Cpu, mem: Seq<u8>) -> (Cpu, u8) {
    let lo = mem[cpu.pc as int];
    let hi = mem[wrap16(cpu.pc + 1) as int];
    let addr = wrap16(hi * 0x100 + lo + cpu.y);
    (
        Cpu { addr_abs: addr, pc: wrap16(cpu.pc + 2), ..cpu },
        if addr / 0x100 != hi as u16 {
            1u8
        } else {
            0u8
        },
    )
}

/// Indirect mode: the two operand bytes name a pointer whose target is the
/// effective address. Reproduces the 6502 page-wrap bug: when the pointer's
/// low byte is `0xFF`, the high byte of the target comes from the start of
/// the pointer's own page, not from the next page.
pub open spec fn spec_addr_ind(cpu: Cpu, mem: Seq<u8>) -> Cpu {
    let ptr_lo = mem[cpu.pc as int];
    let ptr_hi = mem[wrap16(cpu.pc + 1) as int];
    let ptr = (ptr_hi * 0x100 + ptr_lo) as u16;
    let lo = mem[ptr as int];
    let hi = if ptr_lo == 0xFF {
        mem[(ptr_hi as int) * 0x100]
    } else {
        mem[ptr + 1]
    };
    Cpu { addr_abs: (hi * 0x100 + lo) as u16, pc: wrap16(cpu.pc + 2), ..cpu }
}

/// Indirect,X mode: the operand byte plus `x` (wrapping in page 0) names a
/// two-byte pointer in page 0; its target is the effective address.
pub open spec fn spec_addr_izx(cpu: Cpu, mem: Seq<u8>) -> Cpu {
    let t = mem[cpu.pc as int];
    let lo = mem[wrap8(t + cpu.x) as int];
    let hi = mem[wrap8(t + cpu.x + 1) as int];
    Cpu { addr_abs: (hi * 0x100 + lo) as u16, pc: wrap16(cpu.pc + 1), ..cpu }
}

/// Indirect,Y mode: the operand byte names a two-byte pointer in page 0;
/// `y` is added to its target, flagging a page cross like absolute,Y.
pub open spec fn spec_addr_izy(cpu: Cpu, mem: Seq<u8>) -> (Cpu, u8) {
    let t = mem[cpu.pc as int];
    let lo = mem[t as int];
    let hi = mem[wrap8(t + 1) as int];
    let addr = wrap16(hi * 0x100 + lo + cpu.y);
    (
        Cpu { addr_abs: addr, pc: wrap16(cpu.pc + 1), ..cpu },
        if addr / 0x100 != hi as u16 {
            1u8
        } else {
            0u8
        },
    )
}

/// What the decoder for `mode` does to the CPU, and the page-cross flag it
/// reports.
pub open spec fn mode_apply(mode: AddressingMode, cpu: Cpu, mem: Seq<u8>) -> (Cpu, u8) {
    match mode {
        AddressingMode::Immediate => (spec_addr_imm(cpu), 0u8),
        AddressingMode::ZeroPage => (spec_addr_zp0(cpu, mem), 0u8),
        AddressingMode::ZeroPageX => (spec_addr_zpx(cpu, mem), 0u8),
        AddressingMode::ZeroPageY => (spec_addr_zpy(cpu, mem), 0u8),
        AddressingMode::Absolute => (spec_addr_abs(cpu, mem), 0u8),
        AddressingMode::AbsoluteX => spec_addr_abx(cpu, mem),
        AddressingMode::AbsoluteY => spec_addr_aby(cpu, mem),
        AddressingMode::Indirect => (spec_addr_ind(cpu, mem), 0u8),
        AddressingMode::IndirectX => (spec_addr_izx(cpu, mem), 0u8),
        AddressingMode::IndirectY => spec_addr_izy(cpu, mem),
        AddressingMode::Relative => (spec_addr_rel(cpu, mem), 0u8),
        AddressingMode::Accumulator => (spec_addr_imp(cpu), 0u8),
        AddressingMode::Implied => (spec_addr_imp(cpu), 0u8),
    }
}

impl Cpu {
    /// Run the decoder for `mode`; see [`mode_apply`].
    pub fn get_operand_address(&mut self, bus: &Bus, mode: AddressingMode) -> (extra: u8)
        requires
            bus.wf(),
        ensures
            (*final(self), extra) == mode_apply(mode, *old(self), bus@),
    {
        match mode {
            AddressingMode::Immediate => self.addr_imm(),
            AddressingMode::ZeroPage => self.addr_zp0(bus),
            AddressingMode::ZeroPageX => self.addr_zpx(bus),
            AddressingMode::ZeroPageY => self.addr_zpy(bus),
            AddressingMode::Absolute => self.addr_abs(bus),
            AddressingMode::AbsoluteX => self.addr_abx(bus),
            AddressingMode::AbsoluteY => self.addr_aby(bus),
            AddressingMode::Indirect => self.addr_ind(bus),
            AddressingMode::IndirectX => self.addr_izx(bus),
            AddressingMode::IndirectY => self.addr_izy(bus),
            AddressingMode::Relative => self.addr_rel(bus),
            AddressingMode::Accumulator => self.addr_imp(),
            AddressingMode::Implied => self.addr_imp(),
        }
    }

    /// Implied mode; see [`spec_addr_imp`].
    pub fn addr_imp(&mut self) -> (extra: u8)
        ensures
            *final(self) == spec_addr_imp(*old(self)),
            extra == 0,
    {
        self.fetched = self.a;
        0
    }

    /// Immediate mode; see [`spec_addr_imm`].
    pub fn addr_imm(&mut self) -> (extra: u8)
        ensures
            *final(self) == spec_addr_imm(*old(self)),
            extra == 0,
    {
        self.addr_abs = self.pc;
        self.pc = add16(self.pc, 1);
        0
    }

    /// Zero-page mode; see [`spec_addr_zp0`].
    pub fn addr_zp0(&mut self, bus: &Bus) -> (extra: u8)
        requires
            bus.wf(),
        ensures
            *final(self) == spec_addr_zp0(*old(self), bus@),
            extra == 0,
    {
        self.addr_abs = self.read(bus, self.pc) as u16;
        self.pc = add16(self.pc, 1);
        0
    }

    /// Zero-page,X mode; see [`spec_addr_zpx`].
    pub fn addr_zpx(&mut self, bus: &Bus) -> (extra: u8)
        requires
            bus.wf(),
        ensures
            *final(self) == spec_addr_zpx(*old(self), bus@),
            extra == 0,
    {
        self.addr_abs = add8(self.read(bus, self.pc), self.x) as u16;
        self.pc = add16(self.pc, 1);
        0
    }

    /// Zero-page,Y mode; see [`spec_addr_zpy`].
    pub fn addr_zpy(&mut self, bus: &Bus) -> (extra: u8)
        requires
            bus.wf(),
        ensures
            *final(self) == spec_addr_zpy(*old(self), bus@),
            extra == 0,
    {
        self.addr_abs = add8(self.read(bus, self.pc), self.y) as u16;
        self.pc = add16(self.pc, 1);
        0
    }

    /// Relative mode; see [`spec_addr_rel`].
    pub fn addr_rel(&mut self, bus: &Bus) -> (extra: u8)
        requires
            bus.wf(),
        ensures
            *final(self) == spec_addr_rel(*old(self), bus@),
            extra == 0,
    {
        let d = self.read(bus, self.pc);
        self.pc = add16(self.pc, 1);
        if d & 0x80 != 0 {
            self.addr_rel = (d as u16) | 0xFF00;
        } else {
            self.addr_rel = d as u16;
        }
        0
    }

    /// Absolute mode; see [`spec_addr_abs`].
    pub fn addr_abs(&mut self, bus: &Bus) -> (extra: u8)
        requires
            bus.wf(),
        ensures
            *final(self) == spec_addr_abs(*old(self), bus@),
            extra == 0,
    {
        let lo = self.read(bus, self.pc) as u16;
        self.pc = add16(self.pc, 1);
        let hi = self.read(bus, self.pc) as u16;
        self.pc = add16(self.pc, 1);
        self.addr_abs = hi * 0x100 + lo;
        0
    }

    /// Absolute,X mode; see [`spec_addr_abx`].
    pub fn addr_abx(&mut self, bus: &Bus) -> (extra: u8)
        requires
            bus.wf(),
        ensures
            (*final(self), extra) == spec_addr_abx(*old(self), bus@),
    {
        let lo = self.read(bus, self.pc) as u16;
        self.pc = add16(self.pc, 1);
        let hi = self.read(bus, self.pc) as u16;
        self.pc = add16(self.pc, 1);
        self.addr_abs = add16(hi * 0x100 + lo, self.x as u16);
        if self.addr_abs / 0x100 != hi {
            1
        } else {
            0
        }
    }

    /// Absolute,Y mode; see [`spec_addr_aby`].
    pub fn addr_aby(&mut self, bus: &Bus) -> (extra: u8)
        requires
            bus.wf(),
        ensures
            (*final(self), extra) == spec_addr_aby(*old(self), bus@),
    {
        let lo = self.read(bus, self.pc) as u16;
        self.pc = add16(self.pc, 1);
        let hi = self.read(bus, self.pc) as u16;
        self.pc = add16(self.pc, 1);
        self.addr_abs = add16(hi * 0x100 + lo, self.y as u16);
        if self.addr_abs / 0x100 != hi {
            1
        } else {
            0
        }
    }

    /// Indirect mode, with the 6502 page-wrap bug; see [`spec_addr_ind`].
    pub fn addr_ind(&mut self, bus: &Bus) -> (extra: u8)
        requires
            bus.wf(),
        ensures
            *final(self) == spec_addr_ind(*old(self), bus@),
            extra == 0,
    {
        let ptr_lo = self.read(bus, self.pc);
        self.pc = add16(self.pc, 1);
        let ptr_hi = self.read(bus, self.pc);
        self.pc = add16(self.pc, 1);
        let ptr = (ptr_hi as u16) * 0x100 + (ptr_lo as u16);
        let lo = self.read(bus, ptr) as u16;
        let hi: u16;
        if ptr_lo == 0xFF {
            hi = self.read(bus, (ptr_hi as u16) * 0x100) as u16;
        } else {
            hi = self.read(bus, ptr + 1) as u16;
        }
        self.addr_abs = hi * 0x100 + lo;
        0
    }

    /// Indirect,X mode; see [`spec_addr_izx`].
    pub fn addr_izx(&mut self, bus: &Bus) -> (extra: u8)
        requires
            bus.wf(),
        ensures
            *final(self) == spec_addr_izx(*old(self), bus@),
            extra == 0,
    {
        let t = self.read(bus, self.pc);
        self.pc = add16(self.pc, 1);
        let lo = self.read(bus, add8(t, self.x) as u16) as u16;
        let hi = self.read(bus, add8(add8(t, self.x), 1) as u16) as u16;
        self.addr_abs = hi * 0x100 + lo;
        0
    }

    /// Indirect,Y mode; see [`spec_addr_izy`].
    pub fn addr_izy(&mut self, bus: &Bus) -> (extra: u8)
        requires
            bus.wf(),
        ensures
            (*final(self), extra) == spec_addr_izy(*old(self), bus@),
    {
        let t = self.read(bus, self.pc);
        self.pc = add16(self.pc, 1);
        let lo = self.read(bus, t as u16) as u16;
        let hi = self.read(bus, add8(t, 1) as u16) as u16;
        self.addr_abs = add16(hi * 0x100 + lo, self.y as u16);
        if self.addr_abs / 0x100 != hi {
            1
        } else {
            0
        }
    }
}

} // verus!
