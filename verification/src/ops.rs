//! The opcode implementations: the fifty-six documented 6502 operations
//! plus the illegal-opcode no-operation.
//!
//! Each operation returns 1 when it is eligible for the page-cross cycle
//! penalty, 0 otherwise; the clock charges the penalty only when the
//! addressing-mode decoder also reported a crossing. Decimal mode is
//! stored but never honored, matching the NES variant of the part.

use vstd::prelude::*;
use crate::bus::Bus;
use crate::cpu::Cpu;
use crate::cpu::StatusFlags;
use crate::cpu::MASK_B;
use crate::cpu::MASK_C;
use crate::cpu::MASK_I;
use crate::cpu::MASK_N;
use crate::cpu::MASK_U;
use crate::cpu::MASK_V;
use crate::cpu::MASK_Z;
use crate::cpu::flag_set;
use crate::cpu::set_zn;
use crate::cpu::spec_fetched;
use crate::cpu::stack_addr;
use crate::cpu::with_flag;
use crate::cpu::wrap8;
use crate::cpu::wrap16;
use crate::cpu::word_at;
use crate::cpu::add8;
use crate::cpu::add16;
use crate::cpu::sub8;
use crate::cpu::sub16;

verus! {

/// Add the operand and the carry into the accumulator:
/// `C` is the carry out, `V` the signed overflow, `Z` and `N` follow the
/// eight-bit result.
pub open spec fn spec_adc(cpu: Cpu, mem: Seq<u8>) -> Cpu {
    let m = spec_fetched(cpu, mem);
    let c: int = if flag_set(cpu.status, MASK_C) {
        1
    } else {
        0
    };
    let sum = cpu.a + m + c;
    let r = wrap8(sum);
    let p = with_flag(
        with_flag(
            with_flag(
                with_flag(cpu.status, MASK_C, sum > 0xFF),
                MASK_Z,
                r == 0,
            ),
            MASK_V,
            ((!(cpu.a ^ m)) & (cpu.a ^ r) & 0x80) != 0,
        ),
        MASK_N,
        (r & 0x80) != 0,
    );
    Cpu { a: r, fetched: m, status: p, ..cpu }
}

/// Subtract the operand from the accumulator by adding its complement;
/// same flag rules as [`spec_adc`].
pub open spec fn spec_sbc(cpu: Cpu, mem: Seq<u8>) -> Cpu {
    let m = spec_fetched(cpu, mem);
    let v = m ^ 0xFF;
    let c: int = if flag_set(cpu.status, MASK_C) {
        1
    } else {
        0
    };
    let sum = cpu.a + v + c;
    let r = wrap8(sum);
    let p = with_flag(
        with_flag(
            with_flag(
                with_flag(cpu.status, MASK_C, sum > 0xFF),
                MASK_Z,
                r == 0,
            ),
            MASK_V,
            ((r ^ cpu.a) & (r ^ v) & 0x80) != 0,
        ),
        MASK_N,
        (r & 0x80) != 0,
    );
    Cpu { a: r, fetched: m, status: p, ..cpu }
}

/// Bitwise AND of the accumulator and the operand.
pub open spec fn spec_and(cpu: Cpu, mem: Seq<u8>) -> Cpu {
    let m = spec_fetched(cpu, mem);
    let r = cpu.a & m;
    Cpu { a: r, fetched: m, status: set_zn(cpu.status, r), ..cpu }
}

/// Bitwise exclusive OR of the accumulator and the operand.
pub open spec fn spec_eor(cpu: Cpu, mem: Seq<u8>) -> Cpu {
    let m = spec_fetched(cpu, mem);
    let r = cpu.a ^ m;
    Cpu { a: r, fetched: m, status: set_zn(cpu.status, r), ..cpu }
}

/// Bitwise OR of the accumulator and the operand.
pub open spec fn spec_ora(cpu: Cpu, mem: Seq<u8>) -> Cpu {
    let m = spec_fetched(cpu, mem);
    let r = cpu.a | m;
    Cpu { a: r, fetched: m, status: set_zn(cpu.status, r), ..cpu }
}

/// Compare a register against the operand: `C` when the register is at
/// least the operand, `Z` and `N` from the wrapped difference.
pub open spec fn spec_compare(cpu: Cpu, mem: Seq<u8>, reg: u8) -> Cpu {
    let m = spec_fetched(cpu, mem);
    let diff = wrap8(reg - m);
    let p = set_zn(with_flag(cpu.status, MASK_C, reg >= m), diff);
    Cpu { fetched: m, status: p, ..cpu }
}

/// The BIT test: `Z` from the masked accumulator, `N` and `V` copied from
/// bits 7 and 6 of the operand.
pub open spec fn spec_bit(cpu: Cpu, mem: Seq<u8>) -> Cpu {
    let m = spec_fetched(cpu, mem);
    let p = with_flag(
        with_flag(
            with_flag(cpu.status, MASK_Z, (cpu.a & m) == 0),
            MASK_N,
            (m & 0x80) != 0,
        ),
        MASK_V,
        (m & 0x40) != 0,
    );
    Cpu { fetched: m, status: p, ..cpu }
}

/// Read-modify-write decrement of the byte at the effective address.
pub open spec fn spec_dec(cpu: Cpu, mem: Seq<u8>) -> (Cpu, Seq<u8>) {
    let m = spec_fetched(cpu, mem);
    let r = wrap8(m - 1);
    (
        Cpu { fetched: m, status: set_zn(cpu.status, r), ..cpu },
        mem.update(cpu.addr_abs as int, r),
    )
}

/// Read-modify-write increment of the byte at the effective address.
pub open spec fn spec_inc(cpu: Cpu, mem: Seq<u8>) -> (Cpu, Seq<u8>) {
    let m = spec_fetched(cpu, mem);
    let r = wrap8(m + 1);
    (
        Cpu { fetched: m, status: set_zn(cpu.status, r), ..cpu },
        mem.update(cpu.addr_abs as int, r),
    )
}

impl Cpu {
    /// ADC; see [`spec_adc`]. Eligible for the page-cross penalty.
    pub fn adc(&mut self, bus: &Bus) -> (extra: u8)
        requires
            bus.wf(),
        ensures
            *final(self) == spec_adc(*old(self), bus@),
            extra == 1,
    {
        let m = self.fetch(bus);
        let c: u16 = if self.get_flag(StatusFlags::Carry) {
            1
        } else {
            0
        };
        let sum: u16 = (self.a as u16) + (m as u16) + c;
        let r: u8 = (sum % 0x100) as u8;
        self.set_flag(StatusFlags::Carry, sum > 0xFF);
        self.set_flag(StatusFlags::Zero, r == 0);
        self.set_flag(StatusFlags::Overflow, ((!(self.a ^ m)) & (self.a ^ r) & 0x80) != 0);
        self.set_flag(StatusFlags::Negative, (r & 0x80) != 0);
        self.a = r;
        1
    }

    /// SBC; see [`spec_sbc`]. Eligible for the page-cross penalty.
    pub fn sbc(&mut self, bus: &Bus) -> (extra: u8)
        requires
            bus.wf(),
        ensures
            *final(self) == spec_sbc(*old(self), bus@),
            extra == 1,
    {
        let m = self.fetch(bus);
        let v: u8 = m ^ 0xFF;
        let c: u16 = if self.get_flag(StatusFlags::Carry) {
            1
        } else {
            0
        };
        let sum: u16 = (self.a as u16) + (v as u16) + c;
        let r: u8 = (sum % 0x100) as u8;
        self.set_flag(StatusFlags::Carry, sum > 0xFF);
        self.set_flag(StatusFlags::Zero, r == 0);
        self.set_flag(StatusFlags::Overflow, ((r ^ self.a) & (r ^ v) & 0x80) != 0);
        self.set_flag(StatusFlags::Negative, (r & 0x80) != 0);
        self.a = r;
        1
    }

    /// AND; see [`spec_and`]. Eligible for the page-cross penalty.
    pub fn and(&mut self, bus: &Bus) -> (extra: u8)
        requires
            bus.wf(),
        ensures
            *final(self) == spec_and(*old(self), bus@),
            extra == 1,
    {
        let m = self.fetch(bus);
        let r = self.a & m;
        self.set_flag(StatusFlags::Zero, r == 0);
        self.set_flag(StatusFlags::Negative, (r & 0x80) != 0);
        self.a = r;
        1
    }

    /// EOR; see [`spec_eor`]. Eligible for the page-cross penalty.
    pub fn eor(&mut self, bus: &Bus) -> (extra: u8)
        requires
            bus.wf(),
        ensures
            *final(self) == spec_eor(*old(self), bus@),
            extra == 1,
    {
        let m = self.fetch(bus);
        let r = self.a ^ m;
        self.set_flag(StatusFlags::Zero, r == 0);
        self.set_flag(StatusFlags::Negative, (r & 0x80) != 0);
        self.a = r;
        1
    }

    /// ORA; see [`spec_ora`]. Eligible for the page-cross penalty.
    pub fn ora(&mut self, bus: &Bus) -> (extra: u8)
        requires
            bus.wf(),
        ensures
            *final(self) == spec_ora(*old(self), bus@),
            extra == 1,
    {
        let m = self.fetch(bus);
        let r = self.a | m;
        self.set_flag(StatusFlags::Zero, r == 0);
        self.set_flag(StatusFlags::Negative, (r & 0x80) != 0);
        self.a = r;
        1
    }

    /// CMP; see [`spec_compare`]. Eligible for the page-cross penalty.
    pub fn cmp(&mut self, bus: &Bus) -> (extra: u8)
        requires
            bus.wf(),
        ensures
            *final(self) == spec_compare(*old(self), bus@, old(self).a),
            extra == 1,
    {
        let m = self.fetch(bus);
        let diff = sub8(self.a, m);
        self.set_flag(StatusFlags::Carry, self.a >= m);
        self.set_flag(StatusFlags::Zero, diff == 0);
        self.set_flag(StatusFlags::Negative, (diff & 0x80) != 0);
        1
    }

    /// CPX; see [`spec_compare`]. Not eligible for the penalty.
    pub fn cpx(&mut self, bus: &Bus) -> (extra: u8)
        requires
            bus.wf(),
        ensures
            *final(self) == spec_compare(*old(self), bus@, old(self).x),
            extra == 0,
    {
        let m = self.fetch(bus);
        let diff = sub8(self.x, m);
        self.set_flag(StatusFlags::Carry, self.x >= m);
        self.set_flag(StatusFlags::Zero, diff == 0);
        self.set_flag(StatusFlags::Negative, (diff & 0x80) != 0);
        0
    }

    /// CPY; see [`spec_compare`]. Not eligible for the penalty.
    pub fn cpy(&mut self, bus: &Bus) -> (extra: u8)
        requires
            bus.wf(),
        ensures
            *final(self) == spec_compare(*old(self), bus@, old(self).y),
            extra == 0,
    {
        let m = self.fetch(bus);
        let diff = sub8(self.y, m);
        self.set_flag(StatusFlags::Carry, self.y >= m);
        self.set_flag(StatusFlags::Zero, diff == 0);
        self.set_flag(StatusFlags::Negative, (diff & 0x80) != 0);
        0
    }

    /// BIT; see [`spec_bit`].
    pub fn bit(&mut self, bus: &Bus) -> (extra: u8)
        requires
            bus.wf(),
        ensures
            *final(self) == spec_bit(*old(self), bus@),
            extra == 0,
    {
        let m = self.fetch(bus);
        self.set_flag(StatusFlags::Zero, (self.a & m) == 0);
        self.set_flag(StatusFlags::Negative, (m & 0x80) != 0);
        self.set_flag(StatusFlags::Overflow, (m & 0x40) != 0);
        0
    }

    /// LDA: load the accumulator, setting `Z` and `N`. Eligible.
    pub fn lda(&mut self, bus: &Bus) -> (extra: u8)
        requires
            bus.wf(),
        ensures
            *final(self) == (Cpu {
                a: spec_fetched(*old(self), bus@),
                fetched: spec_fetched(*old(self), bus@),
                status: set_zn(old(self).status, spec_fetched(*old(self), bus@)),
                ..*old(self)
            }),
            extra == 1,
    {
        let m = self.fetch(bus);
        self.a = m;
        self.set_flag(StatusFlags::Zero, m == 0);
        self.set_flag(StatusFlags::Negative, (m & 0x80) != 0);
        1
    }

    /// LDX: load the X register, setting `Z` and `N`. Eligible.
    pub fn ldx(&mut self, bus: &Bus) -> (extra: u8)
        requires
            bus.wf(),
        ensures
            *final(self) == (Cpu {
                x: spec_fetched(*old(self), bus@),
                fetched: spec_fetched(*old(self), bus@),
                status: set_zn(old(self).status, spec_fetched(*old(self), bus@)),
                ..*old(self)
            }),
            extra == 1,
    {
        let m = self.fetch(bus);
        self.x = m;
        self.set_flag(StatusFlags::Zero, m == 0);
        self.set_flag(StatusFlags::Negative, (m & 0x80) != 0);
        1
    }

    /// LDY: load the Y register, setting `Z` and `N`. Eligible.
    pub fn ldy(&mut self, bus: &Bus) -> (extra: u8)
        requires
            bus.wf(),
        ensures
            *final(self) == (Cpu {
                y: spec_fetched(*old(self), bus@),
                fetched: spec_fetched(*old(self), bus@),
                status: set_zn(old(self).status, spec_fetched(*old(self), bus@)),
                ..*old(self)
            }),
            extra == 1,
    {
        let m = self.fetch(bus);
        self.y = m;
        self.set_flag(StatusFlags::Zero, m == 0);
        self.set_flag(StatusFlags::Negative, (m & 0x80) != 0);
        1
    }

    /// STA: store the accumulator at the effective address.
    pub fn sta(&mut self, bus: &mut Bus) -> (extra: u8)
        requires
            old(bus).wf(),
        ensures
            final(bus).wf(),
            *final(self) == *old(self),
            final(bus)@ == old(bus)@.update(old(self).addr_abs as int, old(self).a),
            extra == 0,
    {
        self.write(bus, self.addr_abs, self.a);
        0
    }

    /// STX: store the X register at the effective address.
    pub fn stx(&mut self, bus: &mut Bus) -> (extra: u8)
        requires
            old(bus).wf(),
        ensures
            final(bus).wf(),
            *final(self) == *old(self),
            final(bus)@ == old(bus)@.update(old(self).addr_abs as int, old(self).x),
            extra == 0,
    {
        self.write(bus, self.addr_abs, self.x);
        0
    }

    /// STY: store the Y register at the effective address.
    pub fn sty(&mut self, bus: &mut Bus) -> (extra: u8)
        requires
            old(bus).wf(),
        ensures
            final(bus).wf(),
            *final(self) == *old(self),
            final(bus)@ == old(bus)@.update(old(self).addr_abs as int, old(self).y),
            extra == 0,
    {
        self.write(bus, self.addr_abs, self.y);
        0
    }

    /// DEC; see [`spec_dec`].
    pub fn dec(&mut self, bus: &mut Bus) -> (extra: u8)
        requires
            old(bus).wf(),
        ensures
            final(bus).wf(),
            (*final(self), final(bus)@) == spec_dec(*old(self), old(bus)@),
            extra == 0,
    {
        let m = self.fetch(bus);
        let r = sub8(m, 1);
        self.write(bus, self.addr_abs, r);
        self.set_flag(StatusFlags::Zero, r == 0);
        self.set_flag(StatusFlags::Negative, (r & 0x80) != 0);
        0
    }

    /// INC; see [`spec_inc`].
    pub fn inc(&mut self, bus: &mut Bus) -> (extra: u8)
        requires
            old(bus).wf(),
        ensures
            final(bus).wf(),
            (*final(self), final(bus)@) == spec_inc(*old(self), old(bus)@),
            extra == 0,
    {
        let m = self.fetch(bus);
        let r = add8(m, 1);
        self.write(bus, self.addr_abs, r);
        self.set_flag(StatusFlags::Zero, r == 0);
        self.set_flag(StatusFlags::Negative, (r & 0x80) != 0);
        0
    }

    /// DEX: decrement X, setting `Z` and `N`.
    pub fn dex(&mut self) -> (extra: u8)
        ensures
            *final(self) == (Cpu {
                x: wrap8(old(self).x - 1),
                status: set_zn(old(self).status, wrap8(old(self).x - 1)),
                ..*old(self)
            }),
            extra == 0,
    {
        self.x = sub8(self.x, 1);
        self.set_flag(StatusFlags::Zero, self.x == 0);
        self.set_flag(StatusFlags::Negative, (self.x & 0x80) != 0);
        0
    }

    /// DEY: decrement Y, setting `Z` and `N`.
    pub fn dey(&mut self) -> (extra: u8)
        ensures
            *final(self) == (Cpu {
                y: wrap8(old(self).y - 1),
                status: set_zn(old(self).status, wrap8(old(self).y - 1)),
                ..*old(self)
            }),
            extra == 0,
    {
        self.y = sub8(self.y, 1);
        self.set_flag(StatusFlags::Zero, self.y == 0);
        self.set_flag(StatusFlags::Negative, (self.y & 0x80) != 0);
        0
    }

    /// INX: increment X, setting `Z` and `N`.
    pub fn inx(&mut self) -> (extra: u8)
        ensures
            *final(self) == (Cpu {
                x: wrap8(old(self).x + 1),
                status: set_zn(old(self).status, wrap8(old(self).x + 1)),
                ..*old(self)
            }),
            extra == 0,
    {
        self.x = add8(self.x, 1);
        self.set_flag(StatusFlags::Zero, self.x == 0);
        self.set_flag(StatusFlags::Negative, (self.x & 0x80) != 0);
        0
    }

    /// INY: increment Y, setting `Z` and `N`.
    pub fn iny(&mut self) -> (extra: u8)
        ensures
            *final(self) == (Cpu {
                y: wrap8(old(self).y + 1),
                status: set_zn(old(self).status, wrap8(old(self).y + 1)),
                ..*old(self)
            }),
            extra == 0,
    {
        self.y = add8(self.y, 1);
        self.set_flag(StatusFlags::Zero, self.y == 0);
        self.set_flag(StatusFlags::Negative, (self.y & 0x80) != 0);
        0
    }

    /// TAX: transfer the accumulator to X, setting `Z` and `N`.
    pub fn tax(&mut self) -> (extra: u8)
        ensures
            *final(self) == (Cpu {
                x: old(self).a,
                status: set_zn(old(self).status, old(self).a),
                ..*old(self)
            }),
            extra == 0,
    {
        self.x = self.a;
        self.set_flag(StatusFlags::Zero, self.x == 0);
        self.set_flag(StatusFlags::Negative, (self.x & 0x80) != 0);
        0
    }

    /// TAY: transfer the accumulator to Y, setting `Z` and `N`.
    pub fn tay(&mut self) -> (extra: u8)
        ensures
            *final(self) == (Cpu {
                y: old(self).a,
                status: set_zn(old(self).status, old(self).a),
                ..*old(self)
            }),
            extra == 0,
    {
        self.y = self.a;
        self.set_flag(StatusFlags::Zero, self.y == 0);
        self.set_flag(StatusFlags::Negative, (self.y & 0x80) != 0);
        0
    }

    /// TSX: transfer the stack pointer to X, setting `Z` and `N`.
    pub fn tsx(&mut self) -> (extra: u8)
        ensures
            *final(self) == (Cpu {
                x: old(self).stkp,
                status: set_zn(old(self).status, old(self).stkp),
                ..*old(self)
            }),
            extra == 0,
    {
        self.x = self.stkp;
        self.set_flag(StatusFlags::Zero, self.x == 0);
        self.set_flag(StatusFlags::Negative, (self.x & 0x80) != 0);
        0
    }

    /// TXA: transfer X to the accumulator, setting `Z` and `N`.
    pub fn txa(&mut self) -> (extra: u8)
        ensures
            *final(self) == (Cpu {
                a: old(self).x,
                status: set_zn(old(self).status, old(self).x),
                ..*old(self)
            }),
            extra == 0,
    {
        self.a = self.x;
        self.set_flag(StatusFlags::Zero, self.a == 0);
        self.set_flag(StatusFlags::Negative, (self.a & 0x80) != 0);
        0
    }

    /// TXS: transfer X to the stack pointer; no flags change.
    pub fn txs(&mut self) -> (extra: u8)
        ensures
            *final(self) == (Cpu { stkp: old(self).x, ..*old(self) }),
            extra == 0,
    {
        self.stkp = self.x;
        0
    }

    /// TYA: transfer Y to the accumulator, setting `Z` and `N`.
    pub fn tya(&mut self) -> (extra: u8)
        ensures
            *final(self) == (Cpu {
                a: old(self).y,
                status: set_zn(old(self).status, old(self).y),
                ..*old(self)
            }),
            extra == 0,
    {
        self.a = self.y;
        self.set_flag(StatusFlags::Zero, self.a == 0);
        self.set_flag(StatusFlags::Negative, (self.a & 0x80) != 0);
        0
    }

    /// CLC: clear the carry flag.
    pub fn clc(&mut self) -> (extra: u8)
        ensures
            *final(self) == (Cpu { status: with_flag(old(self).status, MASK_C, false), ..*old(self) }),
            extra == 0,
    {
        self.set_flag(StatusFlags::Carry, false);
        0
    }

    /// SEC: set the carry flag.
    pub fn sec(&mut self) -> (extra: u8)
        ensures
            *final(self) == (Cpu { status: with_flag(old(self).status, MASK_C, true), ..*old(self) }),
            extra == 0,
    {
        self.set_flag(StatusFlags::Carry, true);
        0
    }

    /// CLD: clear the decimal-mode flag.
    pub fn cld(&mut self) -> (extra: u8)
        ensures
            *final(self) == (Cpu { status: with_flag(old(self).status, crate::cpu::MASK_D, false), ..*old(self) }),
            extra == 0,
    {
        self.set_flag(StatusFlags::DecimalMode, false);
        0
    }

    /// SED: set the decimal-mode flag.
    pub fn sed(&mut self) -> (extra: u8)
        ensures
            *final(self) == (Cpu { status: with_flag(old(self).status, crate::cpu::MASK_D, true), ..*old(self) }),
            extra == 0,
    {
        self.set_flag(StatusFlags::DecimalMode, true);
        0
    }

    /// CLI: clear the interrupt-disable flag.
    pub fn cli(&mut self) -> (extra: u8)
        ensures
            *final(self) == (Cpu { status: with_flag(old(self).status, MASK_I, false), ..*old(self) }),
            extra == 0,
    {
        self.set_flag(StatusFlags::InterruptDisable, false);
        0
    }

    /// SEI: set the interrupt-disable flag.
    pub fn sei(&mut self) -> (extra: u8)
        ensures
            *final(self) == (Cpu { status: with_flag(old(self).status, MASK_I, true), ..*old(self) }),
            extra == 0,
    {
        self.set_flag(StatusFlags::InterruptDisable, true);
        0
    }

    /// CLV: clear the overflow flag.
    pub fn clv(&mut self) -> (extra: u8)
        ensures
            *final(self) == (Cpu { status: with_flag(old(self).status, MASK_V, false), ..*old(self) }),
            extra == 0,
    {
        self.set_flag(StatusFlags::Overflow, false);
        0
    }

    /// JMP: jump to the effective address.
    pub fn jmp(&mut self) -> (extra: u8)
        ensures
            *final(self) == (Cpu { pc: old(self).addr_abs, ..*old(self) }),
            extra == 0,
    {
        self.pc = self.addr_abs;
        0
    }

    /// The illegal-opcode handler: no effect.
    pub fn xxx(&mut self) -> (extra: u8)
        ensures
            *final(self) == *old(self),
            extra == 0,
    {
        0
    }

    /// NOP: no effect. The six "NOP absolute,X" encodings are eligible for
    /// the page-cross penalty; every other no-operation is not.
    pub fn nop(&mut self) -> (extra: u8)
        ensures
            *final(self) == *old(self),
            extra == (if old(self).opcode == 0x1C || old(self).opcode == 0x3C
                || old(self).opcode == 0x5C || old(self).opcode == 0x7C
                || old(self).opcode == 0xDC || old(self).opcode == 0xFC {
                1u8
            } else {
                0u8
            }),
    {
        match self.opcode {
            0x1C | 0x3C | 0x5C | 0x7C | 0xDC | 0xFC => 1,
            _ => 0,
        }
    }
}

} // verus!

verus! {

/// Arithmetic shift left of the operand; the shifted-out bit 7 lands in
/// `C`. The result goes back to the accumulator under an implied mode and
/// to the effective address otherwise.
pub open spec fn spec_asl(cpu: Cpu, mem: Seq<u8>) -> (Cpu, Seq<u8>) {
    let m = spec_fetched(cpu, mem);
    let r = wrap8(m * 2);
    let p = set_zn(with_flag(cpu.status, MASK_C, (m & 0x80) != 0), r);
    if crate::cpu::is_implied(crate::instructions::instruction_at(cpu.opcode).mode) {
        (Cpu { a: r, fetched: m, status: p, ..cpu }, mem)
    } else {
        (Cpu { fetched: m, status: p, ..cpu }, mem.update(cpu.addr_abs as int, r))
    }
}

/// Logical shift right of the operand; the shifted-out bit 0 lands in `C`.
pub open spec fn spec_lsr(cpu: Cpu, mem: Seq<u8>) -> (Cpu, Seq<u8>) {
    let m = spec_fetched(cpu, mem);
    let r = m / 2;
    let p = set_zn(with_flag(cpu.status, MASK_C, (m & 0x01) != 0), r);
    if crate::cpu::is_implied(crate::instructions::instruction_at(cpu.opcode).mode) {
        (Cpu { a: r, fetched: m, status: p, ..cpu }, mem)
    } else {
        (Cpu { fetched: m, status: p, ..cpu }, mem.update(cpu.addr_abs as int, r))
    }
}

/// Rotate left through the carry: `C` shifts into bit 0 and receives the
/// old bit 7.
pub open spec fn spec_rol(cpu: Cpu, mem: Seq<u8>) -> (Cpu, Seq<u8>) {
    let m = spec_fetched(cpu, mem);
    let c: int = if flag_set(cpu.status, MASK_C) {
        1
    } else {
        0
    };
    let r = wrap8(m * 2 + c);
    let p = set_zn(with_flag(cpu.status, MASK_C, (m & 0x80) != 0), r);
    if crate::cpu::is_implied(crate::instructions::instruction_at(cpu.opcode).mode) {
        (Cpu { a: r, fetched: m, status: p, ..cpu }, mem)
    } else {
        (Cpu { fetched: m, status: p, ..cpu }, mem.update(cpu.addr_abs as int, r))
    }
}

/// Rotate right through the carry: `C` shifts into bit 7 and receives the
/// old bit 0.
pub open spec fn spec_ror(cpu: Cpu, mem: Seq<u8>) -> (Cpu, Seq<u8>) {
    let m = spec_fetched(cpu, mem);
    let r = (((if flag_set(cpu.status, MASK_C) {
        0x80int
    } else {
        0int
    }) + m / 2)) as u8;
    let p = set_zn(with_flag(cpu.status, MASK_C, (m & 0x01) != 0), r);
    if crate::cpu::is_implied(crate::instructions::instruction_at(cpu.opcode).mode) {
        (Cpu { a: r, fetched: m, status: p, ..cpu }, mem)
    } else {
        (Cpu { fetched: m, status: p, ..cpu }, mem.update(cpu.addr_abs as int, r))
    }
}

/// Push the accumulator; the stack pointer decrements after the write and
/// wraps within page 1.
pub open spec fn spec_pha(cpu: Cpu, mem: Seq<u8>) -> (Cpu, Seq<u8>) {
    (
        Cpu { stkp: wrap8(cpu.stkp - 1), ..cpu },
        mem.update(stack_addr(cpu.stkp) as int, cpu.a),
    )
}

/// Push the status byte with the break and unused bits forced to one,
/// then clear both bits in the register.
pub open spec fn spec_php(cpu: Cpu, mem: Seq<u8>) -> (Cpu, Seq<u8>) {
    (
        Cpu {
            status: with_flag(with_flag(cpu.status, MASK_B, false), MASK_U, false),
            stkp: wrap8(cpu.stkp - 1),
            ..cpu
        },
        mem.update(stack_addr(cpu.stkp) as int, (cpu.status | MASK_B) | MASK_U),
    )
}

/// Pop into the accumulator, setting `Z` and `N`; the stack pointer
/// increments before the read.
pub open spec fn spec_pla(cpu: Cpu, mem: Seq<u8>) -> Cpu {
    let sp1 = wrap8(cpu.stkp + 1);
    let v = mem[stack_addr(sp1) as int];
    Cpu { a: v, stkp: sp1, status: set_zn(cpu.status, v), ..cpu }
}

/// Pop into the status register, forcing the unused bit to one.
pub open spec fn spec_plp(cpu: Cpu, mem: Seq<u8>) -> Cpu {
    let sp1 = wrap8(cpu.stkp + 1);
    Cpu { stkp: sp1, status: mem[stack_addr(sp1) as int] | MASK_U, ..cpu }
}

/// Jump to subroutine: push `pc - 1` high byte first, then jump to the
/// effective address.
pub open spec fn spec_jsr(cpu: Cpu, mem: Seq<u8>) -> (Cpu, Seq<u8>) {
    let pc1 = wrap16(cpu.pc - 1);
    let m1 = mem.update(stack_addr(cpu.stkp) as int, (pc1 / 0x100) as u8);
    let sp1 = wrap8(cpu.stkp - 1);
    let m2 = m1.update(stack_addr(sp1) as int, (pc1 % 0x100) as u8);
    let sp2 = wrap8(sp1 - 1);
    (Cpu { pc: cpu.addr_abs, stkp: sp2, ..cpu }, m2)
}

/// Return from subroutine: pop the low then the high byte of the saved
/// counter and resume one past it.
pub open spec fn spec_rts(cpu: Cpu, mem: Seq<u8>) -> Cpu {
    let sp1 = wrap8(cpu.stkp + 1);
    let lo = mem[stack_addr(sp1) as int];
    let sp2 = wrap8(sp1 + 1);
    let hi = mem[stack_addr(sp2) as int];
    Cpu { pc: wrap16(hi * 0x100 + lo + 1), stkp: sp2, ..cpu }
}

/// Return from interrupt: pop the status byte (with the break and unused
/// bits cleared), then the program counter low byte, then the high byte.
pub open spec fn spec_rti(cpu: Cpu, mem: Seq<u8>) -> Cpu {
    let sp1 = wrap8(cpu.stkp + 1);
    let p = (mem[stack_addr(sp1) as int] & !MASK_B) & !MASK_U;
    let sp2 = wrap8(sp1 + 1);
    let lo = mem[stack_addr(sp2) as int];
    let sp3 = wrap8(sp2 + 1);
    let hi = mem[stack_addr(sp3) as int];
    Cpu { pc: (hi * 0x100 + lo) as u16, stkp: sp3, status: p, ..cpu }
}

/// Force an interrupt: advance past the padding byte, set `I`, push the
/// counter and the status byte (break and unused bits forced to one in
/// the pushed copy only), and jump through the vector at `0xFFFE`.
pub open spec fn spec_brk(cpu: Cpu, mem: Seq<u8>) -> (Cpu, Seq<u8>) {
    let pc1 = wrap16(cpu.pc + 1);
    let p1 = with_flag(cpu.status, MASK_I, true);
    let m1 = mem.update(stack_addr(cpu.stkp) as int, (pc1 / 0x100) as u8);
    let sp1 = wrap8(cpu.stkp - 1);
    let m2 = m1.update(stack_addr(sp1) as int, (pc1 % 0x100) as u8);
    let sp2 = wrap8(sp1 - 1);
    let p2 = with_flag(p1, MASK_B, true);
    let m3 = m2.update(stack_addr(sp2) as int, with_flag(p2, MASK_U, true));
    let sp3 = wrap8(sp2 - 1);
    (
        Cpu {
            pc: word_at(m3, 0xFFFE),
            stkp: sp3,
            status: with_flag(p2, MASK_B, false),
            ..cpu
        },
        m3,
    )
}

/// A taken branch: charge one extra cycle, one more if the target lies in
/// another page than the updated counter, then jump.
pub open spec fn spec_branch(cpu: Cpu, taken: bool) -> Cpu {
    if taken {
        let target = wrap16(cpu.pc + cpu.addr_rel);
        let bump: int = if target / 0x100 != cpu.pc / 0x100 {
            2
        } else {
            1
        };
        Cpu { cycles: wrap8(cpu.cycles + bump), addr_abs: target, pc: target, ..cpu }
    } else {
        cpu
    }
}

impl Cpu {
    /// ASL; see [`spec_asl`].
    pub fn asl(&mut self, bus: &mut Bus) -> (extra: u8)
        requires
            old(bus).wf(),
        ensures
            final(bus).wf(),
            (*final(self), final(bus)@) == spec_asl(*old(self), old(bus)@),
            extra == 0,
    {
        let m = self.fetch(bus);
        let r = (((m as u16) * 2) % 0x100) as u8;
        self.set_flag(StatusFlags::Carry, (m & 0x80) != 0);
        self.set_flag(StatusFlags::Zero, r == 0);
        self.set_flag(StatusFlags::Negative, (r & 0x80) != 0);
        let entry = crate::instructions::lookup(self.opcode);
        if matches!(entry.mode, crate::cpu::AddressingMode::Implied | crate::cpu::AddressingMode::Accumulator) {
            self.a = r;
        } else {
            self.write(bus, self.addr_abs, r);
        }
        0
    }

    /// LSR; see [`spec_lsr`].
    pub fn lsr(&mut self, bus: &mut Bus) -> (extra: u8)
        requires
            old(bus).wf(),
        ensures
            final(bus).wf(),
            (*final(self), final(bus)@) == spec_lsr(*old(self), old(bus)@),
            extra == 0,
    {
        let m = self.fetch(bus);
        let r = m / 2;
        self.set_flag(StatusFlags::Carry, (m & 0x01) != 0);
        self.set_flag(StatusFlags::Zero, r == 0);
        self.set_flag(StatusFlags::Negative, (r & 0x80) != 0);
        let entry = crate::instructions::lookup(self.opcode);
        if matches!(entry.mode, crate::cpu::AddressingMode::Implied | crate::cpu::AddressingMode::Accumulator) {
            self.a = r;
        } else {
            self.write(bus, self.addr_abs, r);
        }
        0
    }

    /// ROL; see [`spec_rol`].
    pub fn rol(&mut self, bus: &mut Bus) -> (extra: u8)
        requires
            old(bus).wf(),
        ensures
            final(bus).wf(),
            (*final(self), final(bus)@) == spec_rol(*old(self), old(bus)@),
            extra == 0,
    {
        let m = self.fetch(bus);
        let c: u16 = if self.get_flag(StatusFlags::Carry) {
            1
        } else {
            0
        };
        let r = (((m as u16) * 2 + c) % 0x100) as u8;
        self.set_flag(StatusFlags::Carry, (m & 0x80) != 0);
        self.set_flag(StatusFlags::Zero, r == 0);
        self.set_flag(StatusFlags::Negative, (r & 0x80) != 0);
        let entry = crate::instructions::lookup(self.opcode);
        if matches!(entry.mode, crate::cpu::AddressingMode::Implied | crate::cpu::AddressingMode::Accumulator) {
            self.a = r;
        } else {
            self.write(bus, self.addr_abs, r);
        }
        0
    }

    /// ROR; see [`spec_ror`].
    pub fn ror(&mut self, bus: &mut Bus) -> (extra: u8)
        requires
            old(bus).wf(),
        ensures
            final(bus).wf(),
            (*final(self), final(bus)@) == spec_ror(*old(self), old(bus)@),
            extra == 0,
    {
        let m = self.fetch(bus);
        let c: u8 = if self.get_flag(StatusFlags::Carry) {
            0x80
        } else {
            0
        };
        let r = c + m / 2;
        self.set_flag(StatusFlags::Carry, (m & 0x01) != 0);
        self.set_flag(StatusFlags::Zero, r == 0);
        self.set_flag(StatusFlags::Negative, (r & 0x80) != 0);
        let entry = crate::instructions::lookup(self.opcode);
        if matches!(entry.mode, crate::cpu::AddressingMode::Implied | crate::cpu::AddressingMode::Accumulator) {
            self.a = r;
        } else {
            self.write(bus, self.addr_abs, r);
        }
        0
    }

    /// PHA; see [`spec_pha`].
    pub fn pha(&mut self, bus: &mut Bus) -> (extra: u8)
        requires
            old(bus).wf(),
        ensures
            final(bus).wf(),
            (*final(self), final(bus)@) == spec_pha(*old(self), old(bus)@),
            extra == 0,
    {
        self.write(bus, 0x0100 + self.stkp as u16, self.a);
        self.stkp = sub8(self.stkp, 1);
        0
    }

    /// PHP; see [`spec_php`].
    pub fn php(&mut self, bus: &mut Bus) -> (extra: u8)
        requires
            old(bus).wf(),
        ensures
            final(bus).wf(),
            (*final(self), final(bus)@) == spec_php(*old(self), old(bus)@),
            extra == 0,
    {
        self.write(bus, 0x0100 + self.stkp as u16, (self.status | MASK_B) | MASK_U);
        self.set_flag(StatusFlags::Break, false);
        self.set_flag(StatusFlags::Unused, false);
        self.stkp = sub8(self.stkp, 1);
        0
    }

    /// PLA; see [`spec_pla`].
    pub fn pla(&mut self, bus: &Bus) -> (extra: u8)
        requires
            bus.wf(),
        ensures
            *final(self) == spec_pla(*old(self), bus@),
            extra == 0,
    {
        self.stkp = add8(self.stkp, 1);
        let v = self.read(bus, 0x0100 + self.stkp as u16);
        self.a = v;
        self.set_flag(StatusFlags::Zero, v == 0);
        self.set_flag(StatusFlags::Negative, (v & 0x80) != 0);
        0
    }

    /// PLP; see [`spec_plp`].
    pub fn plp(&mut self, bus: &Bus) -> (extra: u8)
        requires
            bus.wf(),
        ensures
            *final(self) == spec_plp(*old(self), bus@),
            extra == 0,
    {
        self.stkp = add8(self.stkp, 1);
        let v = self.read(bus, 0x0100 + self.stkp as u16);
        self.status = v | MASK_U;
        0
    }

    /// JSR; see [`spec_jsr`].
    pub fn jsr(&mut self, bus: &mut Bus) -> (extra: u8)
        requires
            old(bus).wf(),
        ensures
            final(bus).wf(),
            (*final(self), final(bus)@) == spec_jsr(*old(self), old(bus)@),
            extra == 0,
    {
        self.pc = sub16(self.pc, 1);
        self.write(bus, 0x0100 + self.stkp as u16, (self.pc / 0x100) as u8);
        self.stkp = sub8(self.stkp, 1);
        self.write(bus, 0x0100 + self.stkp as u16, (self.pc % 0x100) as u8);
        self.stkp = sub8(self.stkp, 1);
        self.pc = self.addr_abs;
        0
    }

    /// RTS; see [`spec_rts`].
    pub fn rts(&mut self, bus: &Bus) -> (extra: u8)
        requires
            bus.wf(),
        ensures
            *final(self) == spec_rts(*old(self), bus@),
            extra == 0,
    {
        self.stkp = add8(self.stkp, 1);
        let lo = self.read(bus, 0x0100 + self.stkp as u16) as u16;
        self.stkp = add8(self.stkp, 1);
        let hi = self.read(bus, 0x0100 + self.stkp as u16) as u16;
        self.pc = add16(hi * 0x100 + lo, 1);
        0
    }

    /// RTI; see [`spec_rti`].
    pub fn rti(&mut self, bus: &Bus) -> (extra: u8)
        requires
            bus.wf(),
        ensures
            *final(self) == spec_rti(*old(self), bus@),
            extra == 0,
    {
        self.stkp = add8(self.stkp, 1);
        let v = self.read(bus, 0x0100 + self.stkp as u16);
        self.status = (v & !MASK_B) & !MASK_U;
        self.stkp = add8(self.stkp, 1);
        let lo = self.read(bus, 0x0100 + self.stkp as u16) as u16;
        self.stkp = add8(self.stkp, 1);
        let hi = self.read(bus, 0x0100 + self.stkp as u16) as u16;
        self.pc = hi * 0x100 + lo;
        0
    }

    /// BRK; see [`spec_brk`].
    pub fn brk(&mut self, bus: &mut Bus) -> (extra: u8)
        requires
            old(bus).wf(),
        ensures
            final(bus).wf(),
            (*final(self), final(bus)@) == spec_brk(*old(self), old(bus)@),
            extra == 0,
    {
        self.pc = add16(self.pc, 1);
        self.set_flag(StatusFlags::InterruptDisable, true);
        self.write(bus, 0x0100 + self.stkp as u16, (self.pc / 0x100) as u8);
        self.stkp = sub8(self.stkp, 1);
        self.write(bus, 0x0100 + self.stkp as u16, (self.pc % 0x100) as u8);
        self.stkp = sub8(self.stkp, 1);
        self.set_flag(StatusFlags::Break, true);
        self.write(bus, 0x0100 + self.stkp as u16, self.status | MASK_U);
        self.stkp = sub8(self.stkp, 1);
        self.set_flag(StatusFlags::Break, false);
        let lo = self.read(bus, 0xFFFE) as u16;
        let hi = self.read(bus, 0xFFFF) as u16;
        self.pc = hi * 0x100 + lo;
        0
    }

    /// The shared tail of every taken branch; see [`spec_branch`].
    pub(crate) fn branch_taken(&mut self)
        requires
            old(self).cycles <= 0xFD,
        ensures
            *final(self) == spec_branch(*old(self), true),
    {
        self.cycles = self.cycles + 1;
        self.addr_abs = add16(self.pc, self.addr_rel);
        if self.addr_abs / 0x100 != self.pc / 0x100 {
            self.cycles = self.cycles + 1;
        }
        self.pc = self.addr_abs;
    }

    /// BCC: branch when the carry flag is clear.
    pub fn bcc(&mut self) -> (extra: u8)
        requires
            old(self).cycles <= 0xFD,
        ensures
            *final(self) == spec_branch(*old(self), !flag_set(old(self).status, MASK_C)),
            extra == 0,
    {
        if !self.get_flag(StatusFlags::Carry) {
            self.branch_taken();
        }
        0
    }

    /// BCS: branch when the carry flag is set.
    pub fn bcs(&mut self) -> (extra: u8)
        requires
            old(self).cycles <= 0xFD,
        ensures
            *final(self) == spec_branch(*old(self), flag_set(old(self).status, MASK_C)),
            extra == 0,
    {
        if self.get_flag(StatusFlags::Carry) {
            self.branch_taken();
        }
        0
    }

    /// BEQ: branch when the zero flag is set.
    pub fn beq(&mut self) -> (extra: u8)
        requires
            old(self).cycles <= 0xFD,
        ensures
            *final(self) == spec_branch(*old(self), flag_set(old(self).status, MASK_Z)),
            extra == 0,
    {
        if self.get_flag(StatusFlags::Zero) {
            self.branch_taken();
        }
        0
    }

    /// BNE: branch when the zero flag is clear.
    pub fn bne(&mut self) -> (extra: u8)
        requires
            old(self).cycles <= 0xFD,
        ensures
            *final(self) == spec_branch(*old(self), !flag_set(old(self).status, MASK_Z)),
            extra == 0,
    {
        if !self.get_flag(StatusFlags::Zero) {
            self.branch_taken();
        }
        0
    }

    /// BMI: branch when the negative flag is set.
    pub fn bmi(&mut self) -> (extra: u8)
        requires
            old(self).cycles <= 0xFD,
        ensures
            *final(self) == spec_branch(*old(self), flag_set(old(self).status, MASK_N)),
            extra == 0,
    {
        if self.get_flag(StatusFlags::Negative) {
            self.branch_taken();
        }
        0
    }

    /// BPL: branch when the negative flag is clear.
    pub fn bpl(&mut self) -> (extra: u8)
        requires
            old(self).cycles <= 0xFD,
        ensures
            *final(self) == spec_branch(*old(self), !flag_set(old(self).status, MASK_N)),
            extra == 0,
    {
        if !self.get_flag(StatusFlags::Negative) {
            self.branch_taken();
        }
        0
    }

    /// BVC: branch when the overflow flag is clear.
    pub fn bvc(&mut self) -> (extra: u8)
        requires
            old(self).cycles <= 0xFD,
        ensures
            *final(self) == spec_branch(*old(self), !flag_set(old(self).status, MASK_V)),
            extra == 0,
    {
        if !self.get_flag(StatusFlags::Overflow) {
            self.branch_taken();
        }
        0
    }

    /// BVS: branch when the overflow flag is set.
    pub fn bvs(&mut self) -> (extra: u8)
        requires
            old(self).cycles <= 0xFD,
        ensures
            *final(self) == spec_branch(*old(self), flag_set(old(self).status, MASK_V)),
            extra == 0,
    {
        if self.get_flag(StatusFlags::Overflow) {
            self.branch_taken();
        }
        0
    }
}

} // verus!

verus! {

/// The extra-cycle eligibility of a no-operation: only the six
/// "NOP absolute,X" encodings pay attention to a page cross.
pub open spec fn nop_extra(opcode: u8) -> u8 {
    if opcode == 0x1C || opcode == 0x3C || opcode == 0x5C || opcode == 0x7C
        || opcode == 0xDC || opcode == 0xFC {
        1u8
    } else {
        0u8
    }
}

/// What the operation `op` does to the CPU and the memory, and whether it
/// is eligible for the page-cross cycle penalty.
pub open spec fn op_apply(op: crate::instructions::Operation, cpu: Cpu, mem: Seq<u8>) -> (Cpu, Seq<u8>, u8) {
    match op {
        crate::instructions::Operation::Adc => (spec_adc(cpu, mem), mem, 1u8),
        crate::instructions::Operation::Sbc => (spec_sbc(cpu, mem), mem, 1u8),
        crate::instructions::Operation::And => (spec_and(cpu, mem), mem, 1u8),
        crate::instructions::Operation::Eor => (spec_eor(cpu, mem), mem, 1u8),
        crate::instructions::Operation::Ora => (spec_ora(cpu, mem), mem, 1u8),
        crate::instructions::Operation::Cmp => (spec_compare(cpu, mem, cpu.a), mem, 1u8),
        crate::instructions::Operation::Cpx => (spec_compare(cpu, mem, cpu.x), mem, 0u8),
        crate::instructions::Operation::Cpy => (spec_compare(cpu, mem, cpu.y), mem, 0u8),
        crate::instructions::Operation::Bit => (spec_bit(cpu, mem), mem, 0u8),
        crate::instructions::Operation::Lda => (
            Cpu {
                a: spec_fetched(cpu, mem),
                fetched: spec_fetched(cpu, mem),
                status: set_zn(cpu.status, spec_fetched(cpu, mem)),
                ..cpu
            },
            mem,
            1u8,
        ),
        crate::instructions::Operation::Ldx => (
            Cpu {
                x: spec_fetched(cpu, mem),
                fetched: spec_fetched(cpu, mem),
                status: set_zn(cpu.status, spec_fetched(cpu, mem)),
                ..cpu
            },
            mem,
            1u8,
        ),
        crate::instructions::Operation::Ldy => (
            Cpu {
                y: spec_fetched(cpu, mem),
                fetched: spec_fetched(cpu, mem),
                status: set_zn(cpu.status, spec_fetched(cpu, mem)),
                ..cpu
            },
            mem,
            1u8,
        ),
        crate::instructions::Operation::Sta => (cpu, mem.update(cpu.addr_abs as int, cpu.a), 0u8),
        crate::instructions::Operation::Stx => (cpu, mem.update(cpu.addr_abs as int, cpu.x), 0u8),
        crate::instructions::Operation::Sty => (cpu, mem.update(cpu.addr_abs as int, cpu.y), 0u8),
        crate::instructions::Operation::Dec => (spec_dec(cpu, mem).0, spec_dec(cpu, mem).1, 0u8),
        crate::instructions::Operation::Inc => (spec_inc(cpu, mem).0, spec_inc(cpu, mem).1, 0u8),
        crate::instructions::Operation::Dex => (
            Cpu { x: wrap8(cpu.x - 1), status: set_zn(cpu.status, wrap8(cpu.x - 1)), ..cpu },
            mem,
            0u8,
        ),
        crate::instructions::Operation::Dey => (
            Cpu { y: wrap8(cpu.y - 1), status: set_zn(cpu.status, wrap8(cpu.y - 1)), ..cpu },
            mem,
            0u8,
        ),
        crate::instructions::Operation::Inx => (
            Cpu { x: wrap8(cpu.x + 1), status: set_zn(cpu.status, wrap8(cpu.x + 1)), ..cpu },
            mem,
            0u8,
        ),
        crate::instructions::Operation::Iny => (
            Cpu { y: wrap8(cpu.y + 1), status: set_zn(cpu.status, wrap8(cpu.y + 1)), ..cpu },
            mem,
            0u8,
        ),
        crate::instructions::Operation::Tax => (
            Cpu { x: cpu.a, status: set_zn(cpu.status, cpu.a), ..cpu },
            mem,
            0u8,
        ),
        crate::instructions::Operation::Tay => (
            Cpu { y: cpu.a, status: set_zn(cpu.status, cpu.a), ..cpu },
            mem,
            0u8,
        ),
        crate::instructions::Operation::Tsx => (
            Cpu { x: cpu.stkp, status: set_zn(cpu.status, cpu.stkp), ..cpu },
            mem,
            0u8,
        ),
        crate::instructions::Operation::Txa => (
            Cpu { a: cpu.x, status: set_zn(cpu.status, cpu.x), ..cpu },
            mem,
            0u8,
        ),
        crate::instructions::Operation::Txs => (Cpu { stkp: cpu.x, ..cpu }, mem, 0u8),
        crate::instructions::Operation::Tya => (
            Cpu { a: cpu.y, status: set_zn(cpu.status, cpu.y), ..cpu },
            mem,
            0u8,
        ),
        crate::instructions::Operation::Clc => (
            Cpu { status: with_flag(cpu.status, MASK_C, false), ..cpu },
            mem,
            0u8,
        ),
        crate::instructions::Operation::Sec => (
            Cpu { status: with_flag(cpu.status, MASK_C, true), ..cpu },
            mem,
            0u8,
        ),
        crate::instructions::Operation::Cld => (
            Cpu { status: with_flag(cpu.status, crate::cpu::MASK_D, false), ..cpu },
            mem,
            0u8,
        ),
        crate::instructions::Operation::Sed => (
            Cpu { status: with_flag(cpu.status, crate::cpu::MASK_D, true), ..cpu },
            mem,
            0u8,
        ),
        crate::instructions::Operation::Cli => (
            Cpu { status: with_flag(cpu.status, MASK_I, false), ..cpu },
            mem,
            0u8,
        ),
        crate::instructions::Operation::Sei => (
            Cpu { status: with_flag(cpu.status, MASK_I, true), ..cpu },
            mem,
            0u8,
        ),
        crate::instructions::Operation::Clv => (
            Cpu { status: with_flag(cpu.status, MASK_V, false), ..cpu },
            mem,
            0u8,
        ),
        crate::instructions::Operation::Jmp => (Cpu { pc: cpu.addr_abs, ..cpu }, mem, 0u8),
        crate::instructions::Operation::Jsr => (spec_jsr(cpu, mem).0, spec_jsr(cpu, mem).1, 0u8),
        crate::instructions::Operation::Rts => (spec_rts(cpu, mem), mem, 0u8),
        crate::instructions::Operation::Rti => (spec_rti(cpu, mem), mem, 0u8),
        crate::instructions::Operation::Pha => (spec_pha(cpu, mem).0, spec_pha(cpu, mem).1, 0u8),
        crate::instructions::Operation::Php => (spec_php(cpu, mem).0, spec_php(cpu, mem).1, 0u8),
        crate::instructions::Operation::Pla => (spec_pla(cpu, mem), mem, 0u8),
        crate::instructions::Operation::Plp => (spec_plp(cpu, mem), mem, 0u8),
        crate::instructions::Operation::Asl => (spec_asl(cpu, mem).0, spec_asl(cpu, mem).1, 0u8),
        crate::instructions::Operation::Lsr => (spec_lsr(cpu, mem).0, spec_lsr(cpu, mem).1, 0u8),
        crate::instructions::Operation::Rol => (spec_rol(cpu, mem).0, spec_rol(cpu, mem).1, 0u8),
        crate::instructions::Operation::Ror => (spec_ror(cpu, mem).0, spec_ror(cpu, mem).1, 0u8),
        crate::instructions::Operation::Brk => (spec_brk(cpu, mem).0, spec_brk(cpu, mem).1, 0u8),
        crate::instructions::Operation::Bcc => (
            spec_branch(cpu, !flag_set(cpu.status, MASK_C)),
            mem,
            0u8,
        ),
        crate::instructions::Operation::Bcs => (
            spec_branch(cpu, flag_set(cpu.status, MASK_C)),
            mem,
            0u8,
        ),
        crate::instructions::Operation::Beq => (
            spec_branch(cpu, flag_set(cpu.status, MASK_Z)),
            mem,
            0u8,
        ),
        crate::instructions::Operation::Bne => (
            spec_branch(cpu, !flag_set(cpu.status, MASK_Z)),
            mem,
            0u8,
        ),
        crate::instructions::Operation::Bmi => (
            spec_branch(cpu, flag_set(cpu.status, MASK_N)),
            mem,
            0u8,
        ),
        crate::instructions::Operation::Bpl => (
            spec_branch(cpu, !flag_set(cpu.status, MASK_N)),
            mem,
            0u8,
        ),
        crate::instructions::Operation::Bvc => (
            spec_branch(cpu, !flag_set(cpu.status, MASK_V)),
            mem,
            0u8,
        ),
        crate::instructions::Operation::Bvs => (
            spec_branch(cpu, flag_set(cpu.status, MASK_V)),
            mem,
            0u8,
        ),
        crate::instructions::Operation::Nop => (cpu, mem, nop_extra(cpu.opcode)),
        crate::instructions::Operation::Xxx => (cpu, mem, 0u8),
    }
}

/// A taken branch charges one or two cycles; an untaken one charges none.
pub proof fn lemma_branch_cycles(cpu: Cpu, taken: bool)
    requires
        cpu.cycles <= 0xFD,
    ensures
        cpu.cycles <= spec_branch(cpu, taken).cycles <= cpu.cycles + 2,
{
    if taken {
        let target = wrap16(cpu.pc + cpu.addr_rel);
        let bump: int = if target / 0x100 != cpu.pc / 0x100 {
            2
        } else {
            1
        };
        vstd::arithmetic::div_mod::lemma_small_mod((cpu.cycles + bump) as nat, 0x100);
    }
}

/// Whatever the operation, the eligibility bit is at most one, and the
/// cycle count can only grow, by at most the two branch penalties.
#[verifier::rlimit(100)]
pub proof fn lemma_op_apply_bounds(op: crate::instructions::Operation, cpu: Cpu, mem: Seq<u8>)
    requires
        cpu.cycles <= 0xFD,
    ensures
        op_apply(op, cpu, mem).2 <= 1,
        cpu.cycles <= op_apply(op, cpu, mem).0.cycles <= cpu.cycles + 2,
{
    match op {
        crate::instructions::Operation::Bcc => lemma_branch_cycles(
            cpu,
            !flag_set(cpu.status, MASK_C),
        ),
        crate::instructions::Operation::Bcs => lemma_branch_cycles(
            cpu,
            flag_set(cpu.status, MASK_C),
        ),
        crate::instructions::Operation::Beq => lemma_branch_cycles(
            cpu,
            flag_set(cpu.status, MASK_Z),
        ),
        crate::instructions::Operation::Bne => lemma_branch_cycles(
            cpu,
            !flag_set(cpu.status, MASK_Z),
        ),
        crate::instructions::Operation::Bmi => lemma_branch_cycles(
            cpu,
            flag_set(cpu.status, MASK_N),
        ),
        crate::instructions::Operation::Bpl => lemma_branch_cycles(
            cpu,
            !flag_set(cpu.status, MASK_N),
        ),
        crate::instructions::Operation::Bvc => lemma_branch_cycles(
            cpu,
            !flag_set(cpu.status, MASK_V),
        ),
        crate::instructions::Operation::Bvs => lemma_branch_cycles(
            cpu,
            flag_set(cpu.status, MASK_V),
        ),
        _ => (),
    }
}

impl Cpu {
    /// Run the operation `op`; see [`op_apply`].
    #[verifier::rlimit(100)]
    pub fn execute(&mut self, bus: &mut Bus, op: crate::instructions::Operation) -> (extra: u8)
        requires
            old(bus).wf(),
            old(self).cycles <= 0xFD,
        ensures
            final(bus).wf(),
            (*final(self), final(bus)@, extra) == op_apply(op, *old(self), old(bus)@),
    {
        match op {
            crate::instructions::Operation::Adc => self.adc(bus),
            crate::instructions::Operation::Sbc => self.sbc(bus),
            crate::instructions::Operation::And => self.and(bus),
            crate::instructions::Operation::Eor => self.eor(bus),
            crate::instructions::Operation::Ora => self.ora(bus),
            crate::instructions::Operation::Cmp => self.cmp(bus),
            crate::instructions::Operation::Cpx => self.cpx(bus),
            crate::instructions::Operation::Cpy => self.cpy(bus),
            crate::instructions::Operation::Bit => self.bit(bus),
            crate::instructions::Operation::Lda => self.lda(bus),
            crate::instructions::Operation::Ldx => self.ldx(bus),
            crate::instructions::Operation::Ldy => self.ldy(bus),
            crate::instructions::Operation::Sta => self.sta(bus),
            crate::instructions::Operation::Stx => self.stx(bus),
            crate::instructions::Operation::Sty => self.sty(bus),
            crate::instructions::Operation::Dec => self.dec(bus),
            crate::instructions::Operation::Inc => self.inc(bus),
            crate::instructions::Operation::Dex => self.dex(),
            crate::instructions::Operation::Dey => self.dey(),
            crate::instructions::Operation::Inx => self.inx(),
            crate::instructions::Operation::Iny => self.iny(),
            crate::instructions::Operation::Tax => self.tax(),
            crate::instructions::Operation::Tay => self.tay(),
            crate::instructions::Operation::Tsx => self.tsx(),
            crate::instructions::Operation::Txa => self.txa(),
            crate::instructions::Operation::Txs => self.txs(),
            crate::instructions::Operation::Tya => self.tya(),
            crate::instructions::Operation::Clc => self.clc(),
            crate::instructions::Operation::Sec => self.sec(),
            crate::instructions::Operation::Cld => self.cld(),
            crate::instructions::Operation::Sed => self.sed(),
            crate::instructions::Operation::Cli => self.cli(),
            crate::instructions::Operation::Sei => self.sei(),
            crate::instructions::Operation::Clv => self.clv(),
            crate::instructions::Operation::Jmp => self.jmp(),
            crate::instructions::Operation::Jsr => self.jsr(bus),
            crate::instructions::Operation::Rts => self.rts(bus),
            crate::instructions::Operation::Rti => self.rti(bus),
            crate::instructions::Operation::Pha => self.pha(bus),
            crate::instructions::Operation::Php => self.php(bus),
            crate::instructions::Operation::Pla => self.pla(bus),
            crate::instructions::Operation::Plp => self.plp(bus),
            crate::instructions::Operation::Asl => self.asl(bus),
            crate::instructions::Operation::Lsr => self.lsr(bus),
            crate::instructions::Operation::Rol => self.rol(bus),
            crate::instructions::Operation::Ror => self.ror(bus),
            crate::instructions::Operation::Brk => self.brk(bus),
            crate::instructions::Operation::Bcc => self.bcc(),
            crate::instructions::Operation::Bcs => self.bcs(),
            crate::instructions::Operation::Beq => self.beq(),
            crate::instructions::Operation::Bne => self.bne(),
            crate::instructions::Operation::Bmi => self.bmi(),
            crate::instructions::Operation::Bpl => self.bpl(),
            crate::instructions::Operation::Bvc => self.bvc(),
            crate::instructions::Operation::Bvs => self.bvs(),
            crate::instructions::Operation::Nop => self.nop(),
            crate::instructions::Operation::Xxx => self.xxx(),
        }
    }
}

} // verus!
