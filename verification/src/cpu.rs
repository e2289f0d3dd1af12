//! The 6502 CPU core: register file, status flags, and the
//! fetch/decode/execute state machine.
//!
//! The driver owns the CPU and the [`Bus`] and hands the bus to every
//! operation, so each memory access deterministically reaches the same
//! 64 KiB array. All 8-bit register arithmetic wraps modulo 2^8 and all
//! 16-bit address arithmetic wraps modulo 2^16.

use vstd::prelude::*;
use crate::bus::Bus;
use crate::instructions::instruction_at;
use crate::instructions::lookup;

verus! {

/// Carry flag: bit 0 of the status register.
pub const MASK_C: u8 = 0x01;
/// Zero flag: bit 1.
pub const MASK_Z: u8 = 0x02;
/// Interrupt-disable flag: bit 2.
pub const MASK_I: u8 = 0x04;
/// Decimal-mode flag: bit 3 (stored but never honored by this core).
pub const MASK_D: u8 = 0x08;
/// Break flag: bit 4.
pub const MASK_B: u8 = 0x10;
/// Unused (reserved) flag: bit 5, canonically one in every pushed status byte.
pub const MASK_U: u8 = 0x20;
/// Overflow flag: bit 6.
pub const MASK_V: u8 = 0x40;
/// Negative flag: bit 7.
pub const MASK_N: u8 = 0x80;

/// The eight bits of the 6502 status register `p`.
#[derive(Clone, Copy, PartialEq, Eq, Structural, Debug)]
pub enum StatusFlags {
    Carry,
    Zero,
    InterruptDisable,
    DecimalMode,
    Break,
    Unused,
    Overflow,
    Negative,
}

impl StatusFlags {
    /// The single-bit mask of this flag within the status byte.
    pub open spec fn spec_mask(self) -> u8 {
        match self {
            StatusFlags::Carry => MASK_C,
            StatusFlags::Zero => MASK_Z,
            StatusFlags::InterruptDisable => MASK_I,
            StatusFlags::DecimalMode => MASK_D,
            StatusFlags::Break => MASK_B,
            StatusFlags::Unused => MASK_U,
            StatusFlags::Overflow => MASK_V,
            StatusFlags::Negative => MASK_N,
        }
    }

    /// The executable counterpart of [`StatusFlags::spec_mask`].
    pub fn mask(self) -> (m: u8)
        ensures
            m == self.spec_mask(),
    {
        match self {
            StatusFlags::Carry => MASK_C,
            StatusFlags::Zero => MASK_Z,
            StatusFlags::InterruptDisable => MASK_I,
            StatusFlags::DecimalMode => MASK_D,
            StatusFlags::Break => MASK_B,
            StatusFlags::Unused => MASK_U,
            StatusFlags::Overflow => MASK_V,
            StatusFlags::Negative => MASK_N,
        }
    }
}

/// Whether the flag selected by `mask` is set in the status byte `p`.
pub open spec fn flag_set(p: u8, mask: u8) -> bool {
    p & mask != 0
}

/// The status byte `p` with the flag selected by `mask` set or cleared.
pub open spec fn with_flag(p: u8, mask: u8, on: bool) -> u8 {
    if on {
        p | mask
    } else {
        p & !mask
    }
}

/// The status byte `p` with the zero and negative flags taken from the
/// result byte `v`, as every load, logical and arithmetic result does.
pub open spec fn set_zn(p: u8, v: u8) -> u8 {
    with_flag(with_flag(p, MASK_Z, v == 0), MASK_N, v & 0x80 != 0)
}

/// `n` reduced modulo 2^8, the wrap of every 8-bit register operation.
pub open spec fn wrap8(n: int) -> u8 {
    (n % 0x100) as u8
}

/// `n` reduced modulo 2^16, the wrap of every address computation.
pub open spec fn wrap16(n: int) -> u16 {
    (n % 0x10000) as u16
}

/// The little-endian 16-bit value whose low byte sits at `addr` and whose
/// high byte sits at `addr + 1` in `mem`.
pub open spec fn word_at(mem: Seq<u8>, addr: u16) -> u16 {
    (mem[wrap16(addr + 1) as int] * 0x100 + mem[addr as int]) as u16
}

/// 8-bit addition that wraps modulo 2^8.
pub fn add8(a: u8, b: u8) -> (r: u8)
    ensures
        r == wrap8(a + b),
{
    (((a as u16) + (b as u16)) % 0x100) as u8
}

/// 16-bit addition that wraps modulo 2^16.
pub fn add16(a: u16, b: u16) -> (r: u16)
    ensures
        r == wrap16(a + b),
{
    (((a as u32) + (b as u32)) % 0x10000) as u16
}

/// 8-bit subtraction that wraps modulo 2^8.
pub fn sub8(a: u8, b: u8) -> (r: u8)
    ensures
        r == wrap8(a - b),
{
    proof {
        vstd::arithmetic::div_mod::lemma_mod_add_multiples_vanish(a - b, 0x100);
    }
    (((a as u16) + 0x100 - (b as u16)) % 0x100) as u8
}

/// 16-bit subtraction that wraps modulo 2^16.
pub fn sub16(a: u16, b: u16) -> (r: u16)
    ensures
        r == wrap16(a - b),
{
    proof {
        vstd::arithmetic::div_mod::lemma_mod_add_multiples_vanish(a - b, 0x10000);
    }
    (((a as u32) + 0x10000 - (b as u32)) % 0x10000) as u16
}

/// The page-1 address through which the stack pointer `sp` reads or writes.
pub open spec fn stack_addr(sp: u8) -> u16 {
    (0x0100 + sp) as u16
}

/// The twelve addressing modes of the documented 6502 instruction set,
/// with the accumulator mode listed separately; this core folds it into
/// `Implied`, so the dispatch table only ever names `Implied`.
#[derive(Clone, Copy, PartialEq, Eq, Structural, Debug)]
pub enum AddressingMode {
    Immediate,
    ZeroPage,
    ZeroPageX,
    ZeroPageY,
    Absolute,
    AbsoluteX,
    AbsoluteY,
    Indirect,
    IndirectX,
    IndirectY,
    Accumulator,
    Implied,
    Relative,
}

/// Whether a mode addresses no memory operand: the operand is the
/// accumulator (or nothing), already latched into `fetched`.
pub open spec fn is_implied(mode: AddressingMode) -> bool {
    mode == AddressingMode::Implied || mode == AddressingMode::Accumulator
}

/// The 6502 register file and the internal scratch the core keeps between
/// the decode and execute steps of one instruction.
pub struct Cpu {
    /// Accumulator register.
    pub a: u8,
    /// X index register.
    pub x: u8,
    /// Y index register.
    pub y: u8,
    /// Stack pointer; the stack lives at `0x0100 + stkp` and wraps in page 1.
    pub stkp: u8,
    /// Program counter.
    pub pc: u16,
    /// Status register `p`.
    pub status: u8,
    /// Last operand byte latched by the fetch step.
    pub fetched: u8,
    /// Last effective address resolved by the addressing-mode decoder.
    pub addr_abs: u16,
    /// Last sign-extended relative offset, for branch instructions.
    pub addr_rel: u16,
    /// Opcode currently being executed.
    pub opcode: u8,
    /// Clock ticks remaining for the current instruction.
    pub cycles: u8,
}

/// The operand byte the execute step works on: the byte at the effective
/// address, unless the mode is implied, in which case the decoder already
/// latched the accumulator into `fetched`.
pub open spec fn spec_fetched(cpu: Cpu, mem: Seq<u8>) -> u8 {
    if is_implied(instruction_at(cpu.opcode).mode) {
        cpu.fetched
    } else {
        mem[cpu.addr_abs as int]
    }
}

impl Cpu {
    /// A CPU in its power-on state: all registers clear, every status bit
    /// set. [`Cpu::reset`] must run before the first [`Cpu::clock`].
    pub fn new() -> (cpu: Cpu)
        ensures
            cpu == (Cpu {
                a: 0u8,
                x: 0u8,
                y: 0u8,
                stkp: 0u8,
                pc: 0u16,
                status: 0xFFu8,
                fetched: 0u8,
                addr_abs: 0u16,
                addr_rel: 0u16,
                opcode: 0u8,
                cycles: 0u8,
            }),
    {
        Cpu {
            a: 0,
            x: 0,
            y: 0,
            stkp: 0,
            pc: 0,
            status: 0xFF,
            fetched: 0,
            addr_abs: 0,
            addr_rel: 0,
            opcode: 0,
            cycles: 0,
        }
    }

    /// Load one byte from the bus.
    pub fn read(&self, bus: &Bus, a: u16) -> (d: u8)
        requires
            bus.wf(),
        ensures
            d == bus@[a as int],
    {
        bus.read(a, false)
    }

    /// Store one byte on the bus.
    pub fn write(&self, bus: &mut Bus, a: u16, d: u8)
        requires
            old(bus).wf(),
        ensures
            final(bus).wf(),
            final(bus)@ == old(bus)@.update(a as int, d),
    {
        bus.write(a, d);
    }

    /// Whether the given status flag is set.
    pub fn get_flag(&self, f: StatusFlags) -> (v: bool)
        ensures
            v == flag_set(self.status, f.spec_mask()),
    {
        (self.status & f.mask()) != 0
    }

    /// Set or clear the given status flag, leaving every other bit alone.
    pub fn set_flag(&mut self, f: StatusFlags, v: bool)
        ensures
            *final(self) == (Cpu { status: with_flag(old(self).status, f.spec_mask(), v), ..*old(self) }),
    {
        let m = f.mask();
        if v {
            self.status = self.status | m;
        } else {
            self.status = self.status & !m;
        }
    }

    /// Latch the operand byte for the execute step; see [`spec_fetched`].
    pub(crate) fn fetch(&mut self, bus: &Bus) -> (v: u8)
        requires
            bus.wf(),
        ensures
            *final(self) == (Cpu { fetched: spec_fetched(*old(self), bus@), ..*old(self) }),
            v == final(self).fetched,
    {
        let entry = lookup(self.opcode);
        if !matches!(entry.mode, AddressingMode::Implied | AddressingMode::Accumulator) {
            self.fetched = self.read(bus, self.addr_abs);
        }
        self.fetched
    }
}

} // verus!

verus! {

/// One bus tick as a mathematical function of the CPU state and the RAM
/// image.
///
/// While cycles remain for the current instruction the tick only counts
/// one down. When none remain, the whole next instruction runs atomically:
/// the opcode is fetched, its addressing mode decoded and its operation
/// applied, the page-cross penalty is charged when both the mode and the
/// operation vote for it, the unused flag is forced to one, and the tick
/// itself is counted against the new budget.
pub open spec fn spec_clock(cpu: Cpu, mem: Seq<u8>) -> (Cpu, Seq<u8>) {
    if cpu.cycles != 0 {
        (Cpu { cycles: (cpu.cycles - 1) as u8, ..cpu }, mem)
    } else {
        let opcode = mem[cpu.pc as int];
        let entry = instruction_at(opcode);
        let fetched = Cpu {
            opcode,
            pc: wrap16(cpu.pc + 1),
            cycles: entry.cycles,
            ..cpu
        };
        let decoded = crate::addressing::mode_apply(entry.mode, fetched, mem);
        let executed = crate::ops::op_apply(entry.op, decoded.0, mem);
        let budget = (executed.0.cycles + (decoded.1 & executed.2)) as u8;
        (
            Cpu {
                status: with_flag(executed.0.status, MASK_U, true),
                cycles: (budget - 1) as u8,
                ..executed.0
            },
            executed.1,
        )
    }
}

/// The CPU state after a reset with the RAM image `mem`: registers
/// cleared, the stack pointer at `0xFD`, only the unused status bit set,
/// the counter loaded from the vector at `0xFFFC`, and eight cycles
/// burned. Only the latched opcode survives from the previous state.
pub open spec fn spec_reset(cpu: Cpu, mem: Seq<u8>) -> Cpu {
    Cpu {
        a: 0u8,
        x: 0u8,
        y: 0u8,
        stkp: 0xFDu8,
        status: MASK_U,
        pc: word_at(mem, 0xFFFC),
        fetched: 0u8,
        addr_abs: 0u16,
        addr_rel: 0u16,
        opcode: cpu.opcode,
        cycles: 8u8,
    }
}

/// An interrupt request. Masked entirely when `I` is set; otherwise the
/// counter and the status byte (break bit clear, unused bit set, and the
/// pre-interrupt `I`) are pushed, then `I` is set in the register, the
/// counter is loaded through the vector at `0xFFFE`, and seven cycles are
/// burned.
pub open spec fn spec_irq(cpu: Cpu, mem: Seq<u8>) -> (Cpu, Seq<u8>) {
    if flag_set(cpu.status, MASK_I) {
        (cpu, mem)
    } else {
        let m1 = mem.update(stack_addr(cpu.stkp) as int, (cpu.pc / 0x100) as u8);
        let sp1 = wrap8(cpu.stkp - 1);
        let m2 = m1.update(stack_addr(sp1) as int, (cpu.pc % 0x100) as u8);
        let sp2 = wrap8(sp1 - 1);
        let pushed = with_flag(with_flag(cpu.status, MASK_B, false), MASK_U, true);
        let m3 = m2.update(stack_addr(sp2) as int, pushed);
        let sp3 = wrap8(sp2 - 1);
        (
            Cpu {
                pc: word_at(m3, 0xFFFE),
                stkp: sp3,
                status: with_flag(pushed, MASK_I, true),
                addr_abs: 0xFFFEu16,
                cycles: 7u8,
                ..cpu
            },
            m3,
        )
    }
}

/// A non-maskable interrupt: the same push sequence as an accepted
/// request, but unconditional, through the vector at `0xFFFA`, and eight
/// cycles are burned. The pushed status byte carries the pre-interrupt
/// `I`; the register gets `I` set only after the push.
pub open spec fn spec_nmi(cpu: Cpu, mem: Seq<u8>) -> (Cpu, Seq<u8>) {
    let m1 = mem.update(stack_addr(cpu.stkp) as int, (cpu.pc / 0x100) as u8);
    let sp1 = wrap8(cpu.stkp - 1);
    let m2 = m1.update(stack_addr(sp1) as int, (cpu.pc % 0x100) as u8);
    let sp2 = wrap8(sp1 - 1);
    let pushed = with_flag(with_flag(cpu.status, MASK_B, false), MASK_U, true);
    let m3 = m2.update(stack_addr(sp2) as int, pushed);
    let sp3 = wrap8(sp2 - 1);
    (
        Cpu {
            pc: word_at(m3, 0xFFFA),
            stkp: sp3,
            status: with_flag(pushed, MASK_I, true),
            addr_abs: 0xFFFAu16,
            cycles: 8u8,
            ..cpu
        },
        m3,
    )
}

impl Cpu {
    /// Advance one bus cycle; see [`spec_clock`]. The new state and RAM
    /// image are a pure function of the old ones.
    pub fn clock(&mut self, bus: &mut Bus)
        requires
            old(bus).wf(),
        ensures
            final(bus).wf(),
            (*final(self), final(bus)@) == spec_clock(*old(self), old(bus)@),
    {
        if self.cycles == 0 {
            self.opcode = self.read(bus, self.pc);
            self.pc = add16(self.pc, 1);
            let entry = lookup(self.opcode);
            self.cycles = entry.cycles;
            let add1 = self.get_operand_address(bus, entry.mode);
            let ghost decoded = *self;
            let ghost decoded_mem = bus@;
            let add2 = self.execute(bus, entry.op);
            proof {
                crate::ops::lemma_op_apply_bounds(entry.op, decoded, decoded_mem);
            }
            assert(add1 <= 1);
            assert(add1 & add2 <= 1) by (bit_vector)
                requires
                    add1 <= 1 && add2 <= 1,
            ;
            self.cycles = self.cycles + (add1 & add2);
            self.set_flag(StatusFlags::Unused, true);
        }
        self.cycles = self.cycles - 1;
    }

    /// Re-initialize the architectural state; see [`spec_reset`]. Must run
    /// before the first [`Cpu::clock`].
    pub fn reset(&mut self, bus: &Bus)
        requires
            bus.wf(),
        ensures
            *final(self) == spec_reset(*old(self), bus@),
    {
        self.a = 0;
        self.x = 0;
        self.y = 0;
        self.stkp = 0xFD;
        self.status = MASK_U;
        let lo = self.read(bus, 0xFFFC) as u16;
        let hi = self.read(bus, 0xFFFD) as u16;
        self.pc = hi * 0x100 + lo;
        self.fetched = 0;
        self.addr_abs = 0;
        self.addr_rel = 0;
        self.cycles = 8;
    }

    /// Signal an interrupt request; see [`spec_irq`]. A request while `I`
    /// is set leaves the CPU and the RAM untouched.
    pub fn irq(&mut self, bus: &mut Bus)
        requires
            old(bus).wf(),
        ensures
            final(bus).wf(),
            (*final(self), final(bus)@) == spec_irq(*old(self), old(bus)@),
    {
        if !self.get_flag(StatusFlags::InterruptDisable) {
            self.write(bus, 0x0100 + self.stkp as u16, (self.pc / 0x100) as u8);
            self.stkp = sub8(self.stkp, 1);
            self.write(bus, 0x0100 + self.stkp as u16, (self.pc % 0x100) as u8);
            self.stkp = sub8(self.stkp, 1);
            self.set_flag(StatusFlags::Break, false);
            self.set_flag(StatusFlags::Unused, true);
            self.write(bus, 0x0100 + self.stkp as u16, self.status);
            self.stkp = sub8(self.stkp, 1);
            self.set_flag(StatusFlags::InterruptDisable, true);
            self.addr_abs = 0xFFFE;
            let lo = self.read(bus, 0xFFFE) as u16;
            let hi = self.read(bus, 0xFFFF) as u16;
            self.pc = hi * 0x100 + lo;
            self.cycles = 7;
        }
    }

    /// Signal a non-maskable interrupt; see [`spec_nmi`].
    pub fn nmi(&mut self, bus: &mut Bus)
        requires
            old(bus).wf(),
        ensures
            final(bus).wf(),
            (*final(self), final(bus)@) == spec_nmi(*old(self), old(bus)@),
    {
        self.write(bus, 0x0100 + self.stkp as u16, (self.pc / 0x100) as u8);
        self.stkp = sub8(self.stkp, 1);
        self.write(bus, 0x0100 + self.stkp as u16, (self.pc % 0x100) as u8);
        self.stkp = sub8(self.stkp, 1);
        self.set_flag(StatusFlags::Break, false);
        self.set_flag(StatusFlags::Unused, true);
        self.write(bus, 0x0100 + self.stkp as u16, self.status);
        self.stkp = sub8(self.stkp, 1);
        self.set_flag(StatusFlags::InterruptDisable, true);
        self.addr_abs = 0xFFFA;
        let lo = self.read(bus, 0xFFFA) as u16;
        let hi = self.read(bus, 0xFFFB) as u16;
        self.pc = hi * 0x100 + lo;
        self.cycles = 8;
    }
}

} // verus!
