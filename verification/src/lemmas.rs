//! Proved facts about the CPU model: determinism, the cycle budget, the
//! status byte pushed to the stack, stack wrap-around, reset idempotence
//! and interrupt masking.

use vstd::prelude::*;
use vstd::arithmetic::div_mod::lemma_add_mod_noop;
use vstd::arithmetic::div_mod::lemma_mod_multiples_vanish;
use vstd::arithmetic::div_mod::lemma_small_mod;
use vstd::arithmetic::div_mod::lemma_sub_mod_noop;
use crate::addressing::mode_apply;
use crate::cpu::Cpu;
use crate::cpu::AddressingMode;
use crate::cpu::MASK_B;
use crate::cpu::MASK_I;
use crate::cpu::MASK_U;
use crate::cpu::flag_set;
use crate::cpu::spec_clock;
use crate::cpu::spec_irq;
use crate::cpu::spec_nmi;
use crate::cpu::spec_reset;
use crate::cpu::stack_addr;
use crate::cpu::wrap16;
use crate::cpu::wrap8;
use crate::instructions::instruction_at;
use crate::ops::lemma_op_apply_bounds;
use crate::ops::op_apply;
use crate::ops::spec_brk;
use crate::ops::spec_php;
use crate::ops::spec_rti;

verus! {

/// The state after `n` bus ticks from the given CPU state and RAM image.
pub open spec fn spec_run(cpu: Cpu, mem: Seq<u8>, n: nat) -> (Cpu, Seq<u8>)
    decreases n,
{
    if n == 0 {
        (cpu, mem)
    } else {
        let stepped = spec_clock(cpu, mem);
        spec_run(stepped.0, stepped.1, (n - 1) as nat)
    }
}

/// Determinism: the sequence of states under repeated clocking is a pure
/// function of the initial RAM image and the initial register state.
pub proof fn lemma_determinism(c1: Cpu, m1: Seq<u8>, c2: Cpu, m2: Seq<u8>, n: nat)
    requires
        c1 == c2,
        m1 == m2,
    ensures
        spec_run(c1, m1, n) == spec_run(c2, m2, n),
{
}

/// While cycles remain for the current instruction, each tick only counts
/// one down: exactly `cycles` further ticks retire the instruction, and
/// neither the registers nor the RAM change along the way.
pub proof fn lemma_drain(cpu: Cpu, mem: Seq<u8>, n: nat)
    requires
        n == cpu.cycles,
    ensures
        spec_run(cpu, mem, n) == (Cpu { cycles: 0u8, ..cpu }, mem),
    decreases n,
{
    if n != 0 {
        let stepped = spec_clock(cpu, mem);
        lemma_drain(stepped.0, stepped.1, (n - 1) as nat);
    }
}

/// Reducing modulo 2^8 before subtracting a small amount changes nothing.
pub proof fn lemma_wrap8_sub(n: int, d: int)
    requires
        0 <= d < 0x100,
    ensures
        wrap8(wrap8(n) - d) == wrap8(n - d),
{
    lemma_sub_mod_noop(n, d, 0x100);
    lemma_small_mod(d as nat, 0x100);
}

/// Reducing modulo 2^8 before adding a small amount changes nothing.
pub proof fn lemma_wrap8_add(n: int, d: int)
    requires
        0 <= d < 0x100,
    ensures
        wrap8(wrap8(n) + d) == wrap8(n + d),
{
    lemma_add_mod_noop(n, d, 0x100);
    lemma_small_mod(d as nat, 0x100);
}

/// Stepping a stack pointer down by one to 255 places never returns it to
/// where it started.
pub proof fn lemma_wrap8_moves(s: u8, d: int)
    requires
        1 <= d < 0x100,
    ensures
        wrap8(s - d) != s,
{
    if s >= d {
        lemma_small_mod((s - d) as nat, 0x100);
    } else {
        lemma_mod_multiples_vanish(1, s - d, 0x100);
        lemma_small_mod((s - d + 0x100) as nat, 0x100);
    }
}

/// Every base cycle count in the dispatch table lies between two and
/// seven.
#[verifier::rlimit(100)]
pub proof fn lemma_table_cycles(opcode: u8)
    ensures
        2 <= instruction_at(opcode).cycles <= 7,
{
}

/// No addressing-mode decoder touches the cycle counter or the latched
/// opcode, and the page-cross flag is a single bit.
pub proof fn lemma_mode_apply_bounds(mode: AddressingMode, cpu: Cpu, mem: Seq<u8>)
    ensures
        mode_apply(mode, cpu, mem).0.cycles == cpu.cycles,
        mode_apply(mode, cpu, mem).0.opcode == cpu.opcode,
        mode_apply(mode, cpu, mem).1 <= 1,
{
}

/// The cycle budget: a tick that initiates an instruction charges the base
/// cycle count of the opcode, plus the branch penalties the operation
/// added, plus one when both the addressing mode crossed a page and the
/// operation is eligible; the initiating tick itself is already spent.
pub proof fn lemma_cycle_budget(cpu: Cpu, mem: Seq<u8>)
    requires
        cpu.cycles == 0,
    ensures
        ({
            let opcode = mem[cpu.pc as int];
            let entry = instruction_at(opcode);
            let fetched = Cpu { opcode, pc: wrap16(cpu.pc + 1), cycles: entry.cycles, ..cpu };
            let decoded = mode_apply(entry.mode, fetched, mem);
            let executed = op_apply(entry.op, decoded.0, mem);
            spec_clock(cpu, mem).0.cycles + 1 == entry.cycles + (executed.0.cycles
                - decoded.0.cycles) + (decoded.1 & executed.2)
        }),
{
    let opcode = mem[cpu.pc as int];
    let entry = instruction_at(opcode);
    lemma_table_cycles(opcode);
    let fetched = Cpu { opcode, pc: wrap16(cpu.pc + 1), cycles: entry.cycles, ..cpu };
    lemma_mode_apply_bounds(entry.mode, fetched, mem);
    let decoded = mode_apply(entry.mode, fetched, mem);
    lemma_op_apply_bounds(entry.op, decoded.0, mem);
    let executed = op_apply(entry.op, decoded.0, mem);
    let d = decoded.1;
    let e = executed.2;
    assert(d <= 1 && e <= 1 ==> (d & e) <= 1) by (bit_vector);
}

/// Every status byte the CPU pushes to the stack carries the unused bit,
/// whatever the in-register value: the PHP, BRK and interrupt pushes all
/// force it to one in the pushed copy.
pub proof fn lemma_pushed_status_unused(cpu: Cpu, mem: Seq<u8>)
    requires
        mem.len() == 0x10000,
    ensures
        flag_set(spec_php(cpu, mem).1[stack_addr(cpu.stkp) as int], MASK_U),
        flag_set(spec_brk(cpu, mem).1[stack_addr(wrap8(cpu.stkp - 2)) as int], MASK_U),
        !flag_set(cpu.status, MASK_I) ==> flag_set(
            spec_irq(cpu, mem).1[stack_addr(wrap8(cpu.stkp - 2)) as int],
            MASK_U,
        ),
        flag_set(spec_nmi(cpu, mem).1[stack_addr(wrap8(cpu.stkp - 2)) as int], MASK_U),
{
    let p = cpu.status;
    assert(((p | MASK_B) | MASK_U) & MASK_U != 0) by (bit_vector);
    assert((((p | MASK_I) | MASK_B) | MASK_U) & MASK_U != 0) by (bit_vector);
    assert(((p & !MASK_B) | MASK_U) & MASK_U != 0) by (bit_vector);
    lemma_wrap8_sub(cpu.stkp - 1, 1);
}

/// Two consecutive resets, with the cycles drained between them, produce
/// identical states: what reset leaves behind depends only on the RAM
/// image and the latched opcode, and neither the drain nor the reset
/// changes those.
pub proof fn lemma_reset_idempotent(cpu: Cpu, mem: Seq<u8>)
    ensures
        ({
            let once = spec_reset(cpu, mem);
            let drained = spec_run(once, mem, once.cycles as nat);
            spec_reset(drained.0, drained.1) == once
        }),
{
    let once = spec_reset(cpu, mem);
    lemma_drain(once, mem, once.cycles as nat);
}

/// An interrupt request while the disable flag is set leaves the
/// architectural state, the cycle count and the RAM unchanged.
pub proof fn lemma_irq_masked(cpu: Cpu, mem: Seq<u8>)
    requires
        flag_set(cpu.status, MASK_I),
    ensures
        spec_irq(cpu, mem) == (cpu, mem),
{
}

/// The indirect-mode page-wrap quirk: when the pointer's low byte is
/// `0xFF`, the high byte of the effective address is read from the start
/// of the pointer's own page, not from the following page.
pub proof fn lemma_indirect_page_wrap(cpu: Cpu, mem: Seq<u8>)
    requires
        mem[cpu.pc as int] == 0xFF,
    ensures
        ({
            let page = mem[wrap16(cpu.pc + 1) as int];
            crate::addressing::spec_addr_ind(cpu, mem).addr_abs == (mem[(page as int) * 0x100]
                * 0x100 + mem[(page as int) * 0x100 + 0xFF]) as u16
        }),
{
}

} // verus!

verus! {

/// The state after `k` consecutive pushes of the accumulator.
pub open spec fn run_pha(cpu: Cpu, mem: Seq<u8>, k: nat) -> (Cpu, Seq<u8>)
    decreases k,
{
    if k == 0 {
        (cpu, mem)
    } else {
        let stepped = crate::ops::spec_pha(cpu, mem);
        run_pha(stepped.0, stepped.1, (k - 1) as nat)
    }
}

/// The CPU after `k` consecutive pops into the accumulator; pops read the
/// RAM but never change it.
pub open spec fn run_pla(cpu: Cpu, mem: Seq<u8>, k: nat) -> Cpu
    decreases k,
{
    if k == 0 {
        cpu
    } else {
        run_pla(crate::ops::spec_pla(cpu, mem), mem, (k - 1) as nat)
    }
}

/// The page-1 address that the push numbered `j` (counting from zero)
/// writes, starting from the stack pointer `sp`.
pub open spec fn pushed_addr(sp: u8, j: int) -> u16 {
    stack_addr(wrap8(sp - j))
}

/// `k` pops are the first `k - 1` pops followed by one more.
proof fn lemma_run_pla_snoc(cpu: Cpu, mem: Seq<u8>, k: nat)
    requires
        k >= 1,
    ensures
        run_pla(cpu, mem, k) == crate::ops::spec_pla(run_pla(cpu, mem, (k - 1) as nat), mem),
    decreases k,
{
    reveal_with_fuel(run_pla, 2);
    if k > 1 {
        lemma_run_pla_snoc(crate::ops::spec_pla(cpu, mem), mem, (k - 1) as nat);
    }
}

/// A byte that none of `k` consecutive pushes addresses keeps its value.
proof fn lemma_run_pha_frame(cpu: Cpu, mem: Seq<u8>, k: nat, addr: u16)
    requires
        mem.len() == 0x10000,
        k <= 0x100,
        forall|j: int| 0 <= j < k ==> addr != pushed_addr(cpu.stkp, j),
    ensures
        run_pha(cpu, mem, k).1.len() == 0x10000,
        run_pha(cpu, mem, k).1[addr as int] == mem[addr as int],
    decreases k,
{
    if k != 0 {
        let stepped = crate::ops::spec_pha(cpu, mem);
        lemma_small_mod(cpu.stkp as nat, 0x100);
        assert(addr != pushed_addr(cpu.stkp, 0));
        assert forall|j: int| 0 <= j < k - 1 implies addr != pushed_addr(stepped.0.stkp, j) by {
            lemma_wrap8_sub(cpu.stkp - 1, j);
            assert(addr != pushed_addr(cpu.stkp, j + 1));
        }
        lemma_run_pha_frame(stepped.0, stepped.1, (k - 1) as nat, addr);
    }
}

/// Stack wrap: `k` consecutive pushes of the accumulator followed by `k`
/// pops leave the stack pointer unchanged and restore the accumulator,
/// for any initial memory pattern and any `k` up to the size of page 1.
pub proof fn lemma_stack_round_trip(cpu: Cpu, mem: Seq<u8>, k: nat)
    requires
        mem.len() == 0x10000,
        k <= 0x100,
    ensures
        ({
            let pushed = run_pha(cpu, mem, k);
            let back = run_pla(pushed.0, pushed.1, k);
            back.stkp == cpu.stkp && back.a == cpu.a
        }),
    decreases k,
{
    if k != 0 {
        let stepped = crate::ops::spec_pha(cpu, mem);
        lemma_stack_round_trip(stepped.0, stepped.1, (k - 1) as nat);
        let pushed = run_pha(cpu, mem, k);
        lemma_run_pla_snoc(pushed.0, pushed.1, k);
        let inner = run_pla(pushed.0, pushed.1, (k - 1) as nat);
        lemma_wrap8_add(cpu.stkp - 1, 1);
        lemma_small_mod(cpu.stkp as nat, 0x100);
        assert forall|j: int| 0 <= j < k - 1 implies stack_addr(cpu.stkp) != pushed_addr(
            stepped.0.stkp,
            j,
        ) by {
            lemma_wrap8_sub(cpu.stkp - 1, j);
            lemma_wrap8_moves(cpu.stkp, j + 1);
        }
        lemma_run_pha_frame(stepped.0, stepped.1, (k - 1) as nat, stack_addr(cpu.stkp));
    }
}

/// The full wrap of page 1: 256 consecutive pushes of the accumulator
/// followed by 256 pops leave the stack pointer unchanged and restore the
/// accumulator, for any initial memory pattern.
pub proof fn lemma_stack_wrap(cpu: Cpu, mem: Seq<u8>)
    requires
        mem.len() == 0x10000,
    ensures
        ({
            let pushed = run_pha(cpu, mem, 256);
            let back = run_pla(pushed.0, pushed.1, 256);
            back.stkp == cpu.stkp && back.a == cpu.a
        }),
{
    lemma_stack_round_trip(cpu, mem, 256);
}

} // verus!

verus! {

/// The unused status bit is established by reset and forced anew by every
/// tick that executes an instruction, so it is set whenever the next
/// instruction begins.
pub proof fn lemma_unused_bit_maintained(cpu: Cpu, mem: Seq<u8>)
    requires
        cpu.cycles == 0,
    ensures
        flag_set(spec_clock(cpu, mem).0.status, MASK_U),
        flag_set(spec_reset(cpu, mem).status, MASK_U),
{
    let opcode = mem[cpu.pc as int];
    let entry = instruction_at(opcode);
    let fetched = Cpu { opcode, pc: wrap16(cpu.pc + 1), cycles: entry.cycles, ..cpu };
    let decoded = mode_apply(entry.mode, fetched, mem);
    let executed = op_apply(entry.op, decoded.0, mem);
    let p = executed.0.status;
    assert((p | MASK_U) & MASK_U != 0) by (bit_vector);
    assert(MASK_U & MASK_U != 0) by (bit_vector);
}

} // verus!

verus! {

/// A return from interrupt undoes an accepted interrupt request: the
/// program counter, the stack pointer and the status byte (with the break
/// and unused bits dropped, as the pop does) come back, and in particular
/// the interrupt-disable flag is clear again, since the pushed byte
/// carried the pre-interrupt `I`.
pub proof fn lemma_rti_undoes_irq(cpu: Cpu, mem: Seq<u8>)
    requires
        mem.len() == 0x10000,
        !flag_set(cpu.status, MASK_I),
    ensures
        ({
            let taken = spec_irq(cpu, mem);
            let back = spec_rti(taken.0, taken.1);
            back.pc == cpu.pc && back.stkp == cpu.stkp && back.status == ((cpu.status & !MASK_B)
                & !MASK_U) && !flag_set(back.status, MASK_I)
        }),
{
    let p = cpu.status;
    let s = cpu.stkp;
    lemma_wrap8_sub(s - 1, 1);
    lemma_wrap8_sub(s - 2, 1);
    lemma_wrap8_add(s - 3, 1);
    lemma_wrap8_add(s - 2, 1);
    lemma_wrap8_add(s - 1, 1);
    lemma_small_mod(s as nat, 0x100);
    lemma_wrap8_moves(s, 1);
    lemma_wrap8_moves(s, 2);
    lemma_wrap8_moves(wrap8(s - 1), 1);
    lemma_wrap8_sub(s - 1, 1);
    vstd::arithmetic::div_mod::lemma_fundamental_div_mod(cpu.pc as int, 0x100);
    assert((((p & !MASK_B) | MASK_U) & !MASK_B) & !MASK_U == (p & !MASK_B) & !MASK_U)
        by (bit_vector);
    assert(p & MASK_I == 0 ==> ((p & !MASK_B) & !MASK_U) & MASK_I == 0) by (bit_vector);
}

} // verus!
