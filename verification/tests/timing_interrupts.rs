use mos6502::Bus;
use mos6502::Cpu;
use mos6502::StatusFlags;

fn setup(program: &[u8]) -> (Cpu, Bus) {
    let mut bus = Bus::new();
    for (i, byte) in program.iter().enumerate() {
        bus.write(0x8000 + i as u16, *byte);
    }
    bus.write(0xFFFC, 0x00);
    bus.write(0xFFFD, 0x80);
    let mut cpu = Cpu::new();
    cpu.reset(&bus);
    (cpu, bus)
}

fn step_instruction(cpu: &mut Cpu, bus: &mut Bus) -> u32 {
    while cpu.cycles > 0 {
        cpu.clock(bus);
    }
    let mut ticks: u32 = 1;
    cpu.clock(bus);
    while cpu.cycles > 0 {
        cpu.clock(bus);
        ticks += 1;
    }
    ticks
}

fn run_instructions(cpu: &mut Cpu, bus: &mut Bus, n: u32) {
    for _ in 0..n {
        step_instruction(cpu, bus);
    }
}

fn snapshot(cpu: &Cpu) -> (u8, u8, u8, u8, u16, u8, u8) {
    (cpu.a, cpu.x, cpu.y, cpu.stkp, cpu.pc, cpu.status, cpu.cycles)
}

#[test]
fn reset_burns_eight_cycles_and_loads_the_vector() {
    let (cpu, _bus) = setup(&[0xEA]);
    assert_eq!(cpu.cycles, 8);
    assert_eq!(cpu.pc, 0x8000);
    assert_eq!(cpu.stkp, 0xFD);
    assert_eq!(cpu.a, 0);
    assert_eq!(cpu.x, 0);
    assert_eq!(cpu.y, 0);
    assert!(cpu.get_flag(StatusFlags::Unused));
    assert!(!cpu.get_flag(StatusFlags::InterruptDisable));
}

#[test]
fn reset_twice_with_drain_is_idempotent() {
    let (mut cpu, mut bus) = setup(&[0xA9, 0x42, 0xAA]);
    while cpu.cycles > 0 {
        cpu.clock(&mut bus);
    }
    cpu.reset(&bus);
    while cpu.cycles > 0 {
        cpu.clock(&mut bus);
    }
    let first = snapshot(&cpu);
    cpu.reset(&bus);
    while cpu.cycles > 0 {
        cpu.clock(&mut bus);
    }
    assert_eq!(snapshot(&cpu), first);
}

#[test]
fn lda_immediate_takes_two_cycles() {
    let (mut cpu, mut bus) = setup(&[0xA9, 0x42]);
    assert_eq!(step_instruction(&mut cpu, &mut bus), 2);
}

#[test]
fn lda_absolute_x_pays_the_page_cross_penalty() {
    let (mut cpu, mut bus) = setup(&[0xA2, 0x01, 0xBD, 0xFF, 0x80]);
    run_instructions(&mut cpu, &mut bus, 1);
    assert_eq!(step_instruction(&mut cpu, &mut bus), 5);
    let (mut cpu, mut bus) = setup(&[0xA2, 0x01, 0xBD, 0x00, 0x80]);
    run_instructions(&mut cpu, &mut bus, 1);
    assert_eq!(step_instruction(&mut cpu, &mut bus), 4);
}

#[test]
fn sta_absolute_x_never_pays_the_penalty() {
    let (mut cpu, mut bus) = setup(&[0xA2, 0x01, 0x9D, 0xFF, 0x80]);
    run_instructions(&mut cpu, &mut bus, 1);
    assert_eq!(step_instruction(&mut cpu, &mut bus), 5);
}

#[test]
fn branch_cycle_penalties() {
    // Not taken: two cycles.
    let (mut cpu, mut bus) = setup(&[0xA9, 0x00, 0xD0, 0x02]);
    run_instructions(&mut cpu, &mut bus, 1);
    assert_eq!(step_instruction(&mut cpu, &mut bus), 2);
    // Taken within the page: three cycles.
    let (mut cpu, mut bus) = setup(&[0xA9, 0x01, 0xD0, 0x02]);
    run_instructions(&mut cpu, &mut bus, 1);
    assert_eq!(step_instruction(&mut cpu, &mut bus), 3);
    assert_eq!(cpu.pc, 0x8006);
    // Taken across a page: four cycles.
    let (mut cpu, mut bus) = setup(&[0xA9, 0x01, 0xD0, 0xFB]);
    run_instructions(&mut cpu, &mut bus, 1);
    assert_eq!(step_instruction(&mut cpu, &mut bus), 4);
    assert_eq!(cpu.pc, 0x7FFF);
}

#[test]
fn nop_absolute_x_variant_pays_the_penalty() {
    let (mut cpu, mut bus) = setup(&[0xA2, 0x01, 0x1C, 0xFF, 0x80]);
    run_instructions(&mut cpu, &mut bus, 1);
    assert_eq!(step_instruction(&mut cpu, &mut bus), 5);
}

#[test]
fn irq_with_interrupts_disabled_changes_nothing() {
    let (mut cpu, mut bus) = setup(&[0x78]);
    run_instructions(&mut cpu, &mut bus, 1);
    assert!(cpu.get_flag(StatusFlags::InterruptDisable));
    let before = snapshot(&cpu);
    let probe = bus.read(0x0100 + cpu.stkp as u16, true);
    cpu.irq(&mut bus);
    assert_eq!(snapshot(&cpu), before);
    assert_eq!(bus.read(0x0100 + cpu.stkp as u16, true), probe);
}

#[test]
fn irq_pushes_state_and_jumps_through_the_vector() {
    let (mut cpu, mut bus) = setup(&[0xEA]);
    bus.write(0xFFFE, 0x00);
    bus.write(0xFFFF, 0x90);
    run_instructions(&mut cpu, &mut bus, 1);
    let sp0 = cpu.stkp;
    let pc0 = cpu.pc;
    cpu.irq(&mut bus);
    assert_eq!(cpu.pc, 0x9000);
    assert_eq!(cpu.cycles, 7);
    assert!(cpu.get_flag(StatusFlags::InterruptDisable));
    assert_eq!(cpu.stkp, sp0.wrapping_sub(3));
    assert_eq!(bus.read(0x0100 + sp0 as u16, true), (pc0 >> 8) as u8);
    assert_eq!(
        bus.read(0x0100 + sp0.wrapping_sub(1) as u16, true),
        (pc0 & 0xFF) as u8
    );
    let pushed = bus.read(0x0100 + sp0.wrapping_sub(2) as u16, true);
    assert_eq!(pushed & 0x20, 0x20);
    assert_eq!(pushed & 0x10, 0x00);
    assert_eq!(pushed & 0x04, 0x00);
}

#[test]
fn rti_after_irq_restores_the_interrupt_flag() {
    let (mut cpu, mut bus) = setup(&[0xEA]);
    bus.write(0xFFFE, 0x00);
    bus.write(0xFFFF, 0x90);
    bus.write(0x9000, 0x40);
    run_instructions(&mut cpu, &mut bus, 1);
    assert!(!cpu.get_flag(StatusFlags::InterruptDisable));
    cpu.irq(&mut bus);
    assert!(cpu.get_flag(StatusFlags::InterruptDisable));
    run_instructions(&mut cpu, &mut bus, 1);
    assert_eq!(cpu.pc, 0x8001);
    assert!(!cpu.get_flag(StatusFlags::InterruptDisable));
}

#[test]
fn nmi_is_unconditional_and_uses_its_own_vector() {
    let (mut cpu, mut bus) = setup(&[0x78]);
    bus.write(0xFFFA, 0x00);
    bus.write(0xFFFB, 0xA0);
    run_instructions(&mut cpu, &mut bus, 1);
    assert!(cpu.get_flag(StatusFlags::InterruptDisable));
    let sp0 = cpu.stkp;
    cpu.nmi(&mut bus);
    assert_eq!(cpu.pc, 0xA000);
    assert_eq!(cpu.cycles, 8);
    assert_eq!(cpu.stkp, sp0.wrapping_sub(3));
    let pushed = bus.read(0x0100 + sp0.wrapping_sub(2) as u16, true);
    assert_eq!(pushed & 0x20, 0x20);
}

#[test]
fn php_pushes_break_and_unused_set() {
    let (mut cpu, mut bus) = setup(&[0x08]);
    let sp0 = cpu.stkp;
    run_instructions(&mut cpu, &mut bus, 1);
    let pushed = bus.read(0x0100 + sp0 as u16, true);
    assert_eq!(pushed & 0x30, 0x30);
    assert!(!cpu.get_flag(StatusFlags::Break));
}

#[test]
fn brk_pushes_state_sets_i_and_jumps() {
    let (mut cpu, mut bus) = setup(&[0x00]);
    bus.write(0xFFFE, 0x00);
    bus.write(0xFFFF, 0x90);
    let sp0 = cpu.stkp;
    run_instructions(&mut cpu, &mut bus, 1);
    assert_eq!(cpu.pc, 0x9000);
    assert!(cpu.get_flag(StatusFlags::InterruptDisable));
    assert!(!cpu.get_flag(StatusFlags::Break));
    assert_eq!(cpu.stkp, sp0.wrapping_sub(3));
    assert_eq!(bus.read(0x0100 + sp0 as u16, true), 0x80);
    assert_eq!(bus.read(0x0100 + sp0.wrapping_sub(1) as u16, true), 0x02);
    let pushed = bus.read(0x0100 + sp0.wrapping_sub(2) as u16, true);
    assert_eq!(pushed & 0x20, 0x20);
    assert_eq!(pushed & 0x10, 0x10);
}

#[test]
fn rti_restores_the_interrupted_state() {
    let (mut cpu, mut bus) = setup(&[0x00]);
    bus.write(0xFFFE, 0x00);
    bus.write(0xFFFF, 0x90);
    bus.write(0x9000, 0x40);
    run_instructions(&mut cpu, &mut bus, 2);
    assert_eq!(cpu.pc, 0x8002);
}

#[test]
fn stack_wraps_through_page_one() {
    let mut program = Vec::new();
    program.push(0xA9);
    program.push(0x42);
    for _ in 0..256 {
        program.push(0x48);
    }
    for _ in 0..256 {
        program.push(0x68);
    }
    let (mut cpu, mut bus) = setup(&program);
    run_instructions(&mut cpu, &mut bus, 1);
    let sp0 = cpu.stkp;
    run_instructions(&mut cpu, &mut bus, 512);
    assert_eq!(cpu.stkp, sp0);
    assert_eq!(cpu.a, 0x42);
}

#[test]
fn determinism_two_identical_machines_stay_identical() {
    let (mut cpu1, mut bus1) = setup(&[0xA9, 0x42, 0x48, 0xA2, 0x05, 0xCA, 0xD0, 0xFD]);
    let (mut cpu2, mut bus2) = setup(&[0xA9, 0x42, 0x48, 0xA2, 0x05, 0xCA, 0xD0, 0xFD]);
    for _ in 0..200 {
        cpu1.clock(&mut bus1);
        cpu2.clock(&mut bus2);
        assert_eq!(snapshot(&cpu1), snapshot(&cpu2));
    }
    for addr in 0x0100..0x0200u16 {
        assert_eq!(bus1.read(addr, true), bus2.read(addr, true));
    }
}

#[test]
fn set_flag_and_get_flag_round_trip() {
    let mut cpu = Cpu::new();
    cpu.set_flag(StatusFlags::Carry, false);
    assert!(!cpu.get_flag(StatusFlags::Carry));
    cpu.set_flag(StatusFlags::Carry, true);
    assert!(cpu.get_flag(StatusFlags::Carry));
    cpu.set_flag(StatusFlags::DecimalMode, false);
    cpu.set_flag(StatusFlags::Overflow, false);
    assert!(!cpu.get_flag(StatusFlags::DecimalMode));
    assert!(!cpu.get_flag(StatusFlags::Overflow));
    assert!(cpu.get_flag(StatusFlags::Carry));
}

#[test]
fn bus_starts_cleared_and_stores_bytes() {
    let mut bus = Bus::new();
    assert_eq!(bus.read(0x0000, true), 0);
    assert_eq!(bus.read(0xFFFF, true), 0);
    bus.write(0x1234, 0xAB);
    assert_eq!(bus.read(0x1234, true), 0xAB);
    assert_eq!(bus.read(0x1235, true), 0x00);
}
