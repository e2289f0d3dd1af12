use mos6502::Bus;
use mos6502::Cpu;
use mos6502::StatusFlags;

/// Load `program` at 0x8000, point the reset vector there, and reset the
/// CPU. The reset's eight cycles are left for the caller to drain.
fn setup(program: &[u8]) -> (Cpu, Bus) {
    let mut bus = Bus::new();
    for (i, byte) in program.iter().enumerate() {
        bus.write(0x8000 + i as u16, *byte);
    }
    bus.write(0xFFFC, 0x00);
    bus.write(0xFFFD, 0x80);
    let mut cpu = Cpu::new();
    cpu.reset(&bus);
    (cpu, bus)
}

/// Run exactly one full instruction: drain whatever cycles remain, then
/// clock through the next instruction until it retires. Returns how many
/// ticks the instruction itself took.
fn step_instruction(cpu: &mut Cpu, bus: &mut Bus) -> u32 {
    while cpu.cycles > 0 {
        cpu.clock(bus);
    }
    let mut ticks: u32 = 1;
    cpu.clock(bus);
    while cpu.cycles > 0 {
        cpu.clock(bus);
        ticks += 1;
    }
    ticks
}

fn run_instructions(cpu: &mut Cpu, bus: &mut Bus, n: u32) {
    for _ in 0..n {
        step_instruction(cpu, bus);
    }
}

#[test]
fn lda_immediate_loads_value() {
    let (mut cpu, mut bus) = setup(&[0xA9, 0x42]);
    run_instructions(&mut cpu, &mut bus, 1);
    assert_eq!(cpu.a, 0x42);
    assert!(!cpu.get_flag(StatusFlags::Zero));
    assert!(!cpu.get_flag(StatusFlags::Negative));
    assert_eq!(cpu.pc, 0x8002);
}

#[test]
fn lda_immediate_zero_sets_z() {
    let (mut cpu, mut bus) = setup(&[0xA9, 0x00]);
    run_instructions(&mut cpu, &mut bus, 1);
    assert_eq!(cpu.a, 0x00);
    assert!(cpu.get_flag(StatusFlags::Zero));
    assert!(!cpu.get_flag(StatusFlags::Negative));
}

#[test]
fn lda_immediate_negative_sets_n() {
    let (mut cpu, mut bus) = setup(&[0xA9, 0x80]);
    run_instructions(&mut cpu, &mut bus, 1);
    assert_eq!(cpu.a, 0x80);
    assert!(!cpu.get_flag(StatusFlags::Zero));
    assert!(cpu.get_flag(StatusFlags::Negative));
}

#[test]
fn ldx_then_dex() {
    let (mut cpu, mut bus) = setup(&[0xA2, 0x05, 0xCA]);
    run_instructions(&mut cpu, &mut bus, 2);
    assert_eq!(cpu.x, 4);
    assert!(!cpu.get_flag(StatusFlags::Zero));
    assert!(!cpu.get_flag(StatusFlags::Negative));
}

#[test]
fn clc_lda_adc() {
    let (mut cpu, mut bus) = setup(&[0x18, 0xA9, 0x01, 0x69, 0x01]);
    run_instructions(&mut cpu, &mut bus, 3);
    assert_eq!(cpu.a, 0x02);
    assert!(!cpu.get_flag(StatusFlags::Carry));
    assert!(!cpu.get_flag(StatusFlags::Overflow));
    assert!(!cpu.get_flag(StatusFlags::Zero));
    assert!(!cpu.get_flag(StatusFlags::Negative));
}

#[test]
fn adc_signed_overflow() {
    let (mut cpu, mut bus) = setup(&[0xA9, 0x7F, 0x69, 0x01]);
    run_instructions(&mut cpu, &mut bus, 2);
    assert_eq!(cpu.a, 0x80);
    assert!(cpu.get_flag(StatusFlags::Overflow));
    assert!(cpu.get_flag(StatusFlags::Negative));
    assert!(!cpu.get_flag(StatusFlags::Carry));
}

#[test]
fn adc_carry_out() {
    let (mut cpu, mut bus) = setup(&[0xA9, 0xFF, 0x69, 0x01]);
    run_instructions(&mut cpu, &mut bus, 2);
    assert_eq!(cpu.a, 0x00);
    assert!(cpu.get_flag(StatusFlags::Carry));
    assert!(cpu.get_flag(StatusFlags::Zero));
    assert!(!cpu.get_flag(StatusFlags::Overflow));
}

#[test]
fn pha_pla_round_trip() {
    let (mut cpu, mut bus) = setup(&[0xA9, 0x01, 0x48, 0xA9, 0x00, 0x68]);
    let sp0 = cpu.stkp;
    run_instructions(&mut cpu, &mut bus, 4);
    assert_eq!(cpu.a, 0x01);
    assert_eq!(cpu.stkp, sp0);
    assert!(!cpu.get_flag(StatusFlags::Zero));
}

#[test]
fn sec_sbc() {
    let (mut cpu, mut bus) = setup(&[0xA9, 0x05, 0x38, 0xE9, 0x03]);
    run_instructions(&mut cpu, &mut bus, 3);
    assert_eq!(cpu.a, 0x02);
    assert!(cpu.get_flag(StatusFlags::Carry));
    assert!(!cpu.get_flag(StatusFlags::Zero));
}

#[test]
fn cmp_equal_sets_z_and_c() {
    let (mut cpu, mut bus) = setup(&[0xA9, 0x05, 0xC9, 0x05]);
    run_instructions(&mut cpu, &mut bus, 2);
    assert!(cpu.get_flag(StatusFlags::Zero));
    assert!(cpu.get_flag(StatusFlags::Carry));
    assert_eq!(cpu.a, 0x05);
}

#[test]
fn cpx_greater() {
    let (mut cpu, mut bus) = setup(&[0xA2, 0x05, 0xE0, 0x03]);
    run_instructions(&mut cpu, &mut bus, 2);
    assert!(cpu.get_flag(StatusFlags::Carry));
    assert!(!cpu.get_flag(StatusFlags::Zero));
}

#[test]
fn logical_ops() {
    let (mut cpu, mut bus) = setup(&[0xA9, 0x0F, 0x29, 0x3C]);
    run_instructions(&mut cpu, &mut bus, 2);
    assert_eq!(cpu.a, 0x0C);
    let (mut cpu, mut bus) = setup(&[0xA9, 0x0F, 0x09, 0x30]);
    run_instructions(&mut cpu, &mut bus, 2);
    assert_eq!(cpu.a, 0x3F);
    let (mut cpu, mut bus) = setup(&[0xA9, 0x0F, 0x49, 0xFF]);
    run_instructions(&mut cpu, &mut bus, 2);
    assert_eq!(cpu.a, 0xF0);
    assert!(cpu.get_flag(StatusFlags::Negative));
}

#[test]
fn sta_writes_memory() {
    let (mut cpu, mut bus) = setup(&[0xA9, 0x42, 0x8D, 0x00, 0x02]);
    run_instructions(&mut cpu, &mut bus, 2);
    assert_eq!(bus.read(0x0200, true), 0x42);
}

#[test]
fn asl_accumulator_shifts_into_carry() {
    let (mut cpu, mut bus) = setup(&[0xA9, 0x81, 0x0A]);
    run_instructions(&mut cpu, &mut bus, 2);
    assert_eq!(cpu.a, 0x02);
    assert!(cpu.get_flag(StatusFlags::Carry));
}

#[test]
fn lsr_accumulator_to_zero() {
    let (mut cpu, mut bus) = setup(&[0xA9, 0x01, 0x4A]);
    run_instructions(&mut cpu, &mut bus, 2);
    assert_eq!(cpu.a, 0x00);
    assert!(cpu.get_flag(StatusFlags::Carry));
    assert!(cpu.get_flag(StatusFlags::Zero));
}

#[test]
fn rol_shifts_carry_in() {
    let (mut cpu, mut bus) = setup(&[0x38, 0xA9, 0x40, 0x2A]);
    run_instructions(&mut cpu, &mut bus, 3);
    assert_eq!(cpu.a, 0x81);
    assert!(!cpu.get_flag(StatusFlags::Carry));
}

#[test]
fn ror_shifts_carry_into_bit_seven() {
    let (mut cpu, mut bus) = setup(&[0x38, 0xA9, 0x02, 0x6A]);
    run_instructions(&mut cpu, &mut bus, 3);
    assert_eq!(cpu.a, 0x81);
    assert!(!cpu.get_flag(StatusFlags::Carry));
}

#[test]
fn inc_zero_page_wraps_to_zero() {
    let (mut cpu, mut bus) = setup(&[0xE6, 0x10]);
    bus.write(0x0010, 0xFF);
    run_instructions(&mut cpu, &mut bus, 1);
    assert_eq!(bus.read(0x0010, true), 0x00);
    assert!(cpu.get_flag(StatusFlags::Zero));
}

#[test]
fn bit_copies_operand_bits() {
    let (mut cpu, mut bus) = setup(&[0xA9, 0x0F, 0x2C, 0x00, 0x02]);
    bus.write(0x0200, 0xC0);
    run_instructions(&mut cpu, &mut bus, 2);
    assert!(cpu.get_flag(StatusFlags::Zero));
    assert!(cpu.get_flag(StatusFlags::Negative));
    assert!(cpu.get_flag(StatusFlags::Overflow));
}

#[test]
fn transfers() {
    let (mut cpu, mut bus) = setup(&[0xA9, 0x7F, 0xAA, 0xA8]);
    run_instructions(&mut cpu, &mut bus, 3);
    assert_eq!(cpu.x, 0x7F);
    assert_eq!(cpu.y, 0x7F);
    let (mut cpu, mut bus) = setup(&[0xA2, 0x10, 0x9A]);
    run_instructions(&mut cpu, &mut bus, 2);
    assert_eq!(cpu.stkp, 0x10);
}

#[test]
fn jsr_rts_round_trip() {
    let (mut cpu, mut bus) = setup(&[0x20, 0x05, 0x80]);
    bus.write(0x8005, 0x60);
    let sp0 = cpu.stkp;
    run_instructions(&mut cpu, &mut bus, 1);
    assert_eq!(cpu.pc, 0x8005);
    assert_eq!(cpu.stkp, sp0.wrapping_sub(2));
    run_instructions(&mut cpu, &mut bus, 1);
    assert_eq!(cpu.pc, 0x8003);
    assert_eq!(cpu.stkp, sp0);
}

#[test]
fn zero_page_x_wraps_within_page_zero() {
    let (mut cpu, mut bus) = setup(&[0xA2, 0x01, 0xB5, 0xFF]);
    bus.write(0x0000, 0x77);
    run_instructions(&mut cpu, &mut bus, 2);
    assert_eq!(cpu.a, 0x77);
}

#[test]
fn indirect_x_reads_through_zero_page_pointer() {
    let (mut cpu, mut bus) = setup(&[0xA2, 0x04, 0xA1, 0x10]);
    bus.write(0x0014, 0x00);
    bus.write(0x0015, 0x02);
    bus.write(0x0200, 0x5A);
    run_instructions(&mut cpu, &mut bus, 2);
    assert_eq!(cpu.a, 0x5A);
}

#[test]
fn indirect_y_adds_y_after_pointer() {
    let (mut cpu, mut bus) = setup(&[0xA0, 0x01, 0xB1, 0x10]);
    bus.write(0x0010, 0xFF);
    bus.write(0x0011, 0x01);
    bus.write(0x0200, 0x66);
    run_instructions(&mut cpu, &mut bus, 1);
    let ticks = step_instruction(&mut cpu, &mut bus);
    assert_eq!(cpu.a, 0x66);
    assert_eq!(ticks, 6);
}

#[test]
fn jmp_indirect_page_wrap_quirk() {
    let (mut cpu, mut bus) = setup(&[0x6C, 0xFF, 0x02]);
    bus.write(0x02FF, 0x34);
    bus.write(0x0200, 0x12);
    bus.write(0x0300, 0xAB);
    run_instructions(&mut cpu, &mut bus, 1);
    assert_eq!(cpu.pc, 0x1234);
}

#[test]
fn illegal_opcode_is_a_two_cycle_no_op() {
    let (mut cpu, mut bus) = setup(&[0x02, 0xA9, 0x42]);
    let a0 = cpu.a;
    let ticks = step_instruction(&mut cpu, &mut bus);
    assert_eq!(ticks, 2);
    assert_eq!(cpu.a, a0);
    assert_eq!(cpu.pc, 0x8001);
    run_instructions(&mut cpu, &mut bus, 1);
    assert_eq!(cpu.a, 0x42);
}
