use mos6502::instructions::lookup;
use mos6502::AddressingMode;
use mos6502::Instruction;
use mos6502::Operation;

#[test]
fn lookup_lda_immediate() {
    assert_eq!(
        lookup(0xA9),
        Instruction { op: Operation::Lda, mode: AddressingMode::Immediate, cycles: 2 }
    );
}

#[test]
fn lookup_brk() {
    assert_eq!(
        lookup(0x00),
        Instruction { op: Operation::Brk, mode: AddressingMode::Implied, cycles: 7 }
    );
}

#[test]
fn lookup_jmp_indirect() {
    assert_eq!(
        lookup(0x6C),
        Instruction { op: Operation::Jmp, mode: AddressingMode::Indirect, cycles: 5 }
    );
}

#[test]
fn lookup_sta_absolute_x_never_pays_penalty_in_table() {
    assert_eq!(
        lookup(0x9D),
        Instruction { op: Operation::Sta, mode: AddressingMode::AbsoluteX, cycles: 5 }
    );
}

#[test]
fn lookup_official_nop() {
    assert_eq!(
        lookup(0xEA),
        Instruction { op: Operation::Nop, mode: AddressingMode::Implied, cycles: 2 }
    );
}

#[test]
fn lookup_nop_absolute_x_variants() {
    for opcode in [0x1C, 0x3C, 0x5C, 0x7C, 0xDC, 0xFC] {
        assert_eq!(
            lookup(opcode),
            Instruction { op: Operation::Nop, mode: AddressingMode::AbsoluteX, cycles: 4 }
        );
    }
}

#[test]
fn lookup_illegal_opcode_is_two_cycle_xxx() {
    assert_eq!(
        lookup(0x02),
        Instruction { op: Operation::Xxx, mode: AddressingMode::Implied, cycles: 2 }
    );
}

#[test]
fn lookup_jsr_and_rts() {
    assert_eq!(
        lookup(0x20),
        Instruction { op: Operation::Jsr, mode: AddressingMode::Absolute, cycles: 6 }
    );
    assert_eq!(
        lookup(0x60),
        Instruction { op: Operation::Rts, mode: AddressingMode::Implied, cycles: 6 }
    );
}

#[test]
fn lookup_read_modify_write_rows() {
    assert_eq!(
        lookup(0xE6),
        Instruction { op: Operation::Inc, mode: AddressingMode::ZeroPage, cycles: 5 }
    );
    assert_eq!(
        lookup(0xDE),
        Instruction { op: Operation::Dec, mode: AddressingMode::AbsoluteX, cycles: 7 }
    );
}

#[test]
fn every_base_cycle_count_is_between_two_and_seven() {
    for opcode in 0..=0xFFu8 {
        let entry = lookup(opcode);
        assert!(entry.cycles >= 2 && entry.cycles <= 7);
    }
}

#[test]
fn ldx_uses_zero_page_y_not_x() {
    assert_eq!(
        lookup(0xB6),
        Instruction { op: Operation::Ldx, mode: AddressingMode::ZeroPageY, cycles: 4 }
    );
}
