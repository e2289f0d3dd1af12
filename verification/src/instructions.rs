//! The fixed 256-entry dispatch table of the 6502, indexed by opcode byte.
//!
//! Each entry binds an opcode to its operation, its addressing mode and its
//! base cycle count, following the canonical MOS 6502 opcode map. Unused
//! encodings execute as [`Operation::Xxx`] (a no-operation) in two cycles,
//! except the six "NOP absolute,X" variants, which keep their four-cycle
//! cost and stay eligible for the page-cross penalty.

use vstd::prelude::*;
use crate::cpu::AddressingMode;

verus! {

/// The fifty-six documented 6502 mnemonics, plus `Xxx` for every encoding
/// the table leaves undocumented.
#[derive(Clone, Copy, PartialEq, Eq, Structural, Debug)]
pub enum Operation {
    Adc, And, Asl, Bcc, Bcs, Beq, Bit, Bmi, Bne, Bpl, Brk, Bvc, Bvs, Clc,
    Cld, Cli, Clv, Cmp, Cpx, Cpy, Dec, Dex, Dey, Eor, Inc, Inx, Iny, Jmp,
    Jsr, Lda, Ldx, Ldy, Lsr, Nop, Ora, Pha, Php, Pla, Plp, Rol, Ror, Rti,
    Rts, Sbc, Sec, Sed, Sei, Sta, Stx, Sty, Tax, Tay, Tsx, Txa, Txs, Tya,
    Xxx,
}

/// One row of the dispatch table: what an opcode does, how its operand is
/// addressed, and how many cycles it costs before any penalty.
#[derive(Clone, Copy, PartialEq, Eq, Structural, Debug)]
pub struct Instruction {
    pub op: Operation,
    pub mode: AddressingMode,
    pub cycles: u8,
}

/// The dispatch table as a mathematical function of the opcode byte.
pub open spec fn instruction_at(opcode: u8) -> Instruction {
    match opcode {
        0x00 => Instruction { op: Operation::Brk, mode: AddressingMode::Implied, cycles: 7 },
        0x01 => Instruction { op: Operation::Ora, mode: AddressingMode::IndirectX, cycles: 6 },
        0x02 => Instruction { op: Operation::Xxx, mode: AddressingMode::Implied, cycles: 2 },
        0x03 => Instruction { op: Operation::Xxx, mode: AddressingMode::Implied, cycles: 2 },
        0x04 => Instruction { op: Operation::Xxx, mode: AddressingMode::Implied, cycles: 2 },
        0x05 => Instruction { op: Operation::Ora, mode: AddressingMode::ZeroPage, cycles: 3 },
        0x06 => Instruction { op: Operation::Asl, mode: AddressingMode::ZeroPage, cycles: 5 },
        0x07 => Instruction { op: Operation::Xxx, mode: AddressingMode::Implied, cycles: 2 },
        0x08 => Instruction { op: Operation::Php, mode: AddressingMode::Implied, cycles: 3 },
        0x09 => Instruction { op: Operation::Ora, mode: AddressingMode::Immediate, cycles: 2 },
        0x0A => Instruction { op: Operation::Asl, mode: AddressingMode::Implied, cycles: 2 },
        0x0B => Instruction { op: Operation::Xxx, mode: AddressingMode::Implied, cycles: 2 },
        0x0C => Instruction { op: Operation::Xxx, mode: AddressingMode::Implied, cycles: 2 },
        0x0D => Instruction { op: Operation::Ora, mode: AddressingMode::Absolute, cycles: 4 },
        0x0E => Instruction { op: Operation::Asl, mode: AddressingMode::Absolute, cycles: 6 },
        0x0F => Instruction { op: Operation::Xxx, mode: AddressingMode::Implied, cycles: 2 },
        0x10 => Instruction { op: Operation::Bpl, mode: AddressingMode::Relative, cycles: 2 },
        0x11 => Instruction { op: Operation::Ora, mode: AddressingMode::IndirectY, cycles: 5 },
        0x12 => Instruction { op: Operation::Xxx, mode: AddressingMode::Implied, cycles: 2 },
        0x13 => Instruction { op: Operation::Xxx, mode: AddressingMode::Implied, cycles: 2 },
        0x14 => Instruction { op: Operation::Xxx, mode: AddressingMode::Implied, cycles: 2 },
        0x15 => Instruction { op: Operation::Ora, mode: AddressingMode::ZeroPageX, cycles: 4 },
        0x16 => Instruction { op: Operation::Asl, mode: AddressingMode::ZeroPageX, cycles: 6 },
        0x17 => Instruction { op: Operation::Xxx, mode: AddressingMode::Implied, cycles: 2 },
        0x18 => Instruction { op: Operation::Clc, mode: AddressingMode::Implied, cycles: 2 },
        0x19 => Instruction { op: Operation::Ora, mode: AddressingMode::AbsoluteY, cycles: 4 },
        0x1A => Instruction { op: Operation::Xxx, mode: AddressingMode::Implied, cycles: 2 },
        0x1B => Instruction { op: Operation::Xxx, mode: AddressingMode::Implied, cycles: 2 },
        0x1C => Instruction { op: Operation::Nop, mode: AddressingMode::AbsoluteX, cycles: 4 },
        0x1D => Instruction { op: Operation::Ora, mode: AddressingMode::AbsoluteX, cycles: 4 },
        0x1E => Instruction { op: Operation::Asl, mode: AddressingMode::AbsoluteX, cycles: 7 },
        0x1F => Instruction { op: Operation::Xxx, mode: AddressingMode::Implied, cycles: 2 },
        0x20 => Instruction { op: Operation::Jsr, mode: AddressingMode::Absolute, cycles: 6 },
        0x21 => Instruction { op: Operation::And, mode: AddressingMode::IndirectX, cycles: 6 },
        0x22 => Instruction { op: Operation::Xxx, mode: AddressingMode::Implied, cycles: 2 },
        0x23 => Instruction { op: Operation::Xxx, mode: AddressingMode::Implied, cycles: 2 },
        0x24 => Instruction { op: Operation::Bit, mode: AddressingMode::ZeroPage, cycles: 3 },
        0x25 => Instruction { op: Operation::And, mode: AddressingMode::ZeroPage, cycles: 3 },
        0x26 => Instruction { op: Operation::Rol, mode: AddressingMode::ZeroPage, cycles: 5 },
        0x27 => Instruction { op: Operation::Xxx, mode: AddressingMode::Implied, cycles: 2 },
        0x28 => Instruction { op: Operation::Plp, mode: AddressingMode::Implied, cycles: 4 },
        0x29 => Instruction { op: Operation::And, mode: AddressingMode::Immediate, cycles: 2 },
        0x2A => Instruction { op: Operation::Rol, mode: AddressingMode::Implied, cycles: 2 },
        0x2B => Instruction { op: Operation::Xxx, mode: AddressingMode::Implied, cycles: 2 },
        0x2C => Instruction { op: Operation::Bit, mode: AddressingMode::Absolute, cycles: 4 },
        0x2D => Instruction { op: Operation::And, mode: AddressingMode::Absolute, cycles: 4 },
        0x2E => Instruction { op: Operation::Rol, mode: AddressingMode::Absolute, cycles: 6 },
        0x2F => Instruction { op: Operation::Xxx, mode: AddressingMode::Implied, cycles: 2 },
        0x30 => Instruction { op: Operation::Bmi, mode: AddressingMode::Relative, cycles: 2 },
        0x31 => Instruction { op: Operation::And, mode: AddressingMode::IndirectY, cycles: 5 },
        0x32 => Instruction { op: Operation::Xxx, mode: AddressingMode::Implied, cycles: 2 },
        0x33 => Instruction { op: Operation::Xxx, mode: AddressingMode::Implied, cycles: 2 },
        0x34 => Instruction { op: Operation::Xxx, mode: AddressingMode::Implied, cycles: 2 },
        0x35 => Instruction { op: Operation::And, mode: AddressingMode::ZeroPageX, cycles: 4 },
        0x36 => Instruction { op: Operation::Rol, mode: AddressingMode::ZeroPageX, cycles: 6 },
        0x37 => Instruction { op: Operation::Xxx, mode: AddressingMode::Implied, cycles: 2 },
        0x38 => Instruction { op: Operation::Sec, mode: AddressingMode::Implied, cycles: 2 },
        0x39 => Instruction { op: Operation::And, mode: AddressingMode::AbsoluteY, cycles: 4 },
        0x3A => Instruction { op: Operation::Xxx, mode: AddressingMode::Implied, cycles: 2 },
        0x3B => Instruction { op: Operation::Xxx, mode: AddressingMode::Implied, cycles: 2 },
        0x3C => Instruction { op: Operation::Nop, mode: AddressingMode::AbsoluteX, cycles: 4 },
        0x3D => Instruction { op: Operation::And, mode: AddressingMode::AbsoluteX, cycles: 4 },
        0x3E => Instruction { op: Operation::Rol, mode: AddressingMode::AbsoluteX, cycles: 7 },
        0x3F => Instruction { op: Operation::Xxx, mode: AddressingMode::Implied, cycles: 2 },
        0x40 => Instruction { op: Operation::Rti, mode: AddressingMode::Implied, cycles: 6 },
        0x41 => Instruction { op: Operation::Eor, mode: AddressingMode::IndirectX, cycles: 6 },
        0x42 => Instruction { op: Operation::Xxx, mode: AddressingMode::Implied, cycles: 2 },
        0x43 => Instruction { op: Operation::Xxx, mode: AddressingMode::Implied, cycles: 2 },
        0x44 => Instruction { op: Operation::Xxx, mode: AddressingMode::Implied, cycles: 2 },
        0x45 => Instruction { op: Operation::Eor, mode: AddressingMode::ZeroPage, cycles: 3 },
        0x46 => Instruction { op: Operation::Lsr, mode: AddressingMode::ZeroPage, cycles: 5 },
        0x47 => Instruction { op: Operation::Xxx, mode: AddressingMode::Implied, cycles: 2 },
        0x48 => Instruction { op: Operation::Pha, mode: AddressingMode::Implied, cycles: 3 },
        0x49 => Instruction { op: Operation::Eor, mode: AddressingMode::Immediate, cycles: 2 },
        0x4A => Instruction { op: Operation::Lsr, mode: AddressingMode::Implied, cycles: 2 },
        0x4B => Instruction { op: Operation::Xxx, mode: AddressingMode::Implied, cycles: 2 },
        0x4C => Instruction { op: Operation::Jmp, mode: AddressingMode::Absolute, cycles: 3 },
        0x4D => Instruction { op: Operation::Eor, mode: AddressingMode::Absolute, cycles: 4 },
        0x4E => Instruction { op: Operation::Lsr, mode: AddressingMode::Absolute, cycles: 6 },
        0x4F => Instruction { op: Operation::Xxx, mode: AddressingMode::Implied, cycles: 2 },
        0x50 => Instruction { op: Operation::Bvc, mode: AddressingMode::Relative, cycles: 2 },
        0x51 => Instruction { op: Operation::Eor, mode: AddressingMode::IndirectY, cycles: 5 },
        0x52 => Instruction { op: Operation::Xxx, mode: AddressingMode::Implied, cycles: 2 },
        0x53 => Instruction { op: Operation::Xxx, mode: AddressingMode::Implied, cycles: 2 },
        0x54 => Instruction { op: Operation::Xxx, mode: AddressingMode::Implied, cycles: 2 },
        0x55 => Instruction { op: Operation::Eor, mode: AddressingMode::ZeroPageX, cycles: 4 },
        0x56 => Instruction { op: Operation::Lsr, mode: AddressingMode::ZeroPageX, cycles: 6 },
        0x57 => Instruction { op: Operation::Xxx, mode: AddressingMode::Implied, cycles: 2 },
        0x58 => Instruction { op: Operation::Cli, mode: AddressingMode::Implied, cycles: 2 },
        0x59 => Instruction { op: Operation::Eor, mode: AddressingMode::AbsoluteY, cycles: 4 },
        0x5A => Instruction { op: Operation::Xxx, mode: AddressingMode::Implied, cycles: 2 },
        0x5B => Instruction { op: Operation::Xxx, mode: AddressingMode::Implied, cycles: 2 },
        0x5C => Instruction { op: Operation::Nop, mode: AddressingMode::AbsoluteX, cycles: 4 },
        0x5D => Instruction { op: Operation::Eor, mode: AddressingMode::AbsoluteX, cycles: 4 },
        0x5E => Instruction { op: Operation::Lsr, mode: AddressingMode::AbsoluteX, cycles: 7 },
        0x5F => Instruction { op: Operation::Xxx, mode: AddressingMode::Implied, cycles: 2 },
        0x60 => Instruction { op: Operation::Rts, mode: AddressingMode::Implied, cycles: 6 },
        0x61 => Instruction { op: Operation::Adc, mode: AddressingMode::IndirectX, cycles: 6 },
        0x62 => Instruction { op: Operation::Xxx, mode: AddressingMode::Implied, cycles: 2 },
        0x63 => Instruction { op: Operation::Xxx, mode: AddressingMode::Implied, cycles: 2 },
        0x64 => Instruction { op: Operation::Xxx, mode: AddressingMode::Implied, cycles: 2 },
        0x65 => Instruction { op: Operation::Adc, mode: AddressingMode::ZeroPage, cycles: 3 },
        0x66 => Instruction { op: Operation::Ror, mode: AddressingMode::ZeroPage, cycles: 5 },
        0x67 => Instruction { op: Operation::Xxx, mode: AddressingMode::Implied, cycles: 2 },
        0x68 => Instruction { op: Operation::Pla, mode: AddressingMode::Implied, cycles: 4 },
        0x69 => Instruction { op: Operation::Adc, mode: AddressingMode::Immediate, cycles: 2 },
        0x6A => Instruction { op: Operation::Ror, mode: AddressingMode::Implied, cycles: 2 },
        0x6B => Instruction { op: Operation::Xxx, mode: AddressingMode::Implied, cycles: 2 },
        0x6C => Instruction { op: Operation::Jmp, mode: AddressingMode::Indirect, cycles: 5 },
        0x6D => Instruction { op: Operation::Adc, mode: AddressingMode::Absolute, cycles: 4 },
        0x6E => Instruction { op: Operation::Ror, mode: AddressingMode::Absolute, cycles: 6 },
        0x6F => Instruction { op: Operation::Xxx, mode: AddressingMode::Implied, cycles: 2 },
        0x70 => Instruction { op: Operation::Bvs, mode: AddressingMode::Relative, cycles: 2 },
        0x71 => Instruction { op: Operation::Adc, mode: AddressingMode::IndirectY, cycles: 5 },
        0x72 => Instruction { op: Operation::Xxx, mode: AddressingMode::Implied, cycles: 2 },
        0x73 => Instruction { op: Operation::Xxx, mode: AddressingMode::Implied, cycles: 2 },
        0x74 => Instruction { op: Operation::Xxx, mode: AddressingMode::Implied, cycles: 2 },
        0x75 => Instruction { op: Operation::Adc, mode: AddressingMode::ZeroPageX, cycles: 4 },
        0x76 => Instruction { op: Operation::Ror, mode: AddressingMode::ZeroPageX, cycles: 6 },
        0x77 => Instruction { op: Operation::Xxx, mode: AddressingMode::Implied, cycles: 2 },
        0x78 => Instruction { op: Operation::Sei, mode: AddressingMode::Implied, cycles: 2 },
        0x79 => Instruction { op: Operation::Adc, mode: AddressingMode::AbsoluteY, cycles: 4 },
        0x7A => Instruction { op: Operation::Xxx, mode: AddressingMode::Implied, cycles: 2 },
        0x7B => Instruction { op: Operation::Xxx, mode: AddressingMode::Implied, cycles: 2 },
        0x7C => Instruction { op: Operation::Nop, mode: AddressingMode::AbsoluteX, cycles: 4 },
        0x7D => Instruction { op: Operation::Adc, mode: AddressingMode::AbsoluteX, cycles: 4 },
        0x7E => Instruction { op: Operation::Ror, mode: AddressingMode::AbsoluteX, cycles: 7 },
        0x7F => Instruction { op: Operation::Xxx, mode: AddressingMode::Implied, cycles: 2 },
        0x80 => Instruction { op: Operation::Xxx, mode: AddressingMode::Implied, cycles: 2 },
        0x81 => Instruction { op: Operation::Sta, mode: AddressingMode::IndirectX, cycles: 6 },
        0x82 => Instruction { op: Operation::Xxx, mode: AddressingMode::Implied, cycles: 2 },
        0x83 => Instruction { op: Operation::Xxx, mode: AddressingMode::Implied, cycles: 2 },
        0x84 => Instruction { op: Operation::Sty, mode: AddressingMode::ZeroPage, cycles: 3 },
        0x85 => Instruction { op: Operation::Sta, mode: AddressingMode::ZeroPage, cycles: 3 },
        0x86 => Instruction { op: Operation::Stx, mode: AddressingMode::ZeroPage, cycles: 3 },
        0x87 => Instruction { op: Operation::Xxx, mode: AddressingMode::Implied, cycles: 2 },
        0x88 => Instruction { op: Operation::Dey, mode: AddressingMode::Implied, cycles: 2 },
        0x89 => Instruction { op: Operation::Xxx, mode: AddressingMode::Implied, cycles: 2 },
        0x8A => Instruction { op: Operation::Txa, mode: AddressingMode::Implied, cycles: 2 },
        0x8B => Instruction { op: Operation::Xxx, mode: AddressingMode::Implied, cycles: 2 },
        0x8C => Instruction { op: Operation::Sty, mode: AddressingMode::Absolute, cycles: 4 },
        0x8D => Instruction { op: Operation::Sta, mode: AddressingMode::Absolute, cycles: 4 },
        0x8E => Instruction { op: Operation::Stx, mode: AddressingMode::Absolute, cycles: 4 },
        0x8F => Instruction { op: Operation::Xxx, mode: AddressingMode::Implied, cycles: 2 },
        0x90 => Instruction { op: Operation::Bcc, mode: AddressingMode::Relative, cycles: 2 },
        0x91 => Instruction { op: Operation::Sta, mode: AddressingMode::IndirectY, cycles: 6 },
        0x92 => Instruction { op: Operation::Xxx, mode: AddressingMode::Implied, cycles: 2 },
        0x93 => Instruction { op: Operation::Xxx, mode: AddressingMode::Implied, cycles: 2 },
        0x94 => Instruction { op: Operation::Sty, mode: AddressingMode::ZeroPageX, cycles: 4 },
        0x95 => Instruction { op: Operation::Sta, mode: AddressingMode::ZeroPageX, cycles: 4 },
        0x96 => Instruction { op: Operation::Stx, mode: AddressingMode::ZeroPageY, cycles: 4 },
        0x97 => Instruction { op: Operation::Xxx, mode: AddressingMode::Implied, cycles: 2 },
        0x98 => Instruction { op: Operation::Tya, mode: AddressingMode::Implied, cycles: 2 },
        0x99 => Instruction { op: Operation::Sta, mode: AddressingMode::AbsoluteY, cycles: 5 },
        0x9A => Instruction { op: Operation::Txs, mode: AddressingMode::Implied, cycles: 2 },
        0x9B => Instruction { op: Operation::Xxx, mode: AddressingMode::Implied, cycles: 2 },
        0x9C => Instruction { op: Operation::Xxx, mode: AddressingMode::Implied, cycles: 2 },
        0x9D => Instruction { op: Operation::Sta, mode: AddressingMode::AbsoluteX, cycles: 5 },
        0x9E => Instruction { op: Operation::Xxx, mode: AddressingMode::Implied, cycles: 2 },
        0x9F => Instruction { op: Operation::Xxx, mode: AddressingMode::Implied, cycles: 2 },
        0xA0 => Instruction { op: Operation::Ldy, mode: AddressingMode::Immediate, cycles: 2 },
        0xA1 => Instruction { op: Operation::Lda, mode: AddressingMode::IndirectX, cycles: 6 },
        0xA2 => Instruction { op: Operation::Ldx, mode: AddressingMode::Immediate, cycles: 2 },
        0xA3 => Instruction { op: Operation::Xxx, mode: AddressingMode::Implied, cycles: 2 },
        0xA4 => Instruction { op: Operation::Ldy, mode: AddressingMode::ZeroPage, cycles: 3 },
        0xA5 => Instruction { op: Operation::Lda, mode: AddressingMode::ZeroPage, cycles: 3 },
        0xA6 => Instruction { op: Operation::Ldx, mode: AddressingMode::ZeroPage, cycles: 3 },
        0xA7 => Instruction { op: Operation::Xxx, mode: AddressingMode::Implied, cycles: 2 },
        0xA8 => Instruction { op: Operation::Tay, mode: AddressingMode::Implied, cycles: 2 },
        0xA9 => Instruction { op: Operation::Lda, mode: AddressingMode::Immediate, cycles: 2 },
        0xAA => Instruction { op: Operation::Tax, mode: AddressingMode::Implied, cycles: 2 },
        0xAB => Instruction { op: Operation::Xxx, mode: AddressingMode::Implied, cycles: 2 },
        0xAC => Instruction { op: Operation::Ldy, mode: AddressingMode::Absolute, cycles: 4 },
        0xAD => Instruction { op: Operation::Lda, mode: AddressingMode::Absolute, cycles: 4 },
        0xAE => Instruction { op: Operation::Ldx, mode: AddressingMode::Absolute, cycles: 4 },
        0xAF => Instruction { op: Operation::Xxx, mode: AddressingMode::Implied, cycles: 2 },
        0xB0 => Instruction { op: Operation::Bcs, mode: AddressingMode::Relative, cycles: 2 },
        0xB1 => Instruction { op: Operation::Lda, mode: AddressingMode::IndirectY, cycles: 5 },
        0xB2 => Instruction { op: Operation::Xxx, mode: AddressingMode::Implied, cycles: 2 },
        0xB3 => Instruction { op: Operation::Xxx, mode: AddressingMode::Implied, cycles: 2 },
        0xB4 => Instruction { op: Operation::Ldy, mode: AddressingMode::ZeroPageX, cycles: 4 },
        0xB5 => Instruction { op: Operation::Lda, mode: AddressingMode::ZeroPageX, cycles: 4 },
        0xB6 => Instruction { op: Operation::Ldx, mode: AddressingMode::ZeroPageY, cycles: 4 },
        0xB7 => Instruction { op: Operation::Xxx, mode: AddressingMode::Implied, cycles: 2 },
        0xB8 => Instruction { op: Operation::Clv, mode: AddressingMode::Implied, cycles: 2 },
        0xB9 => Instruction { op: Operation::Lda, mode: AddressingMode::AbsoluteY, cycles: 4 },
        0xBA => Instruction { op: Operation::Tsx, mode: AddressingMode::Implied, cycles: 2 },
        0xBB => Instruction { op: Operation::Xxx, mode: AddressingMode::Implied, cycles: 2 },
        0xBC => Instruction { op: Operation::Ldy, mode: AddressingMode::AbsoluteX, cycles: 4 },
        0xBD => Instruction { op: Operation::Lda, mode: AddressingMode::AbsoluteX, cycles: 4 },
        0xBE => Instruction { op: Operation::Ldx, mode: AddressingMode::AbsoluteY, cycles: 4 },
        0xBF => Instruction { op: Operation::Xxx, mode: AddressingMode::Implied, cycles: 2 },
        0xC0 => Instruction { op: Operation::Cpy, mode: AddressingMode::Immediate, cycles: 2 },
        0xC1 => Instruction { op: Operation::Cmp, mode: AddressingMode::IndirectX, cycles: 6 },
        0xC2 => Instruction { op: Operation::Xxx, mode: AddressingMode::Implied, cycles: 2 },
        0xC3 => Instruction { op: Operation::Xxx, mode: AddressingMode::Implied, cycles: 2 },
        0xC4 => Instruction { op: Operation::Cpy, mode: AddressingMode::ZeroPage, cycles: 3 },
        0xC5 => Instruction { op: Operation::Cmp, mode: AddressingMode::ZeroPage, cycles: 3 },
        0xC6 => Instruction { op: Operation::Dec, mode: AddressingMode::ZeroPage, cycles: 5 },
        0xC7 => Instruction { op: Operation::Xxx, mode: AddressingMode::Implied, cycles: 2 },
        0xC8 => Instruction { op: Operation::Iny, mode: AddressingMode::Implied, cycles: 2 },
        0xC9 => Instruction { op: Operation::Cmp, mode: AddressingMode::Immediate, cycles: 2 },
        0xCA => Instruction { op: Operation::Dex, mode: AddressingMode::Implied, cycles: 2 },
        0xCB => Instruction { op: Operation::Xxx, mode: AddressingMode::Implied, cycles: 2 },
        0xCC => Instruction { op: Operation::Cpy, mode: AddressingMode::Absolute, cycles: 4 },
        0xCD => Instruction { op: Operation::Cmp, mode: AddressingMode::Absolute, cycles: 4 },
        0xCE => Instruction { op: Operation::Dec, mode: AddressingMode::Absolute, cycles: 6 },
        0xCF => Instruction { op: Operation::Xxx, mode: AddressingMode::Implied, cycles: 2 },
        0xD0 => Instruction { op: Operation::Bne, mode: AddressingMode::Relative, cycles: 2 },
        0xD1 => Instruction { op: Operation::Cmp, mode: AddressingMode::IndirectY, cycles: 5 },
        0xD2 => Instruction { op: Operation::Xxx, mode: AddressingMode::Implied, cycles: 2 },
        0xD3 => Instruction { op: Operation::Xxx, mode: AddressingMode::Implied, cycles: 2 },
        0xD4 => Instruction { op: Operation::Xxx, mode: AddressingMode::Implied, cycles: 2 },
        0xD5 => Instruction { op: Operation::Cmp, mode: AddressingMode::ZeroPageX, cycles: 4 },
        0xD6 => Instruction { op: Operation::Dec, mode: AddressingMode::ZeroPageX, cycles: 6 },
        0xD7 => Instruction { op: Operation::Xxx, mode: AddressingMode::Implied, cycles: 2 },
        0xD8 => Instruction { op: Operation::Cld, mode: AddressingMode::Implied, cycles: 2 },
        0xD9 => Instruction { op: Operation::Cmp, mode: AddressingMode::AbsoluteY, cycles: 4 },
        0xDA => Instruction { op: Operation::Xxx, mode: AddressingMode::Implied, cycles: 2 },
        0xDB => Instruction { op: Operation::Xxx, mode: AddressingMode::Implied, cycles: 2 },
        0xDC => Instruction { op: Operation::Nop, mode: AddressingMode::AbsoluteX, cycles: 4 },
        0xDD => Instruction { op: Operation::Cmp, mode: AddressingMode::AbsoluteX, cycles: 4 },
        0xDE => Instruction { op: Operation::Dec, mode: AddressingMode::AbsoluteX, cycles: 7 },
        0xDF => Instruction { op: Operation::Xxx, mode: AddressingMode::Implied, cycles: 2 },
        0xE0 => Instruction { op: Operation::Cpx, mode: AddressingMode::Immediate, cycles: 2 },
        0xE1 => Instruction { op: Operation::Sbc, mode: AddressingMode::IndirectX, cycles: 6 },
        0xE2 => Instruction { op: Operation::Xxx, mode: AddressingMode::Implied, cycles: 2 },
        0xE3 => Instruction { op: Operation::Xxx, mode: AddressingMode::Implied, cycles: 2 },
        0xE4 => Instruction { op: Operation::Cpx, mode: AddressingMode::ZeroPage, cycles: 3 },
        0xE5 => Instruction { op: Operation::Sbc, mode: AddressingMode::ZeroPage, cycles: 3 },
        0xE6 => Instruction { op: Operation::Inc, mode: AddressingMode::ZeroPage, cycles: 5 },
        0xE7 => Instruction { op: Operation::Xxx, mode: AddressingMode::Implied, cycles: 2 },
        0xE8 => Instruction { op: Operation::Inx, mode: AddressingMode::Implied, cycles: 2 },
        0xE9 => Instruction { op: Operation::Sbc, mode: AddressingMode::Immediate, cycles: 2 },
        0xEA => Instruction { op: Operation::Nop, mode: AddressingMode::Implied, cycles: 2 },
        0xEB => Instruction { op: Operation::Xxx, mode: AddressingMode::Implied, cycles: 2 },
        0xEC => Instruction { op: Operation::Cpx, mode: AddressingMode::Absolute, cycles: 4 },
        0xED => Instruction { op: Operation::Sbc, mode: AddressingMode::Absolute, cycles: 4 },
        0xEE => Instruction { op: Operation::Inc, mode: AddressingMode::Absolute, cycles: 6 },
        0xEF => Instruction { op: Operation::Xxx, mode: AddressingMode::Implied, cycles: 2 },
        0xF0 => Instruction { op: Operation::Beq, mode: AddressingMode::Relative, cycles: 2 },
        0xF1 => Instruction { op: Operation::Sbc, mode: AddressingMode::IndirectY, cycles: 5 },
        0xF2 => Instruction { op: Operation::Xxx, mode: AddressingMode::Implied, cycles: 2 },
        0xF3 => Instruction { op: Operation::Xxx, mode: AddressingMode::Implied, cycles: 2 },
        0xF4 => Instruction { op: Operation::Xxx, mode: AddressingMode::Implied, cycles: 2 },
        0xF5 => Instruction { op: Operation::Sbc, mode: AddressingMode::ZeroPageX, cycles: 4 },
        0xF6 => Instruction { op: Operation::Inc, mode: AddressingMode::ZeroPageX, cycles: 6 },
        0xF7 => Instruction { op: Operation::Xxx, mode: AddressingMode::Implied, cycles: 2 },
        0xF8 => Instruction { op: Operation::Sed, mode: AddressingMode::Implied, cycles: 2 },
        0xF9 => Instruction { op: Operation::Sbc, mode: AddressingMode::AbsoluteY, cycles: 4 },
        0xFA => Instruction { op: Operation::Xxx, mode: AddressingMode::Implied, cycles: 2 },
        0xFB => Instruction { op: Operation::Xxx, mode: AddressingMode::Implied, cycles: 2 },
        0xFC => Instruction { op: Operation::Nop, mode: AddressingMode::AbsoluteX, cycles: 4 },
        0xFD => Instruction { op: Operation::Sbc, mode: AddressingMode::AbsoluteX, cycles: 4 },
        0xFE => Instruction { op: Operation::Inc, mode: AddressingMode::AbsoluteX, cycles: 7 },
        0xFF => Instruction { op: Operation::Xxx, mode: AddressingMode::Implied, cycles: 2 },
    }
}

/// Look an opcode up in the dispatch table.
///
/// Every base cycle count lies between two and seven, which bounds the
/// cycle budget of any instruction.
pub fn lookup(opcode: u8) -> (entry: Instruction)
    ensures
        entry == instruction_at(opcode),
        2 <= entry.cycles <= 7,
{
    match opcode {
            0x00 => Instruction { op: Operation::Brk, mode: AddressingMode::Implied, cycles: 7 },
            0x01 => Instruction { op: Operation::Ora, mode: AddressingMode::IndirectX, cycles: 6 },
            0x02 => Instruction { op: Operation::Xxx, mode: AddressingMode::Implied, cycles: 2 },
            0x03 => Instruction { op: Operation::Xxx, mode: AddressingMode::Implied, cycles: 2 },
            0x04 => Instruction { op: Operation::Xxx, mode: AddressingMode::Implied, cycles: 2 },
            0x05 => Instruction { op: Operation::Ora, mode: AddressingMode::ZeroPage, cycles: 3 },
            0x06 => Instruction { op: Operation::Asl, mode: AddressingMode::ZeroPage, cycles: 5 },
            0x07 => Instruction { op: Operation::Xxx, mode: AddressingMode::Implied, cycles: 2 },
            0x08 => Instruction { op: Operation::Php, mode: AddressingMode::Implied, cycles: 3 },
            0x09 => Instruction { op: Operation::Ora, mode: AddressingMode::Immediate, cycles: 2 },
            0x0A => Instruction { op: Operation::Asl, mode: AddressingMode::Implied, cycles: 2 },
            0x0B => Instruction { op: Operation::Xxx, mode: AddressingMode::Implied, cycles: 2 },
            0x0C => Instruction { op: Operation::Xxx, mode: AddressingMode::Implied, cycles: 2 },
            0x0D => Instruction { op: Operation::Ora, mode: AddressingMode::Absolute, cycles: 4 },
            0x0E => Instruction { op: Operation::Asl, mode: AddressingMode::Absolute, cycles: 6 },
            0x0F => Instruction { op: Operation::Xxx, mode: AddressingMode::Implied, cycles: 2 },
            0x10 => Instruction { op: Operation::Bpl, mode: AddressingMode::Relative, cycles: 2 },
            0x11 => Instruction { op: Operation::Ora, mode: AddressingMode::IndirectY, cycles: 5 },
            0x12 => Instruction { op: Operation::Xxx, mode: AddressingMode::Implied, cycles: 2 },
            0x13 => Instruction { op: Operation::Xxx, mode: AddressingMode::Implied, cycles: 2 },
            0x14 => Instruction { op: Operation::Xxx, mode: AddressingMode::Implied, cycles: 2 },
            0x15 => Instruction { op: Operation::Ora, mode: AddressingMode::ZeroPageX, cycles: 4 },
            0x16 => Instruction { op: Operation::Asl, mode: AddressingMode::ZeroPageX, cycles: 6 },
            0x17 => Instruction { op: Operation::Xxx, mode: AddressingMode::Implied, cycles: 2 },
            0x18 => Instruction { op: Operation::Clc, mode: AddressingMode::Implied, cycles: 2 },
            0x19 => Instruction { op: Operation::Ora, mode: AddressingMode::AbsoluteY, cycles: 4 },
            0x1A => Instruction { op: Operation::Xxx, mode: AddressingMode::Implied, cycles: 2 },
            0x1B => Instruction { op: Operation::Xxx, mode: AddressingMode::Implied, cycles: 2 },
            0x1C => Instruction { op: Operation::Nop, mode: AddressingMode::AbsoluteX, cycles: 4 },
            0x1D => Instruction { op: Operation::Ora, mode: AddressingMode::AbsoluteX, cycles: 4 },
            0x1E => Instruction { op: Operation::Asl, mode: AddressingMode::AbsoluteX, cycles: 7 },
            0x1F => Instruction { op: Operation::Xxx, mode: AddressingMode::Implied, cycles: 2 },
            0x20 => Instruction { op: Operation::Jsr, mode: AddressingMode::Absolute, cycles: 6 },
            0x21 => Instruction { op: Operation::And, mode: AddressingMode::IndirectX, cycles: 6 },
            0x22 => Instruction { op: Operation::Xxx, mode: AddressingMode::Implied, cycles: 2 },
            0x23 => Instruction { op: Operation::Xxx, mode: AddressingMode::Implied, cycles: 2 },
            0x24 => Instruction { op: Operation::Bit, mode: AddressingMode::ZeroPage, cycles: 3 },
            0x25 => Instruction { op: Operation::And, mode: AddressingMode::ZeroPage, cycles: 3 },
            0x26 => Instruction { op: Operation::Rol, mode: AddressingMode::ZeroPage, cycles: 5 },
            0x27 => Instruction { op: Operation::Xxx, mode: AddressingMode::Implied, cycles: 2 },
            0x28 => Instruction { op: Operation::Plp, mode: AddressingMode::Implied, cycles: 4 },
            0x29 => Instruction { op: Operation::And, mode: AddressingMode::Immediate, cycles: 2 },
            0x2A => Instruction { op: Operation::Rol, mode: AddressingMode::Implied, cycles: 2 },
            0x2B => Instruction { op: Operation::Xxx, mode: AddressingMode::Implied, cycles: 2 },
            0x2C => Instruction { op: Operation::Bit, mode: AddressingMode::Absolute, cycles: 4 },
            0x2D => Instruction { op: Operation::And, mode: AddressingMode::Absolute, cycles: 4 },
            0x2E => Instruction { op: Operation::Rol, mode: AddressingMode::Absolute, cycles: 6 },
            0x2F => Instruction { op: Operation::Xxx, mode: AddressingMode::Implied, cycles: 2 },
            0x30 => Instruction { op: Operation::Bmi, mode: AddressingMode::Relative, cycles: 2 },
            0x31 => Instruction { op: Operation::And, mode: AddressingMode::IndirectY, cycles: 5 },
            0x32 => Instruction { op: Operation::Xxx, mode: AddressingMode::Implied, cycles: 2 },
            0x33 => Instruction { op: Operation::Xxx, mode: AddressingMode::Implied, cycles: 2 },
            0x34 => Instruction { op: Operation::Xxx, mode: AddressingMode::Implied, cycles: 2 },
            0x35 => Instruction { op: Operation::And, mode: AddressingMode::ZeroPageX, cycles: 4 },
            0x36 => Instruction { op: Operation::Rol, mode: AddressingMode::ZeroPageX, cycles: 6 },
            0x37 => Instruction { op: Operation::Xxx, mode: AddressingMode::Implied, cycles: 2 },
            0x38 => Instruction { op: Operation::Sec, mode: AddressingMode::Implied, cycles: 2 },
            0x39 => Instruction { op: Operation::And, mode: AddressingMode::AbsoluteY, cycles: 4 },
            0x3A => Instruction { op: Operation::Xxx, mode: AddressingMode::Implied, cycles: 2 },
            0x3B => Instruction { op: Operation::Xxx, mode: AddressingMode::Implied, cycles: 2 },
            0x3C => Instruction { op: Operation::Nop, mode: AddressingMode::AbsoluteX, cycles: 4 },
            0x3D => Instruction { op: Operation::And, mode: AddressingMode::AbsoluteX, cycles: 4 },
            0x3E => Instruction { op: Operation::Rol, mode: AddressingMode::AbsoluteX, cycles: 7 },
            0x3F => Instruction { op: Operation::Xxx, mode: AddressingMode::Implied, cycles: 2 },
            0x40 => Instruction { op: Operation::Rti, mode: AddressingMode::Implied, cycles: 6 },
            0x41 => Instruction { op: Operation::Eor, mode: AddressingMode::IndirectX, cycles: 6 },
            0x42 => Instruction { op: Operation::Xxx, mode: AddressingMode::Implied, cycles: 2 },
            0x43 => Instruction { op: Operation::Xxx, mode: AddressingMode::Implied, cycles: 2 },
            0x44 => Instruction { op: Operation::Xxx, mode: AddressingMode::Implied, cycles: 2 },
            0x45 => Instruction { op: Operation::Eor, mode: AddressingMode::ZeroPage, cycles: 3 },
            0x46 => Instruction { op: Operation::Lsr, mode: AddressingMode::ZeroPage, cycles: 5 },
            0x47 => Instruction { op: Operation::Xxx, mode: AddressingMode::Implied, cycles: 2 },
            0x48 => Instruction { op: Operation::Pha, mode: AddressingMode::Implied, cycles: 3 },
            0x49 => Instruction { op: Operation::Eor, mode: AddressingMode::Immediate, cycles: 2 },
            0x4A => Instruction { op: Operation::Lsr, mode: AddressingMode::Implied, cycles: 2 },
            0x4B => Instruction { op: Operation::Xxx, mode: AddressingMode::Implied, cycles: 2 },
            0x4C => Instruction { op: Operation::Jmp, mode: AddressingMode::Absolute, cycles: 3 },
            0x4D => Instruction { op: Operation::Eor, mode: AddressingMode::Absolute, cycles: 4 },
            0x4E => Instruction { op: Operation::Lsr, mode: AddressingMode::Absolute, cycles: 6 },
            0x4F => Instruction { op: Operation::Xxx, mode: AddressingMode::Implied, cycles: 2 },
            0x50 => Instruction { op: Operation::Bvc, mode: AddressingMode::Relative, cycles: 2 },
            0x51 => Instruction { op: Operation::Eor, mode: AddressingMode::IndirectY, cycles: 5 },
            0x52 => Instruction { op: Operation::Xxx, mode: AddressingMode::Implied, cycles: 2 },
            0x53 => Instruction { op: Operation::Xxx, mode: AddressingMode::Implied, cycles: 2 },
            0x54 => Instruction { op: Operation::Xxx, mode: AddressingMode::Implied, cycles: 2 },
            0x55 => Instruction { op: Operation::Eor, mode: AddressingMode::ZeroPageX, cycles: 4 },
            0x56 => Instruction { op: Operation::Lsr, mode: AddressingMode::ZeroPageX, cycles: 6 },
            0x57 => Instruction { op: Operation::Xxx, mode: AddressingMode::Implied, cycles: 2 },
            0x58 => Instruction { op: Operation::Cli, mode: AddressingMode::Implied, cycles: 2 },
            0x59 => Instruction { op: Operation::Eor, mode: AddressingMode::AbsoluteY, cycles: 4 },
            0x5A => Instruction { op: Operation::Xxx, mode: AddressingMode::Implied, cycles: 2 },
            0x5B => Instruction { op: Operation::Xxx, mode: AddressingMode::Implied, cycles: 2 },
            0x5C => Instruction { op: Operation::Nop, mode: AddressingMode::AbsoluteX, cycles: 4 },
            0x5D => Instruction { op: Operation::Eor, mode: AddressingMode::AbsoluteX, cycles: 4 },
            0x5E => Instruction { op: Operation::Lsr, mode: AddressingMode::AbsoluteX, cycles: 7 },
            0x5F => Instruction { op: Operation::Xxx, mode: AddressingMode::Implied, cycles: 2 },
            0x60 => Instruction { op: Operation::Rts, mode: AddressingMode::Implied, cycles: 6 },
            0x61 => Instruction { op: Operation::Adc, mode: AddressingMode::IndirectX, cycles: 6 },
            0x62 => Instruction { op: Operation::Xxx, mode: AddressingMode::Implied, cycles: 2 },
            0x63 => Instruction { op: Operation::Xxx, mode: AddressingMode::Implied, cycles: 2 },
            0x64 => Instruction { op: Operation::Xxx, mode: AddressingMode::Implied, cycles: 2 },
            0x65 => Instruction { op: Operation::Adc, mode: AddressingMode::ZeroPage, cycles: 3 },
            0x66 => Instruction { op: Operation::Ror, mode: AddressingMode::ZeroPage, cycles: 5 },
            0x67 => Instruction { op: Operation::Xxx, mode: AddressingMode::Implied, cycles: 2 },
            0x68 => Instruction { op: Operation::Pla, mode: AddressingMode::Implied, cycles: 4 },
            0x69 => Instruction { op: Operation::Adc, mode: AddressingMode::Immediate, cycles: 2 },
            0x6A => Instruction { op: Operation::Ror, mode: AddressingMode::Implied, cycles: 2 },
            0x6B => Instruction { op: Operation::Xxx, mode: AddressingMode::Implied, cycles: 2 },
            0x6C => Instruction { op: Operation::Jmp, mode: AddressingMode::Indirect, cycles: 5 },
            0x6D => Instruction { op: Operation::Adc, mode: AddressingMode::Absolute, cycles: 4 },
            0x6E => Instruction { op: Operation::Ror, mode: AddressingMode::Absolute, cycles: 6 },
            0x6F => Instruction { op: Operation::Xxx, mode: AddressingMode::Implied, cycles: 2 },
            0x70 => Instruction { op: Operation::Bvs, mode: AddressingMode::Relative, cycles: 2 },
            0x71 => Instruction { op: Operation::Adc, mode: AddressingMode::IndirectY, cycles: 5 },
            0x72 => Instruction { op: Operation::Xxx, mode: AddressingMode::Implied, cycles: 2 },
            0x73 => Instruction { op: Operation::Xxx, mode: AddressingMode::Implied, cycles: 2 },
            0x74 => Instruction { op: Operation::Xxx, mode: AddressingMode::Implied, cycles: 2 },
            0x75 => Instruction { op: Operation::Adc, mode: AddressingMode::ZeroPageX, cycles: 4 },
            0x76 => Instruction { op: Operation::Ror, mode: AddressingMode::ZeroPageX, cycles: 6 },
            0x77 => Instruction { op: Operation::Xxx, mode: AddressingMode::Implied, cycles: 2 },
            0x78 => Instruction { op: Operation::Sei, mode: AddressingMode::Implied, cycles: 2 },
            0x79 => Instruction { op: Operation::Adc, mode: AddressingMode::AbsoluteY, cycles: 4 },
            0x7A => Instruction { op: Operation::Xxx, mode: AddressingMode::Implied, cycles: 2 },
            0x7B => Instruction { op: Operation::Xxx, mode: AddressingMode::Implied, cycles: 2 },
            0x7C => Instruction { op: Operation::Nop, mode: AddressingMode::AbsoluteX, cycles: 4 },
            0x7D => Instruction { op: Operation::Adc, mode: AddressingMode::AbsoluteX, cycles: 4 },
            0x7E => Instruction { op: Operation::Ror, mode: AddressingMode::AbsoluteX, cycles: 7 },
            0x7F => Instruction { op: Operation::Xxx, mode: AddressingMode::Implied, cycles: 2 },
            0x80 => Instruction { op: Operation::Xxx, mode: AddressingMode::Implied, cycles: 2 },
            0x81 => Instruction { op: Operation::Sta, mode: AddressingMode::IndirectX, cycles: 6 },
            0x82 => Instruction { op: Operation::Xxx, mode: AddressingMode::Implied, cycles: 2 },
            0x83 => Instruction { op: Operation::Xxx, mode: AddressingMode::Implied, cycles: 2 },
            0x84 => Instruction { op: Operation::Sty, mode: AddressingMode::ZeroPage, cycles: 3 },
            0x85 => Instruction { op: Operation::Sta, mode: AddressingMode::ZeroPage, cycles: 3 },
            0x86 => Instruction { op: Operation::Stx, mode: AddressingMode::ZeroPage, cycles: 3 },
            0x87 => Instruction { op: Operation::Xxx, mode: AddressingMode::Implied, cycles: 2 },
            0x88 => Instruction { op: Operation::Dey, mode: AddressingMode::Implied, cycles: 2 },
            0x89 => Instruction { op: Operation::Xxx, mode: AddressingMode::Implied, cycles: 2 },
            0x8A => Instruction { op: Operation::Txa, mode: AddressingMode::Implied, cycles: 2 },
            0x8B => Instruction { op: Operation::Xxx, mode: AddressingMode::Implied, cycles: 2 },
            0x8C => Instruction { op: Operation::Sty, mode: AddressingMode::Absolute, cycles: 4 },
            0x8D => Instruction { op: Operation::Sta, mode: AddressingMode::Absolute, cycles: 4 },
            0x8E => Instruction { op: Operation::Stx, mode: AddressingMode::Absolute, cycles: 4 },
            0x8F => Instruction { op: Operation::Xxx, mode: AddressingMode::Implied, cycles: 2 },
            0x90 => Instruction { op: Operation::Bcc, mode: AddressingMode::Relative, cycles: 2 },
            0x91 => Instruction { op: Operation::Sta, mode: AddressingMode::IndirectY, cycles: 6 },
            0x92 => Instruction { op: Operation::Xxx, mode: AddressingMode::Implied, cycles: 2 },
            0x93 => Instruction { op: Operation::Xxx, mode: AddressingMode::Implied, cycles: 2 },
            0x94 => Instruction { op: Operation::Sty, mode: AddressingMode::ZeroPageX, cycles: 4 },
            0x95 => Instruction { op: Operation::Sta, mode: AddressingMode::ZeroPageX, cycles: 4 },
            0x96 => Instruction { op: Operation::Stx, mode: AddressingMode::ZeroPageY, cycles: 4 },
            0x97 => Instruction { op: Operation::Xxx, mode: AddressingMode::Implied, cycles: 2 },
            0x98 => Instruction { op: Operation::Tya, mode: AddressingMode::Implied, cycles: 2 },
            0x99 => Instruction { op: Operation::Sta, mode: AddressingMode::AbsoluteY, cycles: 5 },
            0x9A => Instruction { op: Operation::Txs, mode: AddressingMode::Implied, cycles: 2 },
            0x9B => Instruction { op: Operation::Xxx, mode: AddressingMode::Implied, cycles: 2 },
            0x9C => Instruction { op: Operation::Xxx, mode: AddressingMode::Implied, cycles: 2 },
            0x9D => Instruction { op: Operation::Sta, mode: AddressingMode::AbsoluteX, cycles: 5 },
            0x9E => Instruction { op: Operation::Xxx, mode: AddressingMode::Implied, cycles: 2 },
            0x9F => Instruction { op: Operation::Xxx, mode: AddressingMode::Implied, cycles: 2 },
            0xA0 => Instruction { op: Operation::Ldy, mode: AddressingMode::Immediate, cycles: 2 },
            0xA1 => Instruction { op: Operation::Lda, mode: AddressingMode::IndirectX, cycles: 6 },
            0xA2 => Instruction { op: Operation::Ldx, mode: AddressingMode::Immediate, cycles: 2 },
            0xA3 => Instruction { op: Operation::Xxx, mode: AddressingMode::Implied, cycles: 2 },
            0xA4 => Instruction { op: Operation::Ldy, mode: AddressingMode::ZeroPage, cycles: 3 },
            0xA5 => Instruction { op: Operation::Lda, mode: AddressingMode::ZeroPage, cycles: 3 },
            0xA6 => Instruction { op: Operation::Ldx, mode: AddressingMode::ZeroPage, cycles: 3 },
            0xA7 => Instruction { op: Operation::Xxx, mode: AddressingMode::Implied, cycles: 2 },
            0xA8 => Instruction { op: Operation::Tay, mode: AddressingMode::Implied, cycles: 2 },
            0xA9 => Instruction { op: Operation::Lda, mode: AddressingMode::Immediate, cycles: 2 },
            0xAA => Instruction { op: Operation::Tax, mode: AddressingMode::Implied, cycles: 2 },
            0xAB => Instruction { op: Operation::Xxx, mode: AddressingMode::Implied, cycles: 2 },
            0xAC => Instruction { op: Operation::Ldy, mode: AddressingMode::Absolute, cycles: 4 },
            0xAD => Instruction { op: Operation::Lda, mode: AddressingMode::Absolute, cycles: 4 },
            0xAE => Instruction { op: Operation::Ldx, mode: AddressingMode::Absolute, cycles: 4 },
            0xAF => Instruction { op: Operation::Xxx, mode: AddressingMode::Implied, cycles: 2 },
            0xB0 => Instruction { op: Operation::Bcs, mode: AddressingMode::Relative, cycles: 2 },
            0xB1 => Instruction { op: Operation::Lda, mode: AddressingMode::IndirectY, cycles: 5 },
            0xB2 => Instruction { op: Operation::Xxx, mode: AddressingMode::Implied, cycles: 2 },
            0xB3 => Instruction { op: Operation::Xxx, mode: AddressingMode::Implied, cycles: 2 },
            0xB4 => Instruction { op: Operation::Ldy, mode: AddressingMode::ZeroPageX, cycles: 4 },
            0xB5 => Instruction { op: Operation::Lda, mode: AddressingMode::ZeroPageX, cycles: 4 },
            0xB6 => Instruction { op: Operation::Ldx, mode: AddressingMode::ZeroPageY, cycles: 4 },
            0xB7 => Instruction { op: Operation::Xxx, mode: AddressingMode::Implied, cycles: 2 },
            0xB8 => Instruction { op: Operation::Clv, mode: AddressingMode::Implied, cycles: 2 },
            0xB9 => Instruction { op: Operation::Lda, mode: AddressingMode::AbsoluteY, cycles: 4 },
            0xBA => Instruction { op: Operation::Tsx, mode: AddressingMode::Implied, cycles: 2 },
            0xBB => Instruction { op: Operation::Xxx, mode: AddressingMode::Implied, cycles: 2 },
            0xBC => Instruction { op: Operation::Ldy, mode: AddressingMode::AbsoluteX, cycles: 4 },
            0xBD => Instruction { op: Operation::Lda, mode: AddressingMode::AbsoluteX, cycles: 4 },
            0xBE => Instruction { op: Operation::Ldx, mode: AddressingMode::AbsoluteY, cycles: 4 },
            0xBF => Instruction { op: Operation::Xxx, mode: AddressingMode::Implied, cycles: 2 },
            0xC0 => Instruction { op: Operation::Cpy, mode: AddressingMode::Immediate, cycles: 2 },
            0xC1 => Instruction { op: Operation::Cmp, mode: AddressingMode::IndirectX, cycles: 6 },
            0xC2 => Instruction { op: Operation::Xxx, mode: AddressingMode::Implied, cycles: 2 },
            0xC3 => Instruction { op: Operation::Xxx, mode: AddressingMode::Implied, cycles: 2 },
            0xC4 => Instruction { op: Operation::Cpy, mode: AddressingMode::ZeroPage, cycles: 3 },
            0xC5 => Instruction { op: Operation::Cmp, mode: AddressingMode::ZeroPage, cycles: 3 },
            0xC6 => Instruction { op: Operation::Dec, mode: AddressingMode::ZeroPage, cycles: 5 },
            0xC7 => Instruction { op: Operation::Xxx, mode: AddressingMode::Implied, cycles: 2 },
            0xC8 => Instruction { op: Operation::Iny, mode: AddressingMode::Implied, cycles: 2 },
            0xC9 => Instruction { op: Operation::Cmp, mode: AddressingMode::Immediate, cycles: 2 },
            0xCA => Instruction { op: Operation::Dex, mode: AddressingMode::Implied, cycles: 2 },
            0xCB => Instruction { op: Operation::Xxx, mode: AddressingMode::Implied, cycles: 2 },
            0xCC => Instruction { op: Operation::Cpy, mode: AddressingMode::Absolute, cycles: 4 },
            0xCD => Instruction { op: Operation::Cmp, mode: AddressingMode::Absolute, cycles: 4 },
            0xCE => Instruction { op: Operation::Dec, mode: AddressingMode::Absolute, cycles: 6 },
            0xCF => Instruction { op: Operation::Xxx, mode: AddressingMode::Implied, cycles: 2 },
            0xD0 => Instruction { op: Operation::Bne, mode: AddressingMode::Relative, cycles: 2 },
            0xD1 => Instruction { op: Operation::Cmp, mode: AddressingMode::IndirectY, cycles: 5 },
            0xD2 => Instruction { op: Operation::Xxx, mode: AddressingMode::Implied, cycles: 2 },
            0xD3 => Instruction { op: Operation::Xxx, mode: AddressingMode::Implied, cycles: 2 },
            0xD4 => Instruction { op: Operation::Xxx, mode: AddressingMode::Implied, cycles: 2 },
            0xD5 => Instruction { op: Operation::Cmp, mode: AddressingMode::ZeroPageX, cycles: 4 },
            0xD6 => Instruction { op: Operation::Dec, mode: AddressingMode::ZeroPageX, cycles: 6 },
            0xD7 => Instruction { op: Operation::Xxx, mode: AddressingMode::Implied, cycles: 2 },
            0xD8 => Instruction { op: Operation::Cld, mode: AddressingMode::Implied, cycles: 2 },
            0xD9 => Instruction { op: Operation::Cmp, mode: AddressingMode::AbsoluteY, cycles: 4 },
            0xDA => Instruction { op: Operation::Xxx, mode: AddressingMode::Implied, cycles: 2 },
            0xDB => Instruction { op: Operation::Xxx, mode: AddressingMode::Implied, cycles: 2 },
            0xDC => Instruction { op: Operation::Nop, mode: AddressingMode::AbsoluteX, cycles: 4 },
            0xDD => Instruction { op: Operation::Cmp, mode: AddressingMode::AbsoluteX, cycles: 4 },
            0xDE => Instruction { op: Operation::Dec, mode: AddressingMode::AbsoluteX, cycles: 7 },
            0xDF => Instruction { op: Operation::Xxx, mode: AddressingMode::Implied, cycles: 2 },
            0xE0 => Instruction { op: Operation::Cpx, mode: AddressingMode::Immediate, cycles: 2 },
            0xE1 => Instruction { op: Operation::Sbc, mode: AddressingMode::IndirectX, cycles: 6 },
            0xE2 => Instruction { op: Operation::Xxx, mode: AddressingMode::Implied, cycles: 2 },
            0xE3 => Instruction { op: Operation::Xxx, mode: AddressingMode::Implied, cycles: 2 },
            0xE4 => Instruction { op: Operation::Cpx, mode: AddressingMode::ZeroPage, cycles: 3 },
            0xE5 => Instruction { op: Operation::Sbc, mode: AddressingMode::ZeroPage, cycles: 3 },
            0xE6 => Instruction { op: Operation::Inc, mode: AddressingMode::ZeroPage, cycles: 5 },
            0xE7 => Instruction { op: Operation::Xxx, mode: AddressingMode::Implied, cycles: 2 },
            0xE8 => Instruction { op: Operation::Inx, mode: AddressingMode::Implied, cycles: 2 },
            0xE9 => Instruction { op: Operation::Sbc, mode: AddressingMode::Immediate, cycles: 2 },
            0xEA => Instruction { op: Operation::Nop, mode: AddressingMode::Implied, cycles: 2 },
            0xEB => Instruction { op: Operation::Xxx, mode: AddressingMode::Implied, cycles: 2 },
            0xEC => Instruction { op: Operation::Cpx, mode: AddressingMode::Absolute, cycles: 4 },
            0xED => Instruction { op: Operation::Sbc, mode: AddressingMode::Absolute, cycles: 4 },
            0xEE => Instruction { op: Operation::Inc, mode: AddressingMode::Absolute, cycles: 6 },
            0xEF => Instruction { op: Operation::Xxx, mode: AddressingMode::Implied, cycles: 2 },
            0xF0 => Instruction { op: Operation::Beq, mode: AddressingMode::Relative, cycles: 2 },
            0xF1 => Instruction { op: Operation::Sbc, mode: AddressingMode::IndirectY, cycles: 5 },
            0xF2 => Instruction { op: Operation::Xxx, mode: AddressingMode::Implied, cycles: 2 },
            0xF3 => Instruction { op: Operation::Xxx, mode: AddressingMode::Implied, cycles: 2 },
            0xF4 => Instruction { op: Operation::Xxx, mode: AddressingMode::Implied, cycles: 2 },
            0xF5 => Instruction { op: Operation::Sbc, mode: AddressingMode::ZeroPageX, cycles: 4 },
            0xF6 => Instruction { op: Operation::Inc, mode: AddressingMode::ZeroPageX, cycles: 6 },
            0xF7 => Instruction { op: Operation::Xxx, mode: AddressingMode::Implied, cycles: 2 },
            0xF8 => Instruction { op: Operation::Sed, mode: AddressingMode::Implied, cycles: 2 },
            0xF9 => Instruction { op: Operation::Sbc, mode: AddressingMode::AbsoluteY, cycles: 4 },
            0xFA => Instruction { op: Operation::Xxx, mode: AddressingMode::Implied, cycles: 2 },
            0xFB => Instruction { op: Operation::Xxx, mode: AddressingMode::Implied, cycles: 2 },
            0xFC => Instruction { op: Operation::Nop, mode: AddressingMode::AbsoluteX, cycles: 4 },
            0xFD => Instruction { op: Operation::Sbc, mode: AddressingMode::AbsoluteX, cycles: 4 },
            0xFE => Instruction { op: Operation::Inc, mode: AddressingMode::AbsoluteX, cycles: 7 },
            0xFF => Instruction { op: Operation::Xxx, mode: AddressingMode::Implied, cycles: 2 },
    }
}

} // verus!
