//! A cycle-accurate emulator of the MOS 6502 eight-bit microprocessor,
//! attached to a flat 64 KiB memory bus.
//!
//! The driver owns both the [`cpu::Cpu`] and the [`bus::Bus`] and passes the
//! bus into each operation, so every memory access reaches the same byte
//! array deterministically.

pub mod addressing;
pub mod bus;
pub mod cpu;
pub mod instructions;
pub mod lemmas;
pub mod ops;

pub use bus::Bus;
pub use cpu::Cpu;
pub use cpu::AddressingMode;
pub use cpu::StatusFlags;
pub use instructions::Instruction;
pub use instructions::Operation;
