//! The memory bus: a flat 64 KiB byte array.
//!
//! Every address in `0x0000..=0xFFFF` is legal. The `read_only` flag on
//! [`Bus::read`] is advisory; plain RAM ignores it.

use vstd::prelude::*;

verus! {

/// The number of bytes on the bus.
pub const MEM_SIZE: usize = 0x10000;

/// A flat 64 KiB RAM reachable through 16-bit addresses.
pub struct Bus {
    ram: Vec<u8>,
}

impl Bus {
    /// The bus as a mathematical sequence of bytes, indexed by address.
    pub closed spec fn view(&self) -> Seq<u8> {
        self.ram@
    }

    /// Well-formedness: the RAM covers the whole 16-bit address space.
    pub open spec fn wf(&self) -> bool {
        self@.len() == MEM_SIZE
    }

    /// A fresh bus with every byte cleared.
    pub fn new() -> (bus: Bus)
        ensures
            bus.wf(),
            forall|i: int| 0 <= i < MEM_SIZE ==> bus@[i] == 0u8,
    {
        let mut ram: Vec<u8> = Vec::new();
        while ram.len() < MEM_SIZE
            invariant
                ram@.len() <= MEM_SIZE,
                forall|i: int| 0 <= i < ram@.len() ==> ram@[i] == 0u8,
            decreases MEM_SIZE - ram@.len(),
        {
            ram.push(0u8);
        }
        Bus { ram }
    }

    /// Store one byte at the given address.
    pub fn write(&mut self, addr: u16, data: u8)
        requires
            old(self).wf(),
        ensures
            final(self).wf(),
            final(self)@ == old(self)@.update(addr as int, data),
    {
        self.ram.set(addr as usize, data);
    }

    /// Load one byte from the given address. The `read_only` flag is
    /// advisory and has no effect on plain RAM.
    pub fn read(&self, addr: u16, read_only: bool) -> (data: u8)
        requires
            self.wf(),
        ensures
            data == self@[addr as int],
    {
        let _ = read_only;
        self.ram[addr as usize]
    }
}

} // verus!
