//! The flat byte-addressable address space shared between host and guest.
//!
//! The console contract gives the guest two primitive operations, `peek`
//! (read a byte at an address) and `poke` (write a byte at an address), both
//! total: every 16-bit address is backed by a byte and every access succeeds.
//! Here the space is an explicit in-memory array with those two operations as
//! `read` and `write`, so the per-frame logic can be stated and checked
//! against the sequence of bytes it manipulates; a host embedding copies
//! bytes between this array and its own registers.

use vstd::prelude::*;

use crate::address_map::ADDRESS_SPACE_SIZE;

verus! {

/// The 64K byte array backing every register, the framebuffer, working RAM
/// and the gamepad ports. Viewed as a `Seq<u8>` of length
/// `ADDRESS_SPACE_SIZE`, indexed by address.
pub struct AddressSpace {
    bytes: Vec<u8>,
}

impl View for AddressSpace {
    type V = Seq<u8>;

    closed spec fn view(&self) -> Seq<u8> {
        self.bytes@
    }
}

impl AddressSpace {
    /// Every 16-bit address is backed by a byte.
    pub open spec fn wf(&self) -> bool {
        self@.len() == ADDRESS_SPACE_SIZE
    }

    /// A fresh address space with every byte zero.
    pub fn new() -> (m: AddressSpace)
        ensures
            m.wf(),
            forall|i: int| 0 <= i < ADDRESS_SPACE_SIZE ==> m@[i] == 0u8,
    {
        let mut bytes: Vec<u8> = Vec::new();
        while bytes.len() < ADDRESS_SPACE_SIZE
            invariant
                bytes@.len() <= ADDRESS_SPACE_SIZE,
                forall|i: int| 0 <= i < bytes@.len() ==> bytes@[i] == 0u8,
            decreases ADDRESS_SPACE_SIZE - bytes@.len(),
        {
            bytes.push(0u8);
        }
        AddressSpace { bytes }
    }

    /// `peek`: the byte currently at `addr`. Total: every address is valid.
    pub fn read(&self, addr: u16) -> (v: u8)
        requires
            self.wf(),
        ensures
            v == self@[addr as int],
    {
        self.bytes[addr as usize]
    }

    /// `poke`: set the byte at `addr`; every other byte is untouched.
    pub fn write(&mut self, addr: u16, value: u8)
        requires
            old(self).wf(),
        ensures
            final(self).wf(),
            final(self)@ == old(self)@.update(addr as int, value),
    {
        self.bytes[addr as usize] = value;
    }
}

} // verus!
