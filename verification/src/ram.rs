//! Flat byte RAM blocks: the 8 KiB work RAM and the 127-byte high RAM. The
//! bus hands them addresses already rebased to zero.
use vstd::prelude::*;

verus! {

#[derive(Debug)]
pub struct RAM {
    pub data: Vec<u8>,
}

impl RAM {
    /// A zero-filled block of the given size.
    pub fn create(size: usize) -> (r: RAM)
        ensures
            r.data@.len() == size,
            forall|i: int| 0 <= i < size ==> r.data@[i] == 0,
    {
        RAM { data: crate::bits::zero_bytes(size) }
    }

    pub fn read(&self, address: u16) -> (r: u8)
        requires
            address < self.data@.len(),
        ensures
            r == self.data@[address as int],
    {
        self.data[address as usize]
    }

    pub fn write(&mut self, address: u16, value: u8)
        requires
            address < old(self).data@.len(),
        ensures
            final(self).data@ == old(self).data@.update(address as int, value),
    {
        self.data[address as usize] = value;
    }
}

} // verus!
