use vstd::prelude::*;
use crate::cartridge::{byte_at, byte_or_ff};

verus! {

/// A cartridge of one ROM image and nothing else.
pub struct CartridgeRomOnly {
    data: Vec<u8>,
}

impl CartridgeRomOnly {
    /// The ROM image.
    pub closed spec fn rom(&self) -> Seq<u8> {
        self.data@
    }

    /// What a read of `address` gives.
    pub open spec fn read(&self, address: int) -> u8 {
        byte_or_ff(self.rom(), address)
    }

    pub fn new(bytes: Vec<u8>) -> (r: Self)
        ensures
            r.rom() == bytes@,
    {
        CartridgeRomOnly { data: bytes }
    }

    pub fn get(&self, address: usize) -> (r: u8)
        ensures
            r == self.read(address as int),
    {
        byte_at(&self.data, address)
    }

    /// Writes reach no register: the cartridge is left as it was.
    pub fn set(&mut self, address: usize, val: u8)
        ensures
            *final(self) == *old(self),
    {
    }

    pub fn data(&self) -> (r: &Vec<u8>)
        ensures
            r@ == self.rom(),
    {
        &self.data
    }
}

} // verus!
