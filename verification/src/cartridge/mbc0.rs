//! The direct-mapped cartridge: one ROM image, no banking, no
//! persistent memory.

use vstd::prelude::*;
use crate::cartridge::{Cartridge, CartridgeError};

verus! {

/// The byte that a read outside the ROM image yields.
pub const OPEN_BUS: u8 = 0xFF;

/// A cartridge whose program memory is its ROM image, address for address.
pub struct Mbc0 {
    rom: Vec<u8>,
}

impl View for Mbc0 {
    type V = Seq<u8>;

    /// The ROM image.
    closed spec fn view(&self) -> Seq<u8> {
        self.rom@
    }
}

impl Mbc0 {
    /// A cartridge around the given ROM image.
    pub fn new(data: Vec<u8>) -> (r: Self)
        ensures
            r@ == data@,
    {
        Mbc0 { rom: data }
    }
}

impl Cartridge for Mbc0 {
    /// The image's byte at `addr`; past the end of the image, `OPEN_BUS`.
    open spec fn rom_at(&self, addr: u16) -> u8 {
        if addr < self@.len() {
            self@[addr as int]
        } else {
            OPEN_BUS
        }
    }

    open spec fn ram_at(&self, addr: u16) -> Result<u8, CartridgeError> {
        Err(CartridgeError::NoPersistentMemory)
    }

    open spec fn rom_written(&self, addr: u16, data: u8) -> Result<Self, CartridgeError> {
        Err(CartridgeError::ReadOnlyViolation)
    }

    open spec fn ram_written(&self, addr: u16, data: u8) -> Result<Self, CartridgeError> {
        Err(CartridgeError::NoPersistentMemory)
    }

    /// The image's byte at `addr`, or `OPEN_BUS` past its end.
    fn read_rom(&self, addr: u16) -> (r: u8) {
        if (addr as usize) < self.rom.len() {
            self.rom[addr as usize]
        } else {
            OPEN_BUS
        }
    }

    /// Always refused: this cartridge has no persistent memory.
    fn read_ram(&self, _addr: u16) -> (r: Result<u8, CartridgeError>) {
        Err(CartridgeError::NoPersistentMemory)
    }

    /// Always refused: the program memory of this cartridge is read-only.
    fn write_rom(&mut self, _addr: u16, _data: u8) -> (r: Result<(), CartridgeError>) {
        Err(CartridgeError::ReadOnlyViolation)
    }

    /// Always refused: this cartridge has no persistent memory.
    fn write_ram(&mut self, _addr: u16, _data: u8) -> (r: Result<(), CartridgeError>) {
        Err(CartridgeError::NoPersistentMemory)
    }
}

} // verus!
