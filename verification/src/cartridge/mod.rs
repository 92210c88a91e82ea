//! Cartridges: the program memory and the persistent memory that a game
//! brings along, behind the mapper that its header names.

use vstd::prelude::*;

pub mod mbc0;

use mbc0::Mbc0;

verus! {

/// The mappers that can be loaded.
#[derive(Clone, Copy, Debug, PartialEq, Eq, Structural)]
pub enum CartridgeTypes {
    /// Direct mapping: no banking and no persistent memory.
    MBC0,
}

/// Why a ROM image was not accepted.
#[derive(Clone, Copy, Debug, PartialEq, Eq, Structural)]
pub enum LoadError {
    /// The image ends before the mapper byte of its header.
    TruncatedHeader,
    /// The header names a mapper, given here, that is not supported.
    UnsupportedMapper(u8),
}

/// Why a cartridge refused an access.
#[derive(Clone, Copy, Debug, PartialEq, Eq, Structural)]
pub enum CartridgeError {
    /// A write to program memory that the cartridge cannot take.
    ReadOnlyViolation,
    /// An access to persistent memory on a cartridge that has none.
    NoPersistentMemory,
}

/// Offset of the header byte that names the mapper.
pub const CARTRIDGE_TYPE_BYTE: usize = 0x147;

/// What every mapper offers: reads and writes of program memory and of
/// persistent memory. Each mapper decides by itself how an address maps
/// into its banks; the four spec functions say what it decided.
pub trait Cartridge: Sized {
    /// The byte that program memory holds at `addr`.
    spec fn rom_at(&self, addr: u16) -> u8;

    /// The outcome of reading persistent memory at `addr`.
    spec fn ram_at(&self, addr: u16) -> Result<u8, CartridgeError>;

    /// The cartridge after a write of `data` to program memory at `addr`,
    /// or the reason why the write is refused.
    spec fn rom_written(&self, addr: u16, data: u8) -> Result<Self, CartridgeError>;

    /// The cartridge after a write of `data` to persistent memory at
    /// `addr`, or the reason why the write is refused.
    spec fn ram_written(&self, addr: u16, data: u8) -> Result<Self, CartridgeError>;

    /// Reads program memory.
    fn read_rom(&self, addr: u16) -> (r: u8)
        ensures
            r == self.rom_at(addr),
    ;

    /// Reads persistent memory.
    fn read_ram(&self, addr: u16) -> (r: Result<u8, CartridgeError>)
        ensures
            r == self.ram_at(addr),
    ;

    /// Writes program memory. A refused write leaves the cartridge as it was.
    fn write_rom(&mut self, addr: u16, data: u8) -> (r: Result<(), CartridgeError>)
        ensures
            match old(self).rom_written(addr, data) {
                Ok(after) => r == Ok::<(), CartridgeError>(()) && *final(self) == after,
                Err(e) => r == Err::<(), CartridgeError>(e) && *final(self) == *old(self),
            },
    ;

    /// Writes persistent memory. A refused write leaves the cartridge as
    /// it was.
    fn write_ram(&mut self, addr: u16, data: u8) -> (r: Result<(), CartridgeError>)
        ensures
            match old(self).ram_written(addr, data) {
                Ok(after) => r == Ok::<(), CartridgeError>(()) && *final(self) == after,
                Err(e) => r == Err::<(), CartridgeError>(e) && *final(self) == *old(self),
            },
    ;
}

/// The mapper that a header byte stands for.
pub open spec fn cartridge_type_of(type_byte: u8) -> Result<CartridgeTypes, LoadError> {
    if type_byte == 0x00 {
        Ok(CartridgeTypes::MBC0)
    } else {
        Err(LoadError::UnsupportedMapper(type_byte))
    }
}

/// The outcome of loading the image `rom`: which error, or the bytes that
/// the cartridge then holds.
pub open spec fn loaded(rom: Seq<u8>) -> Result<Seq<u8>, LoadError> {
    if rom.len() <= CARTRIDGE_TYPE_BYTE {
        Err(LoadError::TruncatedHeader)
    } else {
        match cartridge_type_of(rom[CARTRIDGE_TYPE_BYTE as int]) {
            Ok(CartridgeTypes::MBC0) => Ok(rom),
            Err(e) => Err(e),
        }
    }
}

/// Decodes the mapper byte of a header. Only 0x00 names a supported mapper.
pub fn get_cartridge_type(type_byte: u8) -> (r: Result<CartridgeTypes, LoadError>)
    ensures
        r == cartridge_type_of(type_byte),
{
    match type_byte {
        0x00 => Ok(CartridgeTypes::MBC0),
        _ => Err(LoadError::UnsupportedMapper(type_byte)),
    }
}

/// Builds the cartridge that the image's header asks for. The image is
/// refused when it is too short to hold the mapper byte, or when that
/// byte names an unsupported mapper.
pub fn new(rom: Vec<u8>) -> (r: Result<Mbc0, LoadError>)
    ensures
        match loaded(rom@) {
            Ok(bytes) => r.is_ok() && r.unwrap()@ == bytes,
            Err(e) => r == Err::<Mbc0, LoadError>(e),
        },
{
    if rom.len() <= CARTRIDGE_TYPE_BYTE {
        return Err(LoadError::TruncatedHeader);
    }
    match get_cartridge_type(rom[CARTRIDGE_TYPE_BYTE]) {
        Ok(CartridgeTypes::MBC0) => Ok(Mbc0::new(rom)),
        Err(e) => Err(e),
    }
}

} // verus!
