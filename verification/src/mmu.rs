//! The memory bus: every 16-bit address leads to exactly one backing
//! store, or to none at all and then to an error.

use vstd::prelude::*;
use crate::boot::{boot_image, boot_rom};
use crate::cartridge::{Cartridge, CartridgeError};
use crate::ppu::{Ppu, PpuView, REG_BGP, REG_LCDC, REG_LY, REG_SCY};

verus! {

/// Why the bus refused an access.
#[derive(Clone, Copy, Debug, PartialEq, Eq, Structural)]
pub enum BusError {
    /// No backing store is bound to the address, given here.
    UnmappedAddress(u16),
    /// The cartridge refused the access.
    Cartridge(CartridgeError),
}

/// Last address of the boot overlay, which begins at 0x0000.
pub const BOOT_END: u16 = 0x00FF;

/// Last address of the cartridge's fixed program bank, which begins at 0x0000.
pub const ROM_END: u16 = 0x3FFF;

pub const VRAM_START: u16 = 0x8000;

pub const VRAM_END: u16 = 0x9FFF;

pub const RAM_START: u16 = 0xC000;

pub const RAM_END: u16 = 0xDFFF;

pub const IO_START: u16 = 0xFF00;

pub const IO_END: u16 = 0xFF7F;

pub const HRAM_START: u16 = 0xFF80;

pub const HRAM_END: u16 = 0xFFFE;

/// Size of work RAM, in bytes.
pub const RAM_SIZE: usize = 0x2000;

/// Number of I/O ports.
pub const IO_SIZE: usize = 0x80;

/// Size of high RAM, in bytes.
pub const HRAM_SIZE: usize = 0x7F;

/// Address of the port whose first write switches the boot overlay off.
pub const REG_BOOT_OFF: u16 = 0xFF50;

/// Whether the I/O address belongs to the display controller.
pub open spec fn is_ppu_register(addr: u16) -> bool {
    addr == REG_LCDC || addr == REG_SCY || addr == REG_LY || addr == REG_BGP
}

/// The word whose low byte is `lo` and whose high byte is `hi`.
pub open spec fn word_of(lo: u8, hi: u8) -> u16 {
    (hi * 256 + lo) as u16
}

/// The address after `addr`; after 0xFFFF comes 0x0000.
pub open spec fn next_addr(addr: u16) -> u16 {
    if addr == 0xFFFF {
        0
    } else {
        (addr + 1) as u16
    }
}

/// The bus and what hangs on it, as a mathematical value.
pub struct MmuView<C> {
    pub cartridge: C,
    pub ppu: PpuView,
    /// The boot overlay.
    pub dmg: Seq<u8>,
    /// Work RAM.
    pub ram: Seq<u8>,
    /// The I/O ports that no other component owns.
    pub ioports: Seq<u8>,
    /// High RAM.
    pub hram: Seq<u8>,
    /// Whether the boot overlay is still switched on.
    pub is_dmg: bool,
}

impl<C: Cartridge> MmuView<C> {
    /// The stores have their fixed sizes, the boot overlay holds the
    /// bootstrap program, and the display controller is well-formed.
    pub open spec fn wf(self) -> bool {
        &&& self.ppu.wf()
        &&& self.dmg == boot_rom()
        &&& self.ram.len() == RAM_SIZE
        &&& self.ioports.len() == IO_SIZE
        &&& self.hram.len() == HRAM_SIZE
    }

    /// The bus at power-on around the given cartridge: boot overlay on,
    /// all memory cleared.
    pub open spec fn power_on(cartridge: C) -> MmuView<C> {
        MmuView {
            cartridge,
            ppu: PpuView::power_on(),
            dmg: boot_rom(),
            ram: Seq::new(RAM_SIZE as nat, |i: int| 0u8),
            ioports: Seq::new(IO_SIZE as nat, |i: int| 0u8),
            hram: Seq::new(HRAM_SIZE as nat, |i: int| 0u8),
            is_dmg: true,
        }
    }

    /// What a read at `addr` yields. The first range that holds the
    /// address decides; an address in no range is unmapped.
    pub open spec fn read(self, addr: u16) -> Result<u8, BusError> {
        if addr <= BOOT_END && self.is_dmg {
            Ok(self.dmg[addr as int])
        } else if addr <= ROM_END {
            Ok(self.cartridge.rom_at(addr))
        } else if VRAM_START <= addr <= VRAM_END {
            Ok(self.ppu.read((addr - VRAM_START) as u16))
        } else if RAM_START <= addr <= RAM_END {
            Ok(self.ram[addr - RAM_START])
        } else if IO_START <= addr <= IO_END {
            if is_ppu_register(addr) {
                match self.ppu.read_register(addr) {
                    Ok(value) => Ok(value),
                    Err(_) => Err(BusError::UnmappedAddress(addr)),
                }
            } else {
                Ok(self.ioports[addr - IO_START])
            }
        } else if HRAM_START <= addr <= HRAM_END {
            Ok(self.hram[addr - HRAM_START])
        } else {
            Err(BusError::UnmappedAddress(addr))
        }
    }

    /// The bus after a write of `data` at `addr`, or the reason why the
    /// write is refused. A write to program memory goes to the cartridge,
    /// boot overlay or not. Any write to `REG_BOOT_OFF` switches the boot
    /// overlay off.
    pub open spec fn write(self, addr: u16, data: u8) -> Result<MmuView<C>, BusError> {
        if addr <= ROM_END {
            match self.cartridge.rom_written(addr, data) {
                Ok(cartridge) => Ok(MmuView { cartridge, ..self }),
                Err(e) => Err(BusError::Cartridge(e)),
            }
        } else if VRAM_START <= addr <= VRAM_END {
            Ok(MmuView { ppu: self.ppu.write((addr - VRAM_START) as u16, data), ..self })
        } else if RAM_START <= addr <= RAM_END {
            Ok(MmuView { ram: self.ram.update(addr - RAM_START, data), ..self })
        } else if IO_START <= addr <= IO_END {
            if is_ppu_register(addr) {
                match self.ppu.write_register(addr, data) {
                    Ok(ppu) => Ok(MmuView { ppu, ..self }),
                    Err(_) => Err(BusError::UnmappedAddress(addr)),
                }
            } else {
                Ok(
                    MmuView {
                        ioports: self.ioports.update(addr - IO_START, data),
                        is_dmg: self.is_dmg && addr != REG_BOOT_OFF,
                        ..self
                    },
                )
            }
        } else if HRAM_START <= addr <= HRAM_END {
            Ok(MmuView { hram: self.hram.update(addr - HRAM_START, data), ..self })
        } else {
            Err(BusError::UnmappedAddress(addr))
        }
    }

    /// What a read of the word at `addr` yields: the low byte from
    /// `addr`, the high byte from the address after it.
    pub open spec fn read_u16(self, addr: u16) -> Result<u16, BusError> {
        match self.read(addr) {
            Err(e) => Err(e),
            Ok(lo) => match self.read(next_addr(addr)) {
                Err(e) => Err(e),
                Ok(hi) => Ok(word_of(lo, hi)),
            },
        }
    }

    /// The bus after a write of the word `data` at `addr`, and whether
    /// it went through: the low byte goes to `addr`, then the high byte
    /// to the address after it. If the second write is refused the
    /// first one stays.
    pub open spec fn write_u16(self, addr: u16, data: u16) -> (MmuView<C>, Result<(), BusError>) {
        match self.write(addr, (data % 256) as u8) {
            Err(e) => (self, Err(e)),
            Ok(first) => match first.write(next_addr(addr), (data / 256) as u8) {
                Err(e) => (first, Err(e)),
                Ok(second) => (second, Ok(())),
            },
        }
    }

    /// The bus after `n` cycles of display time, and the frames
    /// completed in them.
    pub open spec fn advance(self, n: nat) -> (MmuView<C>, nat) {
        (MmuView { ppu: self.ppu.advance(n).0, ..self }, self.ppu.advance(n).1)
    }
}

/// The memory bus. It owns the cartridge, the display controller, work
/// RAM, high RAM, the I/O ports and the boot overlay.
pub struct Mmu<C: Cartridge> {
    cartridge: C,
    ppu: Ppu,
    dmg: Vec<u8>,
    ram: Vec<u8>,
    ioports: Vec<u8>,
    hram: Vec<u8>,
    is_dmg: bool,
}

impl<C: Cartridge> View for Mmu<C> {
    type V = MmuView<C>;

    closed spec fn view(&self) -> MmuView<C> {
        MmuView {
            cartridge: self.cartridge,
            ppu: self.ppu@,
            dmg: self.dmg@,
            ram: self.ram@,
            ioports: self.ioports@,
            hram: self.hram@,
            is_dmg: self.is_dmg,
        }
    }
}

impl<C: Cartridge> Mmu<C> {
    /// The bus's value is well-formed.
    pub open spec fn wf(&self) -> bool {
        self@.wf()
    }

    /// A bus at power-on around the given cartridge.
    pub fn new(cartridge: C) -> (r: Self)
        ensures
            r@ == MmuView::power_on(cartridge),
            r.wf(),
    {
        let r = Mmu {
            cartridge,
            ppu: Ppu::new(),
            dmg: boot_image(),
            ram: vec![0u8; RAM_SIZE],
            ioports: vec![0u8; IO_SIZE],
            hram: vec![0u8; HRAM_SIZE],
            is_dmg: true,
        };
        assert(r@.ram =~= MmuView::power_on(cartridge).ram);
        assert(r@.ioports =~= MmuView::power_on(cartridge).ioports);
        assert(r@.hram =~= MmuView::power_on(cartridge).hram);
        r
    }

    /// The display controller.
    pub fn ppu(&self) -> (p: &Ppu)
        ensures
            p@ == self@.ppu,
    {
        &self.ppu
    }

    /// The cartridge.
    pub fn cartridge(&self) -> (c: &C)
        ensures
            *c == self@.cartridge,
    {
        &self.cartridge
    }

    /// Reads the byte at `addr`. Only an unmapped address fails.
    pub fn read(&self, addr: u16) -> (r: Result<u8, BusError>)
        requires
            self.wf(),
        ensures
            r == self@.read(addr),
    {
        if addr <= BOOT_END && self.is_dmg {
            Ok(self.dmg[addr as usize])
        } else if addr <= ROM_END {
            Ok(self.cartridge.read_rom(addr))
        } else if VRAM_START <= addr && addr <= VRAM_END {
            Ok(self.ppu.read(addr - VRAM_START))
        } else if RAM_START <= addr && addr <= RAM_END {
            Ok(self.ram[(addr - RAM_START) as usize])
        } else if IO_START <= addr && addr <= IO_END {
            if addr == REG_LCDC || addr == REG_SCY || addr == REG_LY || addr == REG_BGP {
                match self.ppu.read_registers(addr) {
                    Ok(value) => Ok(value),
                    Err(_) => Err(BusError::UnmappedAddress(addr)),
                }
            } else {
                Ok(self.ioports[(addr - IO_START) as usize])
            }
        } else if HRAM_START <= addr && addr <= HRAM_END {
            Ok(self.hram[(addr - HRAM_START) as usize])
        } else {
            Err(BusError::UnmappedAddress(addr))
        }
    }

    /// Writes `data` at `addr`. A refused write changes nothing.
    pub fn write(&mut self, addr: u16, data: u8) -> (r: Result<(), BusError>)
        requires
            old(self).wf(),
        ensures
            match old(self)@.write(addr, data) {
                Ok(after) => r == Ok::<(), BusError>(()) && final(self)@ == after,
                Err(e) => r == Err::<(), BusError>(e) && final(self)@ == old(self)@,
            },
            final(self).wf(),
    {
        if addr <= ROM_END {
            match self.cartridge.write_rom(addr, data) {
                Ok(()) => Ok(()),
                Err(e) => Err(BusError::Cartridge(e)),
            }
        } else if VRAM_START <= addr && addr <= VRAM_END {
            self.ppu.write(addr - VRAM_START, data);
            Ok(())
        } else if RAM_START <= addr && addr <= RAM_END {
            self.ram[(addr - RAM_START) as usize] = data;
            Ok(())
        } else if IO_START <= addr && addr <= IO_END {
            if addr == REG_LCDC || addr == REG_SCY || addr == REG_LY || addr == REG_BGP {
                match self.ppu.write_registers(addr, data) {
                    Ok(()) => Ok(()),
                    Err(_) => Err(BusError::UnmappedAddress(addr)),
                }
            } else {
                self.ioports[(addr - IO_START) as usize] = data;
                if addr == REG_BOOT_OFF {
                    self.is_dmg = false;
                }
                Ok(())
            }
        } else if HRAM_START <= addr && addr <= HRAM_END {
            self.hram[(addr - HRAM_START) as usize] = data;
            Ok(())
        } else {
            Err(BusError::UnmappedAddress(addr))
        }
    }

    /// Writes a word, low byte first. If the high byte is refused the
    /// low byte has been written all the same.
    pub fn write_u16(&mut self, addr: u16, data: u16) -> (r: Result<(), BusError>)
        requires
            old(self).wf(),
        ensures
            (final(self)@, r) == old(self)@.write_u16(addr, data),
            final(self).wf(),
    {
        proof {
            crate::bits::lemma_word_halves(data);
        }
        match self.write(addr, (data & 0x00FF) as u8) {
            Err(e) => Err(e),
            Ok(()) => self.write(addr.wrapping_add(1), (data >> 8) as u8),
        }
    }

    /// Reads a word, low byte first.
    pub fn read_u16(&self, addr: u16) -> (r: Result<u16, BusError>)
        requires
            self.wf(),
        ensures
            r == self@.read_u16(addr),
    {
        match self.read(addr) {
            Err(e) => Err(e),
            Ok(lo) => match self.read(addr.wrapping_add(1)) {
                Err(e) => Err(e),
                Ok(hi) => {
                    proof {
                        crate::bits::lemma_word_join(hi, lo);
                    }
                    Ok(((hi as u16) << 8) | (lo as u16))
                },
            },
        }
    }

    /// Lets `cycles` cycles of display time pass and returns the number
    /// of frames completed in them.
    pub fn advance(&mut self, cycles: u32) -> (frames: u32)
        requires
            old(self).wf(),
        ensures
            (final(self)@, frames as nat) == old(self)@.advance(cycles as nat),
            final(self).wf(),
    {
        self.ppu.advance(cycles)
    }
}

} // verus!
