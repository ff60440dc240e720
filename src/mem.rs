use vstd::prelude::*;

use crate::error::Error;

verus! {

/// Number of addressable bytes.
pub const MEMORY_SIZE: usize = 0x10000;

/// Scan-line register, read as "always in vertical blank".
pub const LY_REGISTER: u16 = 0xff44;

/// Value that the scan-line register holds.
pub const LY_VBLANK: u8 = 0x90;

/// Writing here tells that the boot program has finished.
pub const BOOT_ROM_DISABLE: u16 = 0xff50;

/// Message of the abort raised by a write to the boot-ROM-disable register.
pub const BOOT_FINISHED: &'static str = "Bootrom finished, aborting for now";

/// Size of the boot program.
pub const BOOT_ROM_SIZE: usize = 0x100;

/// Size of the cartridge program.
pub const GAME_ROM_SIZE: usize = 0x8000;

/// The address following `addr`, wrapping at 16 bits.
pub open spec fn next_addr(addr: u16) -> u16 {
    ((addr + 1) % 0x10000) as u16
}

/// Reading one byte of plain memory, with no I/O handling.
pub open spec fn read_ram_spec(mem: Seq<u8>, addr: u16) -> Result<u8, Error> {
    if (addr as int) < mem.len() {
        Ok(mem[addr as int])
    } else {
        Err(Error::InvalidReadFromMemoryLocation(addr))
    }
}

/// Reading one byte through the region policy: the scan-line register
/// always reads "in vertical blank", every other address reads memory.
pub open spec fn read8_spec(mem: Seq<u8>, addr: u16) -> Result<u8, Error> {
    if addr == LY_REGISTER && (addr as int) < mem.len() {
        Ok(LY_VBLANK)
    } else {
        read_ram_spec(mem, addr)
    }
}

/// Writing one byte to plain memory, with no I/O handling.
pub open spec fn write_ram_spec(mem: Seq<u8>, addr: u16, val: u8) -> (Seq<u8>, Result<(), Error>) {
    if (addr as int) < mem.len() {
        (mem.update(addr as int, val), Ok(()))
    } else {
        (mem, Err(Error::InvalidWriteToMemoryLocation(addr)))
    }
}

/// Writing one byte through the region policy: the boot-ROM-disable register
/// aborts, every other address is a plain write.
pub open spec fn write8_spec(mem: Seq<u8>, addr: u16, val: u8) -> (Seq<u8>, Result<(), Error>) {
    if addr == BOOT_ROM_DISABLE {
        (mem, Err(Error::Abort(BOOT_FINISHED)))
    } else {
        write_ram_spec(mem, addr, val)
    }
}

/// A little-endian word from its two bytes.
pub open spec fn word_of(low: u8, high: u8) -> u16 {
    (low + high * 256) as u16
}

/// Reading a little-endian word: low byte at `addr`, high byte after it.
pub open spec fn read16_spec(mem: Seq<u8>, addr: u16) -> Result<u16, Error> {
    match read8_spec(mem, addr) {
        Err(e) => Err(e),
        Ok(low) => match read8_spec(mem, next_addr(addr)) {
            Err(e) => Err(e),
            Ok(high) => Ok(word_of(low, high)),
        },
    }
}

/// Writing a little-endian word: the high byte first, at the address after
/// `addr`, then the low byte at `addr`.
pub open spec fn write16_spec(mem: Seq<u8>, addr: u16, val: u16) -> (Seq<u8>, Result<(), Error>) {
    let (m1, r1) = write8_spec(mem, next_addr(addr), (val / 256) as u8);
    match r1 {
        Err(e) => (m1, Err(e)),
        Ok(_) => write8_spec(m1, addr, (val % 256) as u8),
    }
}

/// Writing a word and reading it back at the same address gives the word
/// again, whenever the write went through and neither of its bytes is the
/// scan-line register (which always reads "in vertical blank"); and the
/// write goes through exactly when both of its bytes are backed and neither
/// is the boot-ROM-disable register.
pub proof fn lemma_write16_read16(mem: Seq<u8>, addr: u16, val: u16)
    ensures
        write16_spec(mem, addr, val).1 is Ok <==> {
            &&& (addr as int) < mem.len()
            &&& (next_addr(addr) as int) < mem.len()
            &&& addr != BOOT_ROM_DISABLE
            &&& next_addr(addr) != BOOT_ROM_DISABLE
        },
        write16_spec(mem, addr, val).1 is Ok && addr != LY_REGISTER && next_addr(addr) != LY_REGISTER
            ==> read16_spec(write16_spec(mem, addr, val).0, addr) == Ok::<u16, Error>(val),
{
}

/// A word write that went through changes no byte but its own two.
pub proof fn lemma_write16_frame(mem: Seq<u8>, addr: u16, val: u16, other: u16)
    requires
        write16_spec(mem, addr, val).1 is Ok,
        other != addr,
        other != next_addr(addr),
    ensures
        read8_spec(write16_spec(mem, addr, val).0, other) == read8_spec(mem, other),
{
}

/// The 16-bit address space, backed by a byte array.
pub struct Mmu {
    mem: Vec<u8>,
}

impl View for Mmu {
    type V = Seq<u8>;

    closed spec fn view(&self) -> Seq<u8> {
        self.mem@
    }
}

impl Mmu {
    /// A zeroed address space whose scan-line register reads "in vertical blank".
    pub fn empty() -> (r: Mmu)
        ensures
            r@.len() == MEMORY_SIZE,
            r@[LY_REGISTER as int] == LY_VBLANK,
            forall|i: int| 0 <= i < MEMORY_SIZE && i != LY_REGISTER ==> #[trigger] r@[i] == 0,
    {
        let mut mem: Vec<u8> = vec![0; MEMORY_SIZE];
        mem.set(LY_REGISTER as usize, LY_VBLANK);
        Mmu { mem }
    }

    /// An address space backed by the given bytes.
    pub fn with_mem(mem: Vec<u8>) -> (r: Mmu)
        ensures
            r@ == mem@,
    {
        Mmu { mem }
    }

    /// The bytes of the address space.
    pub fn bytes(&self) -> (r: &Vec<u8>)
        ensures
            r@ == self@,
    {
        &self.mem
    }

    /// Copies `data` over the start of the address space.
    fn overlay(&mut self, data: &Vec<u8>)
        requires
            data@.len() <= old(self)@.len(),
        ensures
            final(self)@ == data@ + old(self)@.subrange(data@.len() as int, old(self)@.len() as int),
    {
        let mut i: usize = 0;
        while i < data.len()
            invariant
                i <= data@.len() <= self.mem@.len(),
                self.mem@.len() == old(self)@.len(),
                forall|j: int| 0 <= j < i ==> #[trigger] self.mem@[j] == data@[j],
                forall|j: int| i <= j < self.mem@.len() ==> #[trigger] self.mem@[j] == old(self)@[j],
            decreases data@.len() - i,
        {
            self.mem.set(i, data[i]);
            i = i + 1;
        }
        assert(self.mem@ =~= data@ + old(self)@.subrange(data@.len() as int, old(self)@.len() as int));
    }

    /// Copies a cartridge program into the low 32KB.
    pub fn load_game_rom(&mut self, game_rom: &Vec<u8>)
        requires
            game_rom@.len() == GAME_ROM_SIZE,
            old(self)@.len() >= GAME_ROM_SIZE,
        ensures
            final(self)@ == game_rom@ + old(self)@.subrange(GAME_ROM_SIZE as int, old(self)@.len() as int),
    {
        self.overlay(game_rom);
    }

    /// Lays the boot program over the first 256 bytes.
    pub fn load_boot_rom(&mut self, boot_rom: &Vec<u8>)
        requires
            boot_rom@.len() == BOOT_ROM_SIZE,
            old(self)@.len() >= BOOT_ROM_SIZE,
        ensures
            final(self)@ == boot_rom@ + old(self)@.subrange(BOOT_ROM_SIZE as int, old(self)@.len() as int),
    {
        self.overlay(boot_rom);
    }

    fn read_ram(&self, addr: u16) -> (r: Result<u8, Error>)
        ensures
            r == read_ram_spec(self@, addr),
    {
        if (addr as usize) < self.mem.len() {
            Ok(self.mem[addr as usize])
        } else {
            Err(Error::InvalidReadFromMemoryLocation(addr))
        }
    }

    fn write_ram(&mut self, addr: u16, val: u8) -> (r: Result<(), Error>)
        ensures
            (final(self)@, r) == write_ram_spec(old(self)@, addr, val),
    {
        if (addr as usize) < self.mem.len() {
            self.mem.set(addr as usize, val);
            Ok(())
        } else {
            Err(Error::InvalidWriteToMemoryLocation(addr))
        }
    }

    fn write_io_register(&mut self, addr: u16, val: u8) -> (r: Result<(), Error>)
        requires
            addr >= 0xff00,
        ensures
            (final(self)@, r) == write8_spec(old(self)@, addr, val),
    {
        if addr == BOOT_ROM_DISABLE {
            return Err(Error::Abort(BOOT_FINISHED));
        }
        // The byte is also kept in memory so that reads see what was written.
        self.write_ram(addr, val)?;
        Ok(())
    }

    /// Reads the byte at `addr`.
    pub fn read_u8(&self, addr: u16) -> (r: Result<u8, Error>)
        ensures
            r == read8_spec(self@, addr),
    {
        let byte = self.read_ram(addr)?;
        if addr == LY_REGISTER {
            // There is no picture unit: the scan line always reads as in vertical blank.
            return Ok(LY_VBLANK);
        }
        Ok(byte)
    }

    /// Writes one byte at `addr` through the region policy.
    pub fn write_u8(&mut self, addr: u16, val: u8) -> (r: Result<(), Error>)
        ensures
            (final(self)@, r) == write8_spec(old(self)@, addr, val),
    {
        if addr <= 0xfeff {
            self.write_ram(addr, val)
        } else {
            self.write_io_register(addr, val)
        }
    }

    /// Writes a little-endian word at `addr`.
    pub fn write_u16(&mut self, addr: u16, val: u16) -> (r: Result<(), Error>)
        ensures
            (final(self)@, r) == write16_spec(old(self)@, addr, val),
    {
        let high = (val / 256) as u8;
        let low = (val % 256) as u8;
        self.write_u8(addr.wrapping_add(1), high)?;
        self.write_u8(addr, low)?;
        Ok(())
    }

    /// Reads the byte at `addr` as a two's-complement signed value.
    pub fn read_i8(&self, addr: u16) -> (r: Result<i8, Error>)
        ensures
            r == (match read8_spec(self@, addr) {
                Ok(b) => Ok(b as i8),
                Err(e) => Err(e),
            }),
    {
        Ok(self.read_u8(addr)? as i8)
    }

    /// Reads a little-endian word at `addr`.
    pub fn read_u16(&self, addr: u16) -> (r: Result<u16, Error>)
        ensures
            r == read16_spec(self@, addr),
    {
        let first = self.read_u8(addr)?;
        let second = self.read_u8(addr.wrapping_add(1))?;
        Ok(first as u16 + (second as u16) * 256)
    }
}

} // verus!
