use gbemu::error::Error;
use gbemu::mem::{Mmu, BOOT_FINISHED};

#[test]
fn empty_memory_reads_vblank_from_the_scan_line_register() {
    let mmu = Mmu::empty();
    assert_eq!(mmu.bytes().len(), 0x10000);
    assert_eq!(mmu.read_u8(0xff44), Ok(0x90));
    assert_eq!(mmu.read_u8(0x0000), Ok(0));
    assert_eq!(mmu.read_u8(0xffff), Ok(0));
}

#[test]
fn word_round_trip_is_little_endian() {
    let mut mmu = Mmu::empty();
    assert_eq!(mmu.write_u16(0x1234, 0xbeef), Ok(()));
    assert_eq!(mmu.read_u16(0x1234), Ok(0xbeef));
    assert_eq!(mmu.read_u8(0x1234), Ok(0xef));
    assert_eq!(mmu.read_u8(0x1235), Ok(0xbe));
}

#[test]
fn word_at_the_top_wraps_to_address_zero() {
    let mut mmu = Mmu::empty();
    assert_eq!(mmu.write_u16(0xffff, 0x1234), Ok(()));
    assert_eq!(mmu.read_u8(0xffff), Ok(0x34));
    assert_eq!(mmu.read_u8(0x0000), Ok(0x12));
    assert_eq!(mmu.read_u16(0xffff), Ok(0x1234));
}

#[test]
fn signed_read_is_twos_complement() {
    let mmu = Mmu::with_mem(vec![0xfb, 0x05]);
    assert_eq!(mmu.read_i8(0), Ok(-5));
    assert_eq!(mmu.read_i8(1), Ok(5));
}

#[test]
fn boot_rom_disable_register_aborts() {
    let mut mmu = Mmu::empty();
    assert_eq!(mmu.write_u8(0xff50, 1), Err(Error::Abort(BOOT_FINISHED)));
    assert_eq!(mmu.read_u8(0xff50), Ok(0));
    assert_eq!(mmu.write_u16(0xff4f, 0x0101), Err(Error::Abort(BOOT_FINISHED)));
}

#[test]
fn other_io_writes_reach_memory() {
    let mut mmu = Mmu::empty();
    assert_eq!(mmu.write_u8(0xff47, 0xfc), Ok(()));
    assert_eq!(mmu.read_u8(0xff47), Ok(0xfc));
    assert_eq!(mmu.write_u8(0x8000, 0x12), Ok(()));
    assert_eq!(mmu.read_u8(0x8000), Ok(0x12));
}

#[test]
fn accesses_past_the_backing_memory_fail() {
    let mut mmu = Mmu::with_mem(vec![1, 2, 3]);
    assert_eq!(mmu.read_u8(3), Err(Error::InvalidReadFromMemoryLocation(3)));
    assert_eq!(mmu.write_u8(7, 0), Err(Error::InvalidWriteToMemoryLocation(7)));
    assert_eq!(mmu.read_u16(2), Err(Error::InvalidReadFromMemoryLocation(3)));
    assert_eq!(mmu.write_u16(2, 0xffff), Err(Error::InvalidWriteToMemoryLocation(3)));
    assert_eq!(mmu.bytes(), &vec![1, 2, 3]);
}

#[test]
fn boot_rom_overlays_the_game_rom() {
    let mut mmu = Mmu::empty();
    mmu.load_game_rom(&vec![0xaa; 0x8000]);
    mmu.load_boot_rom(&vec![0x31; 0x100]);
    assert_eq!(mmu.read_u8(0x00ff), Ok(0x31));
    assert_eq!(mmu.read_u8(0x0100), Ok(0xaa));
    assert_eq!(mmu.read_u8(0x7fff), Ok(0xaa));
    assert_eq!(mmu.read_u8(0x8000), Ok(0));
    assert_eq!(mmu.read_u8(0xff44), Ok(0x90));
}

#[test]
fn scan_line_register_always_reads_vblank() {
    let mut mmu = Mmu::empty();
    assert_eq!(mmu.write_u8(0xff44, 0), Ok(()));
    assert_eq!(mmu.read_u8(0xff44), Ok(0x90));
    assert_eq!(mmu.write_u16(0xff43, 0x1234), Ok(()));
    assert_eq!(mmu.read_u8(0xff43), Ok(0x34));
    assert_eq!(mmu.read_u8(0xff44), Ok(0x90));
    assert_eq!(mmu.read_u16(0xff43), Ok(0x9034));
}

#[test]
fn scan_line_register_reads_vblank_from_any_backing_memory() {
    let mmu = Mmu::with_mem(vec![0; 0x10000]);
    assert_eq!(mmu.read_u8(0xff44), Ok(0x90));
    let short = Mmu::with_mem(vec![0; 0x100]);
    assert_eq!(short.read_u8(0xff44), Err(Error::InvalidReadFromMemoryLocation(0xff44)));
}
