use gbemu::cpu::Cpu;
use gbemu::error::Error;
use gbemu::mem::Mmu;

fn machine(program: &[u8]) -> (Cpu, Mmu) {
    let mut mmu = Mmu::empty();
    for (i, b) in program.iter().enumerate() {
        mmu.write_u8(i as u16, *b).unwrap();
    }
    (Cpu::default(), mmu)
}

#[test]
fn load_then_xor_clears_a() {
    let (mut cpu, mut mmu) = machine(&[0x3e, 0x05, 0xaf]);
    assert_eq!(cpu.step(&mut mmu), Ok(()));
    assert_eq!(cpu.a, 5);
    assert_eq!(cpu.pc, 2);
    assert_eq!(cpu.step(&mut mmu), Ok(()));
    assert_eq!(cpu.a, 0);
    assert_eq!(cpu.pc, 3);
    // XOR leaves every flag as it was.
    assert!(!cpu.flags.zero);
    cpu.flags.zero = true;
    cpu.pc = 2;
    assert_eq!(cpu.step(&mut mmu), Ok(()));
    assert!(cpu.flags.zero);
}

#[test]
fn register_pairs_split_big_endian() {
    let mut cpu = Cpu::default();
    cpu.set_bc((0x12u16 << 8) | 0x34);
    assert_eq!(cpu.b, 0x12);
    assert_eq!(cpu.c, 0x34);
    cpu.d = 0xab;
    cpu.e = 0xcd;
    assert_eq!(cpu.get_de(), 0xabcd);
    cpu.set_hl(0x8000);
    assert_eq!((cpu.h, cpu.l), (0x80, 0x00));
    assert_eq!(cpu.get_hl(), 0x8000);
}

#[test]
fn push_then_pop_restores_value_and_stack_pointer() {
    // LD SP,$fffe ; LD BC,$1234 ; PUSH BC ; LD BC,$0000 ; POP BC
    let (mut cpu, mut mmu) = machine(&[0x31, 0xfe, 0xff, 0x01, 0x34, 0x12, 0xc5, 0x01, 0x00, 0x00, 0xc1]);
    cpu.step(&mut mmu).unwrap();
    cpu.step(&mut mmu).unwrap();
    assert_eq!(cpu.get_bc(), 0x1234);
    cpu.step(&mut mmu).unwrap();
    assert_eq!(cpu.sp, 0xfffc);
    assert_eq!(mmu.read_u16(0xfffd), Ok(0x1234));
    cpu.step(&mut mmu).unwrap();
    assert_eq!(cpu.get_bc(), 0);
    cpu.step(&mut mmu).unwrap();
    assert_eq!(cpu.get_bc(), 0x1234);
    assert_eq!(cpu.sp, 0xfffe);
}

#[test]
fn relative_jump_not_zero() {
    let (mut cpu, mut mmu) = machine(&[0x20, 0x05]);
    cpu.flags.zero = true;
    cpu.step(&mut mmu).unwrap();
    assert_eq!(cpu.pc, 2);

    let (mut cpu, mut mmu) = machine(&[0x20, 0x05]);
    cpu.flags.zero = false;
    cpu.step(&mut mmu).unwrap();
    assert_eq!(cpu.pc, 7);

    let (mut cpu, mut mmu) = machine(&[0x20, 0xfe]);
    cpu.step(&mut mmu).unwrap();
    assert_eq!(cpu.pc, 0);
}

#[test]
fn unknown_opcode_changes_nothing() {
    let (mut cpu, mut mmu) = machine(&[0xff]);
    cpu.a = 7;
    let before = mmu.bytes().clone();
    assert_eq!(cpu.step(&mut mmu), Err(Error::UnknownInstruction(0xff)));
    assert_eq!(cpu.pc, 0);
    assert_eq!(cpu.a, 7);
    assert_eq!(mmu.bytes(), &before);
}

#[test]
fn add_sets_half_carry_and_carry() {
    // LD A,$0f ; LD B,$f1 ; ADD A,B
    let (mut cpu, mut mmu) = machine(&[0x3e, 0x0f, 0x06, 0xf1, 0x80]);
    for _ in 0..3 {
        cpu.step(&mut mmu).unwrap();
    }
    assert_eq!(cpu.a, 0x00);
    assert!(cpu.flags.zero);
    assert!(!cpu.flags.subtract);
    assert!(cpu.flags.half_carry);
    assert!(cpu.flags.carry);
}

#[test]
fn sub_stores_and_compare_discards() {
    // LD A,$03 ; LD B,$05 ; CP A,B ; SUB A,B
    let (mut cpu, mut mmu) = machine(&[0x3e, 0x03, 0x06, 0x05, 0xb8, 0x90]);
    for _ in 0..3 {
        cpu.step(&mut mmu).unwrap();
    }
    assert_eq!(cpu.a, 0x03);
    assert!(cpu.flags.carry);
    assert!(cpu.flags.subtract);
    assert!(!cpu.flags.zero);
    cpu.step(&mut mmu).unwrap();
    assert_eq!(cpu.a, 0xfe);
    assert!(cpu.flags.carry);
    assert!(!cpu.flags.half_carry);
}

#[test]
fn compare_with_immediate_sets_zero_on_equal() {
    let (mut cpu, mut mmu) = machine(&[0xfe, 0x90]);
    cpu.a = 0x90;
    cpu.step(&mut mmu).unwrap();
    assert!(cpu.flags.zero);
    assert!(!cpu.flags.carry);
    assert_eq!(cpu.pc, 2);
}

#[test]
fn decrement_flags() {
    let (mut cpu, mut mmu) = machine(&[0x05, 0x05]);
    cpu.b = 1;
    cpu.step(&mut mmu).unwrap();
    assert_eq!(cpu.b, 0);
    assert!(cpu.flags.zero);
    assert!(cpu.flags.subtract);
    assert!(cpu.flags.half_carry);
    cpu.step(&mut mmu).unwrap();
    assert_eq!(cpu.b, 0xff);
    assert!(!cpu.flags.zero);
    assert!(!cpu.flags.half_carry);
}

#[test]
fn increments_wrap() {
    let (mut cpu, mut mmu) = machine(&[0x3c, 0x03]);
    cpu.a = 0xff;
    cpu.set_bc(0xffff);
    cpu.step(&mut mmu).unwrap();
    assert_eq!(cpu.a, 0);
    assert!(!cpu.flags.zero);
    cpu.step(&mut mmu).unwrap();
    assert_eq!(cpu.get_bc(), 0);
}

#[test]
fn bit_test_reflects_a_clear_bit_in_zero() {
    let (mut cpu, mut mmu) = machine(&[0xcb, 0x7c, 0xcb, 0x7c]);
    cpu.h = 0x80;
    cpu.step(&mut mmu).unwrap();
    assert!(!cpu.flags.zero);
    assert!(cpu.flags.half_carry);
    assert!(!cpu.flags.subtract);
    cpu.h = 0x7f;
    cpu.step(&mut mmu).unwrap();
    assert!(cpu.flags.zero);
}

#[test]
fn rotate_left_with_carry_wraps_bit_seven() {
    let (mut cpu, mut mmu) = machine(&[0xcb, 0x00]);
    cpu.b = 0x85;
    cpu.step(&mut mmu).unwrap();
    assert_eq!(cpu.b, 0x0b);
    assert!(cpu.flags.carry);
    assert!(!cpu.flags.zero);
}

#[test]
fn rotate_left_ors_in_the_old_carry() {
    let (mut cpu, mut mmu) = machine(&[0x17, 0x17]);
    cpu.a = 0x80;
    cpu.flags.carry = false;
    cpu.step(&mut mmu).unwrap();
    assert_eq!(cpu.a, 0x01);
    assert!(cpu.flags.carry);
    cpu.a = 0x80;
    cpu.flags.carry = true;
    cpu.step(&mut mmu).unwrap();
    assert_eq!(cpu.a, 0x01);
    assert!(cpu.flags.carry);
}

#[test]
fn call_then_return() {
    // LD SP,$fffe ; CALL $0010 ; ... at $0010: RET
    let mut program = vec![0x31, 0xfe, 0xff, 0xcd, 0x10, 0x00];
    program.resize(0x10, 0);
    program.push(0xc9);
    let (mut cpu, mut mmu) = machine(&program);
    cpu.step(&mut mmu).unwrap();
    cpu.step(&mut mmu).unwrap();
    assert_eq!(cpu.pc, 0x0010);
    assert_eq!(cpu.sp, 0xfffc);
    assert_eq!(mmu.read_u16(0xfffd), Ok(0x0006));
    cpu.step(&mut mmu).unwrap();
    assert_eq!(cpu.pc, 0x0006);
    assert_eq!(cpu.sp, 0xfffe);
}

#[test]
fn conditional_return_not_taken() {
    let (mut cpu, mut mmu) = machine(&[0xc0]);
    cpu.flags.zero = true;
    cpu.sp = 0x1000;
    cpu.step(&mut mmu).unwrap();
    assert_eq!(cpu.pc, 1);
    assert_eq!(cpu.sp, 0x1000);
}

#[test]
fn store_with_post_decrement_moves_hl() {
    let (mut cpu, mut mmu) = machine(&[0x32, 0x2a]);
    cpu.a = 0x42;
    cpu.set_hl(0x9fff);
    cpu.step(&mut mmu).unwrap();
    assert_eq!(mmu.read_u8(0x9fff), Ok(0x42));
    assert_eq!(cpu.get_hl(), 0x9ffe);
    cpu.set_hl(0x9fff);
    cpu.a = 0;
    cpu.step(&mut mmu).unwrap();
    assert_eq!(cpu.a, 0x42);
    assert_eq!(cpu.get_hl(), 0xa000);
}

#[test]
fn high_page_store() {
    let (mut cpu, mut mmu) = machine(&[0xe2, 0xe0, 0x47]);
    cpu.a = 0x77;
    cpu.c = 0x11;
    cpu.step(&mut mmu).unwrap();
    assert_eq!(mmu.read_u8(0xff11), Ok(0x77));
    cpu.step(&mut mmu).unwrap();
    assert_eq!(mmu.read_u8(0xff47), Ok(0x77));
}

#[test]
fn writing_the_boot_rom_disable_register_aborts_a_step() {
    let (mut cpu, mut mmu) = machine(&[0xe0, 0x50]);
    assert_eq!(
        cpu.step(&mut mmu),
        Err(Error::Abort("Bootrom finished, aborting for now"))
    );
}

#[test]
fn read_outside_backing_memory_fails_the_step() {
    let mut mmu = Mmu::with_mem(vec![0x7e]);
    let mut cpu = Cpu::default();
    cpu.set_hl(0x0100);
    assert_eq!(cpu.step(&mut mmu), Err(Error::InvalidReadFromMemoryLocation(0x0100)));
}

#[test]
fn loading_from_the_scan_line_register_gives_vblank() {
    // LD A,$00 ; LD ($ff44),A ; LD A,($ff44)
    let (mut cpu, mut mmu) = machine(&[0x3e, 0x00, 0xea, 0x44, 0xff, 0xfa, 0x44, 0xff]);
    for _ in 0..3 {
        cpu.step(&mut mmu).unwrap();
    }
    assert_eq!(cpu.a, 0x90);
}
