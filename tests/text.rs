use gbemu::cpu::Cpu;
use gbemu::debugger::{Debugger, RunAction};
use gbemu::error::Error;
use gbemu::instructions::{Cond, Instruction, Loc16, Loc8};
use gbemu::mem::Mmu;
use gbemu::register::Register;
use gbemu::text::disassemble_boot_rom;

#[test]
fn instruction_notation() {
    let ld = Instruction::Load8 { src: Loc8::IndHLDec, dst: Loc8::A };
    assert_eq!(ld.text(), "LD A,(HL-)");
    let jr = Instruction::JR { cond: Cond::NotZero, offset: -13 };
    assert_eq!(jr.text(), "JR NZ,$f3");
    let bit = Instruction::CheckBit { bit: 7, loc: Loc8::H };
    assert_eq!(bit.text(), "BIT 7,H");
    let ld16 = Instruction::Load16 { src: Loc16::U16(0xfffe), dst: Loc16::SP };
    assert_eq!(ld16.text(), "LD SP,$fffe");
    let io = Instruction::Load8 { src: Loc8::A, dst: Loc8::IOPlus(0x11) };
    assert_eq!(io.text(), "LD (FF00+$11),A");
    let call = Instruction::Call { cond: Cond::Always, addr: 0x95 };
    assert_eq!(call.text(), "CALL $0095");
    let ret = Instruction::Return { cond: Cond::Always };
    assert_eq!(ret.text(), "RET ");
    let cp = Instruction::Compare { loc: Loc8::U8(0x90) };
    assert_eq!(cp.text(), "CP A,$90");
    let st = Instruction::Load8 { src: Loc8::A, dst: Loc8::IndU16(0xff80) };
    assert_eq!(st.text(), "LD (ff80),A");
    let xor = Instruction::XOR { src: Loc8::A, dst: Loc8::A };
    assert_eq!(xor.text(), "XOR A,A");
}

#[test]
fn next_instruction_line() {
    let mmu = Mmu::with_mem(vec![0x00, 0x3e, 0x05]);
    let mut cpu = Cpu::default();
    cpu.pc = 1;
    assert_eq!(cpu.next_instruction_text(&mmu), Ok("0001    LD A,$05".to_string()));
    cpu.pc = 0;
    assert_eq!(cpu.next_instruction_text(&mmu), Err(Error::UnknownInstruction(0x00)));
}

#[test]
fn register_dump() {
    let mut cpu = Cpu::default();
    cpu.sp = 0xfffe;
    cpu.a = 0x0a;
    cpu.set_hl(0x9fff);
    cpu.flags.zero = true;
    let text = cpu.registers_text();
    assert!(text.starts_with("sp: fffe\npc: 0000\na: 0a\n"));
    assert!(text.contains("hl: 9fff\n"));
    assert!(text.ends_with(
        "flags: Flags { zero: true, subtract: false, half_carry: false, carry: false }\n"
    ));
}

#[test]
fn error_messages() {
    assert_eq!(Error::UnknownInstruction(0xd3).message(), "Unknown instruction `d3`");
    assert_eq!(Error::UnknownCbInstruction(0x20).message(), "Unknown instruction `cb 20`");
    assert_eq!(
        Error::InvalidReadFromMemoryLocation(0x1234).message(),
        "Invalid read from memory location `1234`"
    );
    assert_eq!(
        Error::InvalidWriteToMemoryLocation(0xff).message(),
        "Invalid write to memory location `00ff`"
    );
    assert_eq!(Error::Abort("Interrupt").message(), "Aborting, Interrupt");
    assert_eq!(Error::HaltNotSupported.message(), "HALT is not supported");
}

#[test]
fn register_names_ignore_case() {
    assert_eq!(Register::from_name("HL"), Some(Register::HL));
    assert_eq!(Register::from_name("a"), Some(Register::A));
    assert_eq!(Register::from_name("Pc"), Some(Register::PC));
    assert_eq!(Register::from_name("x"), None);
    assert_eq!(Register::from_name("hlx"), None);
    let mut cpu = Cpu::default();
    cpu.a = 0x3c;
    cpu.set_de(0x0104);
    assert_eq!(cpu.register_text(Register::A), "a = 3c");
    assert_eq!(cpu.register_text(Register::DE), "de = 0104");
}

#[test]
fn breakpoints_stop_a_run() {
    let mmu = Mmu::with_mem(vec![0x00; 16]);
    let mut dbg = Debugger::new(mmu, Cpu::default());
    assert_eq!(dbg.next_action(false), RunAction::Step);
    dbg.add_breakpoint(0);
    assert!(dbg.is_breakpoint(0));
    assert_eq!(dbg.next_action(false), RunAction::Breakpoint(0));
    assert_eq!(dbg.next_action(true), RunAction::Interrupted);
    dbg.clear_breakpoints();
    assert!(!dbg.is_breakpoint(0));
    assert_eq!(dbg.next_action(false), RunAction::Step);
}

#[test]
fn debugger_steps_the_machine() {
    let mmu = Mmu::with_mem(vec![0x3e, 0x05, 0xaf]);
    let mut dbg = Debugger::new(mmu, Cpu::default());
    assert_eq!(dbg.step(), Ok(()));
    assert_eq!(dbg.cpu().a, 5);
    assert_eq!(dbg.step(), Ok(()));
    assert_eq!(dbg.cpu().a, 0);
    assert_eq!(dbg.step(), Err(Error::InvalidReadFromMemoryLocation(3)));
    assert_eq!(dbg.mmu().read_u8(0), Ok(0x3e));
}

#[test]
fn boot_listing_shows_code_and_data() {
    let mut rom = vec![0x00u8; 0x100];
    // LD SP,$fffe ; XOR A,A ; then a jump over the rest of the code
    rom[0] = 0x31;
    rom[1] = 0xfe;
    rom[2] = 0xff;
    rom[3] = 0xaf;
    rom[4] = 0x18;
    rom[5] = 0x00;
    let mut mmu = Mmu::empty();
    mmu.load_boot_rom(&rom);
    let mut out = String::new();
    let r = disassemble_boot_rom(&mmu, &mut out);
    assert_eq!(r, Err(Error::UnknownInstruction(0x00)));
    assert_eq!(out, "0000    LD SP,$fffe\n0003    XOR A,A\n0004    JR $00\n");
}

#[test]
fn boot_listing_prints_the_data_table_as_bytes() {
    let mut rom = vec![0x3cu8; 0x100];
    for b in rom.iter_mut().take(0xe0).skip(0xa8) {
        *b = 0xce;
    }
    let mut mmu = Mmu::empty();
    mmu.load_boot_rom(&rom);
    let mut out = String::new();
    assert_eq!(disassemble_boot_rom(&mmu, &mut out), Ok(()));
    assert!(out.starts_with("0000    INC A\n0001    INC A\n"));
    let data = "ce ".repeat(0x38);
    assert!(out.contains(&format!("00a7    INC A\n{}\n00e0    INC A\n", data)));
    assert!(out.ends_with("00ff    INC A\n"));
}
