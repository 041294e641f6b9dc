use gbrust::catridge::CatridgeError;
use gbrust::cpu::{IllegalOpcode, CPU};

/// A 32 KiB ROM without a controller, `program` at 0x0100.
fn rom_with(program: &[u8]) -> Vec<u8> {
    let mut rom = vec![0u8; 0x8000];
    rom[0x100..0x100 + program.len()].copy_from_slice(program);
    rom
}

fn run(program: &[u8], steps: usize) -> CPU {
    let mut cpu = CPU::new(rom_with(program)).unwrap();
    for _ in 0..steps {
        cpu.step().unwrap();
    }
    cpu
}

#[test]
fn post_boot_registers() {
    let cpu = CPU::new(rom_with(&[])).unwrap();
    assert_eq!(cpu.pc(), 0x0100);
    assert_eq!(cpu.sp(), 0xfffe);
    assert_eq!(cpu.af(), 0x01b0);
    assert_eq!(cpu.bc(), 0x0013);
    assert_eq!(cpu.de(), 0x00d8);
    assert_eq!(cpu.hl(), 0x014d);
    assert_eq!(cpu.mmu.read_byte(0xff40), 0x91);
}

#[test]
fn add_sp_half_carry() {
    // LD SP,0x000F ; ADD SP,1
    let cpu = run(&[0x31, 0x0f, 0x00, 0xe8, 0x01], 2);
    assert_eq!(cpu.sp(), 0x0010);
    // Z=0 N=0 H=1 C=0
    assert_eq!(cpu.af() & 0x00ff, 0x20);
}

#[test]
fn add_sp_negative_offset() {
    // LD SP,0x0100 ; ADD SP,-1
    let cpu = run(&[0x31, 0x00, 0x01, 0xe8, 0xff], 2);
    assert_eq!(cpu.sp(), 0x00ff);
    assert_eq!(cpu.af() & 0x00ff, 0x00);
}

#[test]
fn adc_flags_with_carry_in() {
    // LD A,0x0F ; SCF ; ADC A,0
    let cpu = run(&[0x3e, 0x0f, 0x37, 0xce, 0x00], 3);
    assert_eq!(cpu.af(), 0x1020);
    // LD A,0xFF ; SCF ; ADC A,0
    let cpu = run(&[0x3e, 0xff, 0x37, 0xce, 0x00], 3);
    assert_eq!(cpu.af(), 0x00b0);
}

#[test]
fn cp_half_borrow() {
    // LD A,0x10 ; CP 0x01
    let cpu = run(&[0x3e, 0x10, 0xfe, 0x01], 2);
    assert_eq!(cpu.af(), 0x1060);
}

#[test]
fn sbc_and_daa() {
    // LD A,0x15 ; ADD A,0x27 ; DAA   (BCD 15 + 27 = 42)
    let cpu = run(&[0x3e, 0x15, 0xc6, 0x27, 0x27], 3);
    assert_eq!(cpu.af() >> 8, 0x42);
    // LD A,0x00 ; SCF ; SBC A,0x00  -> 0xFF, N H C
    let cpu = run(&[0x3e, 0x00, 0x37, 0xde, 0x00], 3);
    assert_eq!(cpu.af(), 0xff70);
}

#[test]
fn push_pop_round_trip() {
    // LD BC,0x1234 ; PUSH BC ; POP DE
    let cpu = run(&[0x01, 0x34, 0x12, 0xc5, 0xd1], 3);
    assert_eq!(cpu.de(), 0x1234);
    assert_eq!(cpu.sp(), 0xfffe);
}

#[test]
fn pop_af_clears_low_nibble() {
    // LD BC,0x12FF ; PUSH BC ; POP AF
    let cpu = run(&[0x01, 0xff, 0x12, 0xc5, 0xf1], 3);
    assert_eq!(cpu.af(), 0x12f0);
}

#[test]
fn store_sp_reads_back() {
    // LD SP,0xBEEF ; LD (0xC000),SP
    let cpu = run(&[0x31, 0xef, 0xbe, 0x08, 0x00, 0xc0], 2);
    assert_eq!(cpu.mmu.read_byte(0xc000), 0xef);
    assert_eq!(cpu.mmu.read_byte(0xc001), 0xbe);
}

#[test]
fn pc_advances_by_length() {
    // LD BC,nn (3) ; LD A,n (2) ; INC A (1) ; CB SWAP A (2)
    let mut cpu = CPU::new(rom_with(&[0x01, 0x00, 0x00, 0x3e, 0x12, 0x3c, 0xcb, 0x37])).unwrap();
    cpu.step().unwrap();
    assert_eq!(cpu.pc(), 0x0103);
    cpu.step().unwrap();
    assert_eq!(cpu.pc(), 0x0105);
    cpu.step().unwrap();
    assert_eq!(cpu.pc(), 0x0106);
    cpu.step().unwrap();
    assert_eq!(cpu.pc(), 0x0108);
    assert_eq!(cpu.af() >> 8, 0x31);
}

#[test]
fn conditional_branch_clocks() {
    // XOR A (Z set) ; JR NZ,+2 (not taken: 8) ; JR Z,+0 (taken: 12)
    let mut cpu = CPU::new(rom_with(&[0xaf, 0x20, 0x02, 0x28, 0x00])).unwrap();
    assert_eq!(cpu.step().unwrap(), 4);
    assert_eq!(cpu.step().unwrap(), 8);
    assert_eq!(cpu.pc(), 0x0103);
    assert_eq!(cpu.step().unwrap(), 12);
    assert_eq!(cpu.pc(), 0x0105);
}

#[test]
fn halt_wakes_without_ime() {
    let program = [
        0xaf, // XOR A
        0xe0, 0x40, // LDH (0x40),A   LCD off
        0xe0, 0x0f, // LDH (0x0F),A   IF = 0
        0x3c, // INC A
        0xe0, 0xff, // LDH (0xFF),A   IE = 1
        0x76, // HALT
        0x00, // NOP
    ];
    let mut cpu = run(&program, 6);
    assert!(cpu.halted());
    assert_eq!(cpu.pc(), 0x0109);
    assert_eq!(cpu.step().unwrap(), 4);
    assert!(cpu.halted());
    cpu.mmu.write_byte(0xff0f, 0x01);
    cpu.step().unwrap();
    assert!(!cpu.halted());
    assert_eq!(cpu.pc(), 0x0109);
    cpu.step().unwrap();
    assert_eq!(cpu.pc(), 0x010a);
}

#[test]
fn interrupt_dispatch_lowest_first() {
    let program = [
        0xaf, // XOR A
        0xe0, 0x40, // LDH (0x40),A   LCD off
        0x3e, 0x05, // LD A,5
        0xe0, 0xff, // LDH (0xFF),A   IE = 0x05
        0xe0, 0x0f, // LDH (0x0F),A   IF = 0x05
        0xfb, // EI
    ];
    let mut cpu = run(&program, 5);
    // the EI step dispatches VBlank first
    let clocks = cpu.step().unwrap();
    assert_eq!(clocks, 4 + 20);
    assert_eq!(cpu.pc(), 0x0040);
    assert!(!cpu.ime());
    assert_eq!(cpu.mmu.interrupt_flag(), 0x04);
    assert_eq!(cpu.sp(), 0xfffc);
    assert_eq!(cpu.mmu.read_byte(0xfffc), 0x0a);
    assert_eq!(cpu.mmu.read_byte(0xfffd), 0x01);
}

#[test]
fn illegal_opcode_stops() {
    let mut cpu = CPU::new(rom_with(&[0x00, 0xd3])).unwrap();
    cpu.step().unwrap();
    assert_eq!(cpu.step(), Err(IllegalOpcode { opcode: 0xd3, address: 0x0101 }));
}

#[test]
fn rom_header_errors() {
    assert_eq!(CPU::new(vec![0u8; 0x100]).err(), Some(CatridgeError::MissingHeader));
    let mut rom = vec![0u8; 0x8000];
    rom[0x147] = 0x05;
    assert_eq!(CPU::new(rom).err(), Some(CatridgeError::UnsupportedType(0x05)));
    let mut rom = vec![0u8; 0x8000];
    rom[0x149] = 0x07;
    assert_eq!(CPU::new(rom).err(), Some(CatridgeError::InvalidRamSize(0x07)));
}

#[test]
fn boot_rom_is_mapped_until_unlatched() {
    let mut boot = vec![0u8; 0x100];
    boot[0] = 0x3e; // LD A,1
    boot[1] = 0x01;
    boot[2] = 0xe0; // LDH (0x50),A
    boot[3] = 0x50;
    let mut rom = rom_with(&[]);
    rom[0] = 0x99;
    let mut cpu = CPU::new_with_boot_rom(boot, rom).unwrap();
    assert_eq!(cpu.pc(), 0);
    assert!(cpu.mmu.boot_rom_enabled());
    assert_eq!(cpu.mmu.read_byte(0x0000), 0x3e);
    cpu.step().unwrap();
    cpu.step().unwrap();
    assert!(!cpu.mmu.boot_rom_enabled());
    assert_eq!(cpu.mmu.read_byte(0x0000), 0x99);
}
