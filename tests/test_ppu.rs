use gbrust::cpu::CPU;
use gbrust::ppu::{DARKEST_GREEN, DARK_GREEN, HEIGHT, LIGHTEST_GREEN, LIGHT_GREEN, WIDTH};

/// A 32 KiB ROM without a controller, `program` at 0x0100.
fn rom_with(program: &[u8]) -> Vec<u8> {
    let mut rom = vec![0u8; 0x8000];
    rom[0x100..0x100 + program.len()].copy_from_slice(program);
    rom
}

#[test]
fn test_ppu() {
    // fills tile 0 with rows (lo 0xf0, hi 0xcc), sets BGP to 0xe4 and spins;
    // the background map is all tile 0
    let program = [
        0x3e, 0xe4, // LD A,0xE4
        0xe0, 0x47, // LDH (0x47),A
        0x21, 0x00, 0x80, // LD HL,0x8000
        0x06, 0x08, // LD B,8
        0x3e, 0xf0, // loop: LD A,0xF0
        0x22, // LD (HL+),A
        0x3e, 0xcc, // LD A,0xCC
        0x22, // LD (HL+),A
        0x05, // DEC B
        0x20, 0xf7, // JR NZ,loop
        0x18, 0xfe, // JR -2
    ];
    let frames: u64 = 3;
    let mut cpu = CPU::new(rom_with(&program)).unwrap();
    let steps: u64 = 456 * 154 * frames;
    for _ in 1..=steps {
        cpu.step().unwrap();
    }
    // color numbers by column: 3 3 1 1 2 2 0 0, through BGP 0xe4
    let row = [
        DARKEST_GREEN,
        DARKEST_GREEN,
        LIGHT_GREEN,
        LIGHT_GREEN,
        DARK_GREEN,
        DARK_GREEN,
        LIGHTEST_GREEN,
        LIGHTEST_GREEN,
    ];
    let buffer = cpu.framebuffer();
    assert_eq!(buffer.len(), WIDTH * HEIGHT);
    for y in 0..HEIGHT {
        for x in 0..WIDTH {
            assert_eq!(buffer[y * WIDTH + x], row[x % 8], "pixel {} {}", x, y);
        }
    }
}
