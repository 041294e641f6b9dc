use gbrust::catridge::Catridge;
use gbrust::mmu::Mmu;
use gbrust::ppu::PPU;
use gbrust::timer::Timer;

fn plain_rom() -> Vec<u8> {
    vec![0u8; 0x8000]
}

/// A 2 MiB MBC1 ROM whose banks start with their own number, with 8 KiB RAM.
fn mbc1_rom() -> Vec<u8> {
    let mut rom = vec![0u8; 2 * 1024 * 1024];
    for bank in 0..128usize {
        rom[bank * 0x4000] = bank as u8;
    }
    rom[0x147] = 0x01;
    rom[0x149] = 0x02;
    rom
}

#[test]
fn timer_overflow_reloads_tma() {
    let mut mmu = Mmu::new(plain_rom()).unwrap();
    mmu.write_byte(0xff40, 0x00);
    mmu.write_byte(0xff06, 0xab);
    mmu.write_byte(0xff05, 0xff);
    mmu.write_byte(0xff07, 0x05);
    mmu.write_byte(0xff0f, 0x00);
    mmu.step(16);
    assert_eq!(mmu.read_byte(0xff05), 0xab);
    assert_ne!(mmu.read_byte(0xff0f) & 0x04, 0);
}

#[test]
fn timer_counts_edges_of_selected_bit() {
    let mut timer = Timer::new();
    timer.write_byte(0xff07, 0x04); // enabled, every 1024 clocks
    timer.step(1023);
    assert_eq!(timer.read_byte(0xff05), 0);
    timer.step(1);
    assert_eq!(timer.read_byte(0xff05), 1);
    assert_eq!(timer.read_byte(0xff04), 4);
    timer.write_byte(0xff07, 0x06); // every 64 clocks
    timer.step(64 * 10);
    assert_eq!(timer.read_byte(0xff05), 11);
    assert!(!timer.irq_pending());
}

#[test]
fn timer_overflow_twice_in_one_step() {
    let mut timer = Timer::new();
    timer.write_byte(0xff06, 0xfe);
    timer.write_byte(0xff05, 0xff);
    timer.write_byte(0xff07, 0x05); // every 16 clocks
    // 4 increments: 0xff -> 0xfe (reload) -> 0xff -> 0xfe (reload) -> 0xff
    timer.step(64);
    assert_eq!(timer.read_byte(0xff05), 0xff);
    assert!(timer.irq_pending());
}

#[test]
fn div_write_resets_counter() {
    let mut mmu = Mmu::new(plain_rom()).unwrap();
    mmu.write_byte(0xff07, 0x00);
    mmu.step(1000);
    assert_eq!(mmu.read_byte(0xff04), 3);
    mmu.write_byte(0xff04, 0x5a);
    assert_eq!(mmu.read_byte(0xff04), 0);
    mmu.step(255);
    assert_eq!(mmu.read_byte(0xff04), 0);
}

#[test]
fn mbc1_bank_translation() {
    let mut cart = Catridge::new(mbc1_rom()).unwrap();
    assert_eq!(cart.read(0x4000), 1);
    // ROM banking mode, upper bits 1, lower bits from 0x20: bank 0x20 -> 0x21
    cart.write(0x6000, 0x00);
    cart.write(0x4000, 0x01);
    cart.write(0x2000, 0x20);
    assert_eq!(cart.read(0x4000), 0x21);
    cart.write(0x2000, 0x05);
    assert_eq!(cart.read(0x4000), 0x25);
}

#[test]
fn mbc1_low_bits_zero_select_bank_one() {
    let mut cart = Catridge::new(mbc1_rom()).unwrap();
    cart.write(0x2000, 0x07);
    assert_eq!(cart.read(0x4000), 7);
    // 0x20 has no bits among the low five: bank 0, which reads as bank 1
    cart.write(0x2000, 0x20);
    assert_eq!(cart.read(0x4000), 1);
    cart.write(0x2000, 0x00);
    assert_eq!(cart.read(0x4000), 1);
    assert_eq!(cart.read(0x0000), 0);
}

#[test]
fn mbc1_ram_round_trip() {
    let mut mmu = Mmu::new(mbc1_rom()).unwrap();
    mmu.write_byte(0xa010, 0x42);
    assert_eq!(mmu.read_byte(0xa010), 0xff);
    mmu.write_byte(0x0000, 0x0a);
    mmu.write_byte(0xa010, 0x42);
    assert_eq!(mmu.read_byte(0xa010), 0x42);
    mmu.write_byte(0x0000, 0x00);
    assert_eq!(mmu.read_byte(0xa010), 0xff);
}

#[test]
fn memory_round_trip() {
    let mut mmu = Mmu::new(plain_rom()).unwrap();
    for (address, value) in [(0xc123u16, 0x11u8), (0xdfff, 0x22), (0xff80, 0x33), (0xfffe, 0x44), (0x8000, 0x55), (0x9fff, 0x66), (0xfe00, 0x77), (0xfe9f, 0x88)] {
        mmu.write_byte(address, value);
        assert_eq!(mmu.read_byte(address), value);
    }
    // echo RAM mirrors work RAM
    mmu.write_byte(0xe123, 0x99);
    assert_eq!(mmu.read_byte(0xc123), 0x99);
    // unused area and ROM ignore writes
    mmu.write_byte(0xfea0, 0x12);
    assert_eq!(mmu.read_byte(0xfea0), 0xff);
    mmu.write_byte(0x1234, 0x12);
    assert_eq!(mmu.read_byte(0x1234), 0x00);
}

#[test]
fn oam_dma_copies_160_bytes() {
    let mut mmu = Mmu::new(plain_rom()).unwrap();
    for i in 0..0xa0u16 {
        mmu.write_byte(0xc100 + i, i as u8 ^ 0x5a);
    }
    mmu.write_byte(0xff46, 0xc1);
    for i in 0..0xa0u16 {
        assert_eq!(mmu.read_byte(0xfe00 + i), i as u8 ^ 0x5a);
    }
}

#[test]
fn serial_output_is_captured() {
    let mut mmu = Mmu::new(plain_rom()).unwrap();
    for b in b"Passed" {
        mmu.write_byte(0xff01, *b);
    }
    assert_eq!(mmu.serial_output().as_slice(), b"Passed");
}

#[test]
fn one_vblank_per_frame() {
    let mut ppu = PPU::new();
    let mut raised_at: Vec<u64> = Vec::new();
    for clock in 1..=3 * 70224u64 {
        ppu.step(1);
        if ppu.vblank_pending() {
            raised_at.push(clock);
            ppu.clear_vblank();
        }
    }
    assert_eq!(raised_at, vec![65664, 65664 + 70224, 65664 + 2 * 70224]);
    assert_eq!(ppu.read(0xff44), 0);
}

#[test]
fn lcd_off_freezes_ppu() {
    let mut ppu = PPU::new();
    ppu.step(100);
    assert_eq!(ppu.read(0xff41) & 0x03, 3);
    ppu.write(0xff40, 0x00);
    ppu.step(10_000);
    assert_eq!(ppu.read(0xff41) & 0x03, 3);
    assert_eq!(ppu.read(0xff44), 0);
}

#[test]
fn sprite_drawn_over_background() {
    let mut ppu = PPU::new();
    // sprites on, background on, palettes identity
    ppu.write(0xff40, 0x83);
    ppu.write(0xff47, 0xe4);
    ppu.write(0xff48, 0xe4);
    // tile 1: every row lo 0xff, hi 0xff (color 3)
    for i in 0..16u16 {
        ppu.write(0x8010 + i, 0xff);
    }
    // sprite 0 at screen (8, 0), tile 1
    ppu.write(0xfe00, 16);
    ppu.write(0xfe01, 16);
    ppu.write(0xfe02, 1);
    ppu.write(0xfe03, 0);
    ppu.step(456);
    let row0 = &ppu.framebuffer()[0..160];
    assert_eq!(row0[7], gbrust::ppu::LIGHTEST_GREEN);
    assert_eq!(row0[8], gbrust::ppu::DARKEST_GREEN);
    assert_eq!(row0[15], gbrust::ppu::DARKEST_GREEN);
    assert_eq!(row0[16], gbrust::ppu::LIGHTEST_GREEN);
}

#[test]
fn window_covers_right_of_wx() {
    let mut ppu = PPU::new();
    // LCD, window (map 0x9c00), unsigned tile data, background on
    ppu.write(0xff40, 0xf1);
    ppu.write(0xff47, 0xe4);
    ppu.write(0xff4a, 0);
    ppu.write(0xff4b, 7 + 80);
    for i in 0..16u16 {
        ppu.write(0x8010 + i, 0xff);
    }
    for i in 0..0x400u16 {
        ppu.write(0x9c00 + i, 1);
    }
    ppu.step(456);
    let row0 = &ppu.framebuffer()[0..160];
    assert_eq!(row0[79], gbrust::ppu::LIGHTEST_GREEN);
    assert_eq!(row0[80], gbrust::ppu::DARKEST_GREEN);
    assert_eq!(row0[159], gbrust::ppu::DARKEST_GREEN);
}

#[test]
fn sprite_x_flip_and_ten_per_line() {
    let mut ppu = PPU::new();
    ppu.write(0xff40, 0x82);
    ppu.write(0xff48, 0xe4);
    // tile 1: only the leftmost pixel of each row, color 1
    for row in 0..8u16 {
        ppu.write(0x8010 + row * 2, 0x80);
    }
    // eleven sprites on line 0, eight columns apart; the first is flipped
    for i in 0..11u16 {
        ppu.write(0xfe00 + i * 4, 16);
        ppu.write(0xfe01 + i * 4, (8 + i * 8) as u8);
        ppu.write(0xfe02 + i * 4, 1);
        ppu.write(0xfe03 + i * 4, if i == 0 { 0x20 } else { 0 });
    }
    ppu.step(456);
    let row0 = &ppu.framebuffer()[0..160];
    assert_eq!(row0[0], gbrust::ppu::LIGHTEST_GREEN);
    assert_eq!(row0[7], gbrust::ppu::LIGHT_GREEN);
    for i in 1..10usize {
        assert_eq!(row0[i * 8], gbrust::ppu::LIGHT_GREEN);
    }
    // the eleventh sprite is past the limit of ten
    assert_eq!(row0[80], gbrust::ppu::LIGHTEST_GREEN);
}
