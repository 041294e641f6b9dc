use vstd::prelude::*;

use crate::catridge::{is_cartridge_address, load_spec, Catridge, CatridgeError, CatridgeState};
use crate::ppu::{is_ppu_address, ppu_power_up, PpuState, PPU};
use crate::timer::{is_timer_address, Timer, TimerState};

verus! {

/// What the memory bus holds, as plain values.
pub struct MmuState {
    pub boot_rom: Seq<u8>,
    pub catridge: CatridgeState,
    pub wram: Seq<u8>,
    pub hram: Seq<u8>,
    pub ppu: PpuState,
    pub timer: TimerState,
    pub boot_rom_enabled: bool,
    pub interrupt_flag: u8,
    pub interrupt_enable: u8,
    pub serial_port: Seq<u8>,
}

pub const WRAM_SIZE: usize = 0x2000;
pub const HRAM_SIZE: usize = 0x7f;

/// The number of bytes an OAM DMA transfer copies.
pub const OAM_SIZE: usize = 0xa0;

impl MmuState {
    pub open spec fn wf(self) -> bool {
        &&& self.ppu.wf()
        &&& self.wram.len() == WRAM_SIZE
        &&& self.hram.len() == HRAM_SIZE
    }

    /// The byte the CPU sees at `address`.
    #[verifier::opaque]
    pub open spec fn read(self, address: u16) -> u8 {
        if address <= 0x00ff && self.boot_rom_enabled {
            if (address as int) < self.boot_rom.len() {
                self.boot_rom[address as int]
            } else {
                0xff
            }
        } else if address <= 0x7fff {
            self.catridge.read(address)
        } else if address <= 0x9fff {
            self.ppu.read(address)
        } else if address <= 0xbfff {
            self.catridge.read(address)
        } else if address <= 0xdfff {
            self.wram[address - 0xc000]
        } else if address <= 0xfdff {
            // echo of work RAM
            self.wram[address - 0xe000]
        } else if address <= 0xfe9f {
            self.ppu.read(address)
        } else if is_timer_address(address) {
            self.timer.read(address)
        } else if address == 0xff0f {
            self.interrupt_flag
        } else if 0xff40 <= address <= 0xff4b && address != 0xff46 {
            self.ppu.read(address)
        } else if 0xff80 <= address <= 0xfffe {
            self.hram[address - 0xff80]
        } else if address == 0xffff {
            self.interrupt_enable
        } else {
            0xff
        }
    }

    /// The 160 bytes an OAM DMA transfer started with `value` copies.
    pub open spec fn dma_source(self, value: u8) -> Seq<u8> {
        Seq::new(OAM_SIZE as nat, |i: int| self.read((value * 256 + i) as u16))
    }

    /// The bus after the CPU writes `value` to `address`.
    #[verifier::opaque]
    pub open spec fn write(self, address: u16, value: u8) -> MmuState {
        if address <= 0x7fff || (0xa000 <= address <= 0xbfff) {
            MmuState { catridge: self.catridge.write(address, value), ..self }
        } else if address <= 0x9fff || (0xfe00 <= address <= 0xfe9f) {
            MmuState { ppu: self.ppu.write(address, value), ..self }
        } else if address <= 0xdfff {
            MmuState { wram: self.wram.update(address - 0xc000, value), ..self }
        } else if address <= 0xfdff {
            MmuState { wram: self.wram.update(address - 0xe000, value), ..self }
        } else if address == 0xff01 {
            MmuState { serial_port: self.serial_port.push(value), ..self }
        } else if is_timer_address(address) {
            MmuState { timer: self.timer.write(address, value), ..self }
        } else if address == 0xff0f {
            MmuState { interrupt_flag: value, ..self }
        } else if address == 0xff46 {
            MmuState { ppu: PpuState { oam: self.dma_source(value), ..self.ppu }, ..self }
        } else if 0xff40 <= address <= 0xff4b {
            MmuState { ppu: self.ppu.write(address, value), ..self }
        } else if address == 0xff50 {
            MmuState { boot_rom_enabled: false, ..self }
        } else if 0xff80 <= address <= 0xfffe {
            MmuState { hram: self.hram.update(address - 0xff80, value), ..self }
        } else if address == 0xffff {
            MmuState { interrupt_enable: value, ..self }
        } else {
            self
        }
    }

    /// The bus after `clocks` clocks: PPU and timer advance, and their
    /// requests are latched into IF (VBlank bit 0, timer bit 2).
    pub open spec fn step(self, clocks: nat) -> MmuState {
        let ppu = self.ppu.step(clocks);
        let timer = self.timer.step(clocks as int);
        let flag1 = if ppu.vblank {
            self.interrupt_flag | 0x01
        } else {
            self.interrupt_flag
        };
        let flag2 = if timer.irq {
            flag1 | 0x04
        } else {
            flag1
        };
        MmuState {
            ppu: PpuState { vblank: false, ..ppu },
            timer: TimerState { irq: false, ..timer },
            interrupt_flag: flag2,
            ..self
        }
    }
}

pub struct Mmu {
    boot_rom: Vec<u8>,
    catridge: Catridge,
    wram: Vec<u8>,
    hram: Vec<u8>,
    pub ppu: PPU,
    pub timer: Timer,
    boot_rom_enabled: bool,
    interrupt_flag: u8,
    interrupt_enable: u8,
    serial_port: Vec<u8>,
}

impl View for Mmu {
    type V = MmuState;

    closed spec fn view(&self) -> MmuState {
        MmuState {
            boot_rom: self.boot_rom@,
            catridge: self.catridge@,
            wram: self.wram@,
            hram: self.hram@,
            ppu: self.ppu@,
            timer: self.timer@,
            boot_rom_enabled: self.boot_rom_enabled,
            interrupt_flag: self.interrupt_flag,
            interrupt_enable: self.interrupt_enable,
            serial_port: self.serial_port@,
        }
    }
}

/// The bus as it is powered up around a loaded cartridge.
pub open spec fn power_up(boot_rom: Seq<u8>, catridge: CatridgeState) -> MmuState {
    MmuState {
        boot_rom,
        catridge,
        wram: Seq::new(WRAM_SIZE as nat, |i: int| 0u8),
        hram: Seq::new(HRAM_SIZE as nat, |i: int| 0u8),
        ppu: ppu_power_up(),
        timer: TimerState { div: 0, tima: 0, tma: 0, tac: 0, irq: false },
        boot_rom_enabled: boot_rom.len() > 0,
        interrupt_flag: 0,
        interrupt_enable: 0,
        serial_port: seq![],
    }
}

impl Mmu {
    /// A bus around the cartridge in `rom`, with `boot_rom` mapped at 0x0000.
    pub fn new_with_boot_rom(boot_rom: Vec<u8>, rom: Vec<u8>) -> (r: Result<Self, CatridgeError>)
        ensures
            match r {
                Ok(m) => {
                    &&& m@.wf()
                    &&& load_spec(rom@) == Ok::<CatridgeState, CatridgeError>(m@.catridge)
                    &&& m@ == power_up(boot_rom@, m@.catridge)
                },
                Err(e) => load_spec(rom@) == Err::<CatridgeState, CatridgeError>(e),
            },
    {
        let catridge = match Catridge::new(rom) {
            Ok(c) => c,
            Err(e) => return Err(e),
        };
        let m = Mmu {
            boot_rom_enabled: boot_rom.len() > 0,
            boot_rom,
            catridge,
            wram: vec![0u8; WRAM_SIZE],
            hram: vec![0u8; HRAM_SIZE],
            ppu: PPU::new(),
            timer: Timer::new(),
            interrupt_flag: 0,
            interrupt_enable: 0,
            serial_port: Vec::new(),
        };
        assert(m@.wram =~= Seq::new(WRAM_SIZE as nat, |i: int| 0u8));
        assert(m@.hram =~= Seq::new(HRAM_SIZE as nat, |i: int| 0u8));
        assert(m@.serial_port =~= seq![]);
        Ok(m)
    }

    /// A bus around the cartridge in `rom`, without a boot ROM.
    pub fn new(rom: Vec<u8>) -> (r: Result<Self, CatridgeError>)
        ensures
            match r {
                Ok(m) => {
                    &&& m@.wf()
                    &&& load_spec(rom@) == Ok::<CatridgeState, CatridgeError>(m@.catridge)
                    &&& m@ == power_up(seq![], m@.catridge)
                },
                Err(e) => load_spec(rom@) == Err::<CatridgeState, CatridgeError>(e),
            },
    {
        let none: Vec<u8> = Vec::new();
        assert(none@ =~= seq![]);
        Self::new_with_boot_rom(none, rom)
    }

    pub fn boot_rom_enabled(&self) -> (r: bool)
        ensures
            r == self@.boot_rom_enabled,
    {
        self.boot_rom_enabled
    }

    pub fn interrupt_flag(&self) -> (r: u8)
        ensures
            r == self@.interrupt_flag,
    {
        self.interrupt_flag
    }

    pub fn set_interrupt_flag(&mut self, value: u8)
        ensures
            final(self)@ == (MmuState { interrupt_flag: value, ..old(self)@ }),
    {
        self.interrupt_flag = value;
    }

    pub fn interrupt_enable(&self) -> (r: u8)
        ensures
            r == self@.interrupt_enable,
    {
        self.interrupt_enable
    }

    /// The bytes written to the serial data register so far.
    pub fn serial_output(&self) -> (r: &Vec<u8>)
        ensures
            r@ == self@.serial_port,
    {
        &self.serial_port
    }

    /// The framebuffer of the PPU.
    pub fn framebuffer(&self) -> (r: &Vec<u32>)
        ensures
            r@ == self@.ppu.buffer,
    {
        self.ppu.framebuffer()
    }

    pub fn step(&mut self, clocks: usize)
        requires
            old(self)@.wf(),
        ensures
            final(self)@ == old(self)@.step(clocks as nat),
            final(self)@.wf(),
    {
        self.ppu.step(clocks);
        self.timer.step(clocks);
        // VBlank interrupt request
        if self.ppu.vblank_pending() {
            self.interrupt_flag = self.interrupt_flag | 0x01;
            self.ppu.clear_vblank();
        }
        // timer interrupt request
        if self.timer.irq_pending() {
            self.interrupt_flag = self.interrupt_flag | 0x04;
            self.timer.clear_irq();
        }
    }

    pub fn write_byte(&mut self, address: u16, value: u8)
        requires
            old(self)@.wf(),
        ensures
            final(self)@ == old(self)@.write(address, value),
            final(self)@.wf(),
    {
        proof {
            reveal(MmuState::write);
        }
        if address <= 0x7fff || (0xa000 <= address && address <= 0xbfff) {
            self.catridge.write(address, value);
        } else if address <= 0x9fff || (0xfe00 <= address && address <= 0xfe9f) {
            // VRAM and OAM
            self.ppu.write(address, value);
        } else if address <= 0xdfff {
            self.wram.set((address - 0xc000) as usize, value);
        } else if address <= 0xfdff {
            // echo of work RAM
            self.wram.set((address - 0xe000) as usize, value);
        } else if address == 0xff01 {
            // serial data: kept as the console output
            self.serial_port.push(value);
        } else if 0xff04 <= address && address <= 0xff07 {
            self.timer.write_byte(address, value);
        } else if address == 0xff0f {
            self.interrupt_flag = value;
        } else if address == 0xff46 {
            // OAM DMA from value * 0x100
            let source: Vec<u8> = self.dma_source(value);
            self.ppu.load_oam(&source);
        } else if 0xff40 <= address && address <= 0xff4b {
            self.ppu.write(address, value);
        } else if address == 0xff50 {
            // the boot ROM unmaps itself for the rest of the run
            self.boot_rom_enabled = false;
        } else if 0xff80 <= address && address <= 0xfffe {
            self.hram.set((address - 0xff80) as usize, value);
        } else if address == 0xffff {
            self.interrupt_enable = value;
        }
    }

    fn dma_source(&self, value: u8) -> (r: Vec<u8>)
        requires
            self@.wf(),
        ensures
            r@ == self@.dma_source(value),
    {
        proof {
            reveal(MmuState::read);
        }
        let base: u16 = value as u16 * 256;
        let mut data: Vec<u8> = Vec::new();
        let mut i: u16 = 0;
        while i < OAM_SIZE as u16
            invariant
                self@.wf(),
                base == value * 256,
                i <= OAM_SIZE,
                data@.len() == i,
                forall|k: int| 0 <= k < i ==> #[trigger] data@[k] == self@.read((value * 256 + k) as u16),
            decreases OAM_SIZE - i,
        {
            data.push(self.read_byte(base + i));
            i = i + 1;
        }
        assert(data@ =~= self@.dma_source(value));
        data
    }

    pub fn read_byte(&self, address: u16) -> (r: u8)
        requires
            self@.wf(),
        ensures
            r == self@.read(address),
    {
        proof {
            reveal(MmuState::read);
        }
        if address <= 0x00ff && self.boot_rom_enabled {
            if (address as usize) < self.boot_rom.len() {
                self.boot_rom[address as usize]
            } else {
                0xff
            }
        } else if address <= 0x7fff {
            self.catridge.read(address)
        } else if address <= 0x9fff {
            self.ppu.read(address)
        } else if address <= 0xbfff {
            self.catridge.read(address)
        } else if address <= 0xdfff {
            self.wram[(address - 0xc000) as usize]
        } else if address <= 0xfdff {
            self.wram[(address - 0xe000) as usize]
        } else if address <= 0xfe9f {
            self.ppu.read(address)
        } else if 0xff04 <= address && address <= 0xff07 {
            self.timer.read_byte(address)
        } else if address == 0xff0f {
            self.interrupt_flag
        } else if 0xff40 <= address && address <= 0xff4b && address != 0xff46 {
            self.ppu.read(address)
        } else if 0xff80 <= address && address <= 0xfffe {
            self.hram[(address - 0xff80) as usize]
        } else if address == 0xffff {
            self.interrupt_enable
        } else {
            // unused and unmapped addresses
            0xff
        }
    }
}

/// Memory round trip: a byte written to work RAM (or its echo), high RAM,
/// VRAM, OAM, or enabled MBC1 cartridge RAM reads back unchanged.
pub proof fn lemma_write_then_read(m: MmuState, address: u16, value: u8)
    requires
        m.wf(),
        (0xc000 <= address <= 0xfdff) || (0xff80 <= address <= 0xfffe) || (0x8000 <= address
            <= 0x9fff) || (0xfe00 <= address <= 0xfe9f) || (0xa000 <= address <= 0xbfff
            && m.catridge.cartridge_type == crate::catridge::CatridgeType::Mbc1
            && m.catridge.ram_enabled && m.catridge.ram_offset(address) < m.catridge.ram.len()),
    ensures
        m.write(address, value).read(address) == value,
{
    reveal(MmuState::read);
    reveal(MmuState::write);
}

/// A write of any value to DIV (0xff04) clears the whole internal 16-bit
/// divider, so DIV reads back as 0.
pub proof fn lemma_div_write_clears(m: MmuState, value: u8)
    ensures
        m.write(0xff04, value).timer.div == 0,
        m.write(0xff04, value).read(0xff04) == 0,
{
    reveal(MmuState::read);
    reveal(MmuState::write);
}

/// Work RAM and high RAM: plain bytes, without side effects.
pub open spec fn is_plain_ram(address: u16) -> bool {
    (0xc000 <= address <= 0xdfff) || (0xff80 <= address <= 0xfffe)
}

/// A write to plain RAM changes the byte written and no other plain byte.
pub proof fn lemma_plain_ram_write(m: MmuState, a: u16, v: u8, b: u16)
    requires
        m.wf(),
        is_plain_ram(a),
        is_plain_ram(b),
    ensures
        m.write(a, v).wf(),
        m.write(a, v).read(b) == if a == b {
            v
        } else {
            m.read(b)
        },
{
    reveal(MmuState::read);
    reveal(MmuState::write);
}

/// A write to an LCD register reaches the PPU and nothing else.
pub proof fn lemma_lcd_register_write(m: MmuState, address: u16, value: u8)
    requires
        0xff40 <= address <= 0xff4b,
        address != 0xff46,
    ensures
        m.write(address, value) == (MmuState { ppu: m.ppu.write(address, value), ..m }),
{
    reveal(MmuState::write);
}

} // verus!
