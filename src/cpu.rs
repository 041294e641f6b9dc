use vstd::prelude::*;

use crate::catridge::{load_spec, CatridgeError, CatridgeState};
use crate::cpu::register::{high_of, low_of, masked, replace_high, replace_low, Register};
use crate::cpu::instruction::{exec_clocks, exec_state, is_illegal};
use crate::cpu::opcode::Opcode;
use crate::mmu::{power_up, Mmu, MmuState};

pub mod instruction;
pub mod opcode;
pub mod operation;
pub mod register;

verus! {

/// The mask of the AF pair: the low nibble of F always reads as zero.
pub const AF_MASK: u16 = 0xfff0;

/// What the CPU and everything it owns hold, as plain values.
pub struct CpuState {
    pub af: u16,
    pub bc: u16,
    pub de: u16,
    pub hl: u16,
    pub pc: u16,
    pub sp: u16,
    pub ime: bool,
    pub halt: bool,
    pub mmu: MmuState,
}

/// The F register for the given flag values: Z bit 7, N bit 6, H bit 5, C bit 4.
pub open spec fn flag_bits(z: bool, n: bool, h: bool, c: bool) -> u8 {
    ((if z {
        0x80u8
    } else {
        0u8
    }) + (if n {
        0x40u8
    } else {
        0u8
    }) + (if h {
        0x20u8
    } else {
        0u8
    }) + (if c {
        0x10u8
    } else {
        0u8
    })) as u8
}

/// Two bytes, little endian.
pub open spec fn word(low: u8, high: u8) -> u16 {
    (low + high * 256) as u16
}

/// A signed 8-bit offset, as the 16-bit value that adding it wraps to.
pub open spec fn sign_extend(e: u8) -> u16 {
    if e < 128 {
        e as u16
    } else {
        (e + 0xff00) as u16
    }
}

pub open spec fn add16_wrap(a: u16, b: u16) -> u16 {
    ((a + b) % 0x10000) as u16
}

pub open spec fn sub16_wrap(a: u16, b: u16) -> u16 {
    ((a - b + 0x10000) % 0x10000) as u16
}

impl CpuState {
    pub open spec fn wf(self) -> bool {
        &&& self.mmu.wf()
        &&& self.af & 0x000f == 0
    }

    pub open spec fn a(self) -> u8 {
        high_of(self.af)
    }

    pub open spec fn f(self) -> u8 {
        low_of(self.af)
    }

    pub open spec fn flag_z(self) -> bool {
        self.f() & 0x80 != 0
    }

    pub open spec fn flag_n(self) -> bool {
        self.f() & 0x40 != 0
    }

    pub open spec fn flag_h(self) -> bool {
        self.f() & 0x20 != 0
    }

    pub open spec fn flag_c(self) -> bool {
        self.f() & 0x10 != 0
    }

    pub open spec fn read(self, address: u16) -> u8 {
        self.mmu.read(address)
    }

    pub open spec fn read16(self, address: u16) -> u16 {
        word(self.read(address), self.read(add16_wrap(address, 1)))
    }

    pub open spec fn write(self, address: u16, value: u8) -> CpuState {
        CpuState { mmu: self.mmu.write(address, value), ..self }
    }

    /// Low byte at `address`, then high byte at the next address.
    pub open spec fn write16(self, address: u16, value: u16) -> CpuState {
        self.write(address, low_of(value)).write(add16_wrap(address, 1), high_of(value))
    }

    pub open spec fn with_af(self, value: u16) -> CpuState {
        CpuState { af: masked(value, AF_MASK), ..self }
    }

    pub open spec fn with_a(self, value: u8) -> CpuState {
        self.with_af(replace_high(self.af, value))
    }

    pub open spec fn with_flags(self, z: bool, n: bool, h: bool, c: bool) -> CpuState {
        self.with_af(replace_low(self.af, flag_bits(z, n, h, c)))
    }

    /// The 8-bit operand numbered `i` in the opcode table:
    /// B, C, D, E, H, L, (HL), A.
    pub open spec fn r8(self, i: u8) -> u8 {
        if i == 0 {
            high_of(self.bc)
        } else if i == 1 {
            low_of(self.bc)
        } else if i == 2 {
            high_of(self.de)
        } else if i == 3 {
            low_of(self.de)
        } else if i == 4 {
            high_of(self.hl)
        } else if i == 5 {
            low_of(self.hl)
        } else if i == 6 {
            self.read(self.hl)
        } else {
            self.a()
        }
    }

    pub open spec fn set_r8(self, i: u8, v: u8) -> CpuState {
        if i == 0 {
            CpuState { bc: replace_high(self.bc, v), ..self }
        } else if i == 1 {
            CpuState { bc: replace_low(self.bc, v), ..self }
        } else if i == 2 {
            CpuState { de: replace_high(self.de, v), ..self }
        } else if i == 3 {
            CpuState { de: replace_low(self.de, v), ..self }
        } else if i == 4 {
            CpuState { hl: replace_high(self.hl, v), ..self }
        } else if i == 5 {
            CpuState { hl: replace_low(self.hl, v), ..self }
        } else if i == 6 {
            self.write(self.hl, v)
        } else {
            self.with_a(v)
        }
    }

    /// The 16-bit operand numbered `i` among BC, DE, HL, SP.
    pub open spec fn rp(self, i: u8) -> u16 {
        if i == 0 {
            self.bc
        } else if i == 1 {
            self.de
        } else if i == 2 {
            self.hl
        } else {
            self.sp
        }
    }

    pub open spec fn set_rp(self, i: u8, v: u16) -> CpuState {
        if i == 0 {
            CpuState { bc: v, ..self }
        } else if i == 1 {
            CpuState { de: v, ..self }
        } else if i == 2 {
            CpuState { hl: v, ..self }
        } else {
            CpuState { sp: v, ..self }
        }
    }

    /// The 16-bit operand numbered `i` among BC, DE, HL, AF (PUSH and POP).
    pub open spec fn rp2(self, i: u8) -> u16 {
        if i == 3 {
            self.af
        } else {
            self.rp(i)
        }
    }

    pub open spec fn set_rp2(self, i: u8, v: u16) -> CpuState {
        if i == 3 {
            self.with_af(v)
        } else {
            self.set_rp(i, v)
        }
    }

    /// The byte at PC, with PC moved past it.
    pub open spec fn fetch(self) -> (CpuState, u8) {
        (CpuState { pc: add16_wrap(self.pc, 1), ..self }, self.read(self.pc))
    }

    /// The little-endian word at PC, with PC moved past it.
    pub open spec fn fetch16(self) -> (CpuState, u16) {
        (CpuState { pc: add16_wrap(self.pc, 2), ..self }, self.read16(self.pc))
    }

    pub open spec fn push16(self, value: u16) -> CpuState {
        let sp = sub16_wrap(self.sp, 2);
        CpuState { sp, ..self }.write16(sp, value)
    }

    /// The word at SP, with SP moved past it.
    pub open spec fn pop16(self) -> (CpuState, u16) {
        (CpuState { sp: add16_wrap(self.sp, 2), ..self }, self.read16(self.sp))
    }
}

/// An undefined opcode met at `address`: emulation cannot go on.
#[derive(PartialEq, Eq, Structural, Clone, Copy, Debug)]
pub struct IllegalOpcode {
    pub opcode: u8,
    pub address: u16,
}

/// The SM83 processor; it owns the memory bus and through it everything else.
pub struct CPU {
    pub mmu: Mmu,
    pc: u16,
    sp: u16,
    ime: bool,
    halt: bool,
    af: Register,
    bc: Register,
    de: Register,
    hl: Register,
}

impl View for CPU {
    type V = CpuState;

    closed spec fn view(&self) -> CpuState {
        CpuState {
            af: self.af@,
            bc: self.bc@,
            de: self.de@,
            hl: self.hl@,
            pc: self.pc,
            sp: self.sp,
            ime: self.ime,
            halt: self.halt,
            mmu: self.mmu@,
        }
    }
}

impl CPU {
    /// The CPU's own invariant: the register masks, and the state's.
    pub closed spec fn wf(&self) -> bool {
        &&& self.af.mask_spec() == AF_MASK
        &&& self.bc.mask_spec() == 0
        &&& self.de.mask_spec() == 0
        &&& self.hl.mask_spec() == 0
        &&& self@.wf()
    }

    fn read_byte(&self, address: u16) -> (r: u8)
        requires
            self.wf(),
        ensures
            r == self@.read(address),
    {
        self.mmu.read_byte(address)
    }

    fn read_byte16(&self, address: u16) -> (r: u16)
        requires
            self.wf(),
        ensures
            r == self@.read16(address),
    {
        let low: u8 = self.mmu.read_byte(address);
        let high: u8 = self.mmu.read_byte(address.wrapping_add(1));
        low as u16 + (high as u16) * 256
    }

    fn write_byte(&mut self, address: u16, value: u8)
        requires
            old(self).wf(),
        ensures
            final(self).wf(),
            final(self)@ == old(self)@.write(address, value),
    {
        self.mmu.write_byte(address, value);
    }

    fn write_byte16(&mut self, address: u16, value: u16)
        requires
            old(self).wf(),
        ensures
            final(self).wf(),
            final(self)@ == old(self)@.write16(address, value),
    {
        // little endian
        self.mmu.write_byte(address, (value & 0x00ff) as u8);
        self.mmu.write_byte(address.wrapping_add(1), (value >> 8u16) as u8);
    }

    fn pop_pc(&mut self) -> (r: u8)
        requires
            old(self).wf(),
        ensures
            final(self).wf(),
            (final(self)@, r) == old(self)@.fetch(),
    {
        let v: u8 = self.read_byte(self.pc);
        self.pc = self.pc.wrapping_add(1);
        v
    }

    fn pop_pc16(&mut self) -> (r: u16)
        requires
            old(self).wf(),
        ensures
            final(self).wf(),
            (final(self)@, r) == old(self)@.fetch16(),
    {
        let v: u16 = self.read_byte16(self.pc);
        self.pc = self.pc.wrapping_add(2);
        v
    }

    fn get_flag(&self, bit_mask: u8) -> (r: bool)
        ensures
            r == (low_of(self@.af) & bit_mask != 0),
    {
        (self.af.low() & bit_mask) != 0
    }

    fn get_z_flag(&self) -> (r: bool)
        ensures
            r == self@.flag_z(),
    {
        self.get_flag(0b1000_0000)
    }

    fn get_n_flag(&self) -> (r: bool)
        ensures
            r == self@.flag_n(),
    {
        self.get_flag(0b0100_0000)
    }

    fn get_h_flag(&self) -> (r: bool)
        ensures
            r == self@.flag_h(),
    {
        self.get_flag(0b0010_0000)
    }

    fn get_c_flag(&self) -> (r: bool)
        ensures
            r == self@.flag_c(),
    {
        self.get_flag(0b0001_0000)
    }

    /// Writes all four flags at once.
    fn set_flags(&mut self, z: bool, n: bool, h: bool, c: bool)
        requires
            old(self).wf(),
        ensures
            final(self).wf(),
            final(self)@ == old(self)@.with_flags(z, n, h, c),
    {
        let f: u8 = (if z {
            0x80u8
        } else {
            0u8
        }) + (if n {
            0x40u8
        } else {
            0u8
        }) + (if h {
            0x20u8
        } else {
            0u8
        }) + (if c {
            0x10u8
        } else {
            0u8
        });
        self.af.set_low(f);
        proof {
            register::lemma_flag_mask_clears_low_nibble(replace_low(old(self)@.af, f));
        }
    }

    fn set_a(&mut self, v: u8)
        requires
            old(self).wf(),
        ensures
            final(self).wf(),
            final(self)@ == old(self)@.with_a(v),
    {
        self.af.set_high(v);
        proof {
            register::lemma_flag_mask_clears_low_nibble(replace_high(old(self)@.af, v));
        }
    }

    fn set_af(&mut self, v: u16)
        requires
            old(self).wf(),
        ensures
            final(self).wf(),
            final(self)@ == old(self)@.with_af(v),
    {
        self.af.set(v);
        proof {
            register::lemma_flag_mask_clears_low_nibble(v);
        }
    }

    fn get_r8(&self, i: u8) -> (r: u8)
        requires
            self.wf(),
        ensures
            r == self@.r8(i),
    {
        if i == 0 {
            self.bc.high()
        } else if i == 1 {
            self.bc.low()
        } else if i == 2 {
            self.de.high()
        } else if i == 3 {
            self.de.low()
        } else if i == 4 {
            self.hl.high()
        } else if i == 5 {
            self.hl.low()
        } else if i == 6 {
            self.read_byte(self.hl.value())
        } else {
            self.af.high()
        }
    }

    fn set_r8(&mut self, i: u8, v: u8)
        requires
            old(self).wf(),
        ensures
            final(self).wf(),
            final(self)@ == old(self)@.set_r8(i, v),
    {
        if i == 0 {
            self.bc.set_high(v);
        } else if i == 1 {
            self.bc.set_low(v);
        } else if i == 2 {
            self.de.set_high(v);
        } else if i == 3 {
            self.de.set_low(v);
        } else if i == 4 {
            self.hl.set_high(v);
        } else if i == 5 {
            self.hl.set_low(v);
        } else if i == 6 {
            let address: u16 = self.hl.value();
            self.write_byte(address, v);
        } else {
            self.set_a(v);
        }
    }

    fn get_rp(&self, i: u8) -> (r: u16)
        ensures
            r == self@.rp(i),
    {
        if i == 0 {
            self.bc.value()
        } else if i == 1 {
            self.de.value()
        } else if i == 2 {
            self.hl.value()
        } else {
            self.sp
        }
    }

    fn set_rp(&mut self, i: u8, v: u16)
        requires
            old(self).wf(),
        ensures
            final(self).wf(),
            final(self)@ == old(self)@.set_rp(i, v),
    {
        if i == 0 {
            self.bc.set(v);
        } else if i == 1 {
            self.de.set(v);
        } else if i == 2 {
            self.hl.set(v);
        } else {
            self.sp = v;
        }
    }

    fn get_rp2(&self, i: u8) -> (r: u16)
        ensures
            r == self@.rp2(i),
    {
        if i == 3 {
            self.af.value()
        } else {
            self.get_rp(i)
        }
    }

    fn set_rp2(&mut self, i: u8, v: u16)
        requires
            old(self).wf(),
        ensures
            final(self).wf(),
            final(self)@ == old(self)@.set_rp2(i, v),
    {
        if i == 3 {
            self.set_af(v);
        } else {
            self.set_rp(i, v);
        }
    }

    fn push16(&mut self, value: u16)
        requires
            old(self).wf(),
        ensures
            final(self).wf(),
            final(self)@ == old(self)@.push16(value),
    {
        self.sp = self.sp.wrapping_sub(2);
        let sp: u16 = self.sp;
        self.write_byte16(sp, value);
    }

    fn pop16(&mut self) -> (r: u16)
        requires
            old(self).wf(),
        ensures
            final(self).wf(),
            (final(self)@, r) == old(self)@.pop16(),
    {
        let v: u16 = self.read_byte16(self.sp);
        self.sp = self.sp.wrapping_add(2);
        v
    }
}

/// Lowest set bit of a non-zero interrupt mask: the request served first.
pub open spec fn lowest_pending(pending: u8) -> u8 {
    if pending & 0x01 != 0 {
        0
    } else if pending & 0x02 != 0 {
        1
    } else if pending & 0x04 != 0 {
        2
    } else if pending & 0x08 != 0 {
        3
    } else {
        4
    }
}

/// Clocks an interrupt dispatch takes.
pub const DISPATCH_CLOCKS: u32 = 20;

/// Interrupt dispatch after an instruction: any pending and enabled request
/// ends HALT; with IME set the lowest one is taken, its IF bit cleared, PC
/// pushed and the handler at 0x40 + 8 * bit entered. Also the clocks it took.
pub open spec fn dispatch_spec(s: CpuState) -> (CpuState, u32) {
    let pending = s.mmu.interrupt_flag & s.mmu.interrupt_enable & 0x1f;
    if pending == 0 {
        (s, 0)
    } else if !s.ime {
        (CpuState { halt: false, ..s }, 0)
    } else {
        let i = lowest_pending(pending);
        let t = CpuState {
            halt: false,
            ime: false,
            mmu: MmuState { interrupt_flag: s.mmu.interrupt_flag & !(1u8 << i), ..s.mmu },
            ..s
        };
        let u = t.push16(t.pc);
        (CpuState { pc: (0x40 + i * 8) as u16, mmu: u.mmu.step(DISPATCH_CLOCKS as nat), ..u }, DISPATCH_CLOCKS)
    }
}

/// One step of the machine: an instruction (or 4 clocks of HALT), the bus
/// advanced by its clocks, then interrupt dispatch. Also the clocks in all.
pub open spec fn step_spec(s: CpuState) -> Result<(CpuState, u32), IllegalOpcode> {
    if s.halt {
        let (u, extra) = dispatch_spec(CpuState { mmu: s.mmu.step(4), ..s });
        Ok((u, (4 + extra) as u32))
    } else {
        let (t, op) = s.fetch();
        if is_illegal(op) {
            Err(IllegalOpcode { opcode: op, address: s.pc })
        } else {
            let e = exec_state(t, op);
            let clocks = exec_clocks(t, op);
            let (u, extra) = dispatch_spec(CpuState { mmu: e.mmu.step(clocks as nat), ..e });
            Ok((u, (clocks + extra) as u32))
        }
    }
}

/// Register values the boot ROM leaves behind.
pub open spec fn after_boot(mmu: MmuState) -> CpuState {
    CpuState {
        af: 0x01b0,
        bc: 0x0013,
        de: 0x00d8,
        hl: 0x014d,
        pc: 0x0100,
        sp: 0xfffe,
        ime: false,
        halt: false,
        mmu: mmu.write(0xff40, 0x91).write(0xff47, 0xfc),
    }
}

/// Everything zero, at the start of the boot ROM.
pub open spec fn at_reset(mmu: MmuState) -> CpuState {
    CpuState { af: 0, bc: 0, de: 0, hl: 0, pc: 0, sp: 0, ime: false, halt: false, mmu }
}

impl CPU {
    /// A CPU for the cartridge in `rom`, in the state the boot ROM leaves.
    pub fn new(rom: Vec<u8>) -> (r: Result<CPU, CatridgeError>)
        ensures
            match r {
                Ok(c) => {
                    &&& c.wf()
                    &&& load_spec(rom@) == Ok::<CatridgeState, CatridgeError>(c@.mmu.catridge)
                    &&& c@ == after_boot(power_up(seq![], c@.mmu.catridge))
                },
                Err(e) => load_spec(rom@) == Err::<CatridgeState, CatridgeError>(e),
            },
    {
        let mut mmu = match Mmu::new(rom) {
            Ok(m) => m,
            Err(e) => return Err(e),
        };
        let ghost start = mmu@;
        // LCD on, and the usual background palette
        mmu.write_byte(0xff40, 0x91);
        mmu.write_byte(0xff47, 0xfc);
        proof {
            crate::mmu::lemma_lcd_register_write(start, 0xff40, 0x91);
            crate::mmu::lemma_lcd_register_write(start.write(0xff40, 0x91), 0xff47, 0xfc);
        }
        let cpu = CPU {
            mmu,
            pc: 0x0100,
            sp: 0xfffe,
            ime: false,
            halt: false,
            af: Register::new(0x01b0, AF_MASK),
            bc: Register::new(0x0013, 0),
            de: Register::new(0x00d8, 0),
            hl: Register::new(0x014d, 0),
        };
        assert(0x01b0u16 & 0x000f == 0) by (bit_vector);
        assert(cpu@ == after_boot(power_up(seq![], cpu@.mmu.catridge)));
        Ok(cpu)
    }

    /// A CPU for the cartridge in `rom` that starts with `boot_rom` at 0x0000.
    pub fn new_with_boot_rom(boot_rom: Vec<u8>, rom: Vec<u8>) -> (r: Result<CPU, CatridgeError>)
        ensures
            match r {
                Ok(c) => {
                    &&& c.wf()
                    &&& load_spec(rom@) == Ok::<CatridgeState, CatridgeError>(c@.mmu.catridge)
                    &&& c@ == at_reset(power_up(boot_rom@, c@.mmu.catridge))
                },
                Err(e) => load_spec(rom@) == Err::<CatridgeState, CatridgeError>(e),
            },
    {
        let mmu = match Mmu::new_with_boot_rom(boot_rom, rom) {
            Ok(m) => m,
            Err(e) => return Err(e),
        };
        let cpu = CPU {
            mmu,
            pc: 0,
            sp: 0,
            ime: false,
            halt: false,
            af: Register::new(0, AF_MASK),
            bc: Register::new(0, 0),
            de: Register::new(0, 0),
            hl: Register::new(0, 0),
        };
        assert(0u16 & 0x000f == 0) by (bit_vector);
        Ok(cpu)
    }

    /// Runs one instruction, or one HALT period, advances the rest of the
    /// machine by its clocks, then dispatches a pending interrupt. Returns
    /// the clocks taken; an undefined opcode stops emulation.
    pub fn step(&mut self) -> (r: Result<usize, IllegalOpcode>)
        requires
            old(self).wf(),
        ensures
            final(self).wf(),
            match r {
                Ok(clocks) => step_spec(old(self)@) == Ok::<(CpuState, u32), IllegalOpcode>(
                    (final(self)@, clocks as u32),
                ),
                Err(e) => step_spec(old(self)@) == Err::<(CpuState, u32), IllegalOpcode>(e),
            },
    {
        let clocks: u32 = if self.halt {
            // halted: no fetch
            4
        } else {
            match self.fetch_and_execute() {
                Ok(c) => c,
                Err(e) => return Err(e),
            }
        };
        self.mmu.step(clocks as usize);
        let extra: u32 = self.dispatch_interrupt();
        Ok((clocks + extra) as usize)
    }

    fn dispatch_interrupt(&mut self) -> (r: u32)
        requires
            old(self).wf(),
        ensures
            final(self).wf(),
            (final(self)@, r) == dispatch_spec(old(self)@),
    {
        let pending: u8 = self.mmu.interrupt_flag() & self.mmu.interrupt_enable() & 0x1f;
        if pending == 0 {
            return 0;
        }
        // any pending request ends HALT, whatever IME says
        self.halt = false;
        if !self.ime {
            return 0;
        }
        let i: u8 = if pending & 0x01 != 0 {
            0
        } else if pending & 0x02 != 0 {
            1
        } else if pending & 0x04 != 0 {
            2
        } else if pending & 0x08 != 0 {
            3
        } else {
            4
        };
        self.ime = false;
        let flag: u8 = self.mmu.interrupt_flag() & !(1u8 << i);
        self.mmu.set_interrupt_flag(flag);
        let pc: u16 = self.pc;
        self.push16(pc);
        self.pc = 0x40 + i as u16 * 8;
        self.mmu.step(DISPATCH_CLOCKS as usize);
        DISPATCH_CLOCKS
    }

    /// Fetches the opcode at PC and runs it.
    pub fn fetch_and_execute(&mut self) -> (r: Result<u32, IllegalOpcode>)
        requires
            old(self).wf(),
        ensures
            final(self).wf(),
            ({
                let (t, op) = old(self)@.fetch();
                match r {
                    Ok(clocks) => !is_illegal(op) && final(self)@ == exec_state(t, op) && clocks
                        == exec_clocks(t, op),
                    Err(e) => is_illegal(op) && final(self)@ == t && e == (IllegalOpcode {
                        opcode: op,
                        address: old(self)@.pc,
                    }),
                }
            }),
    {
        let opcode = Opcode::new(self.pop_pc());
        instruction::execute(&opcode, self)
    }

    pub fn pc(&self) -> (r: u16)
        ensures
            r == self@.pc,
    {
        self.pc
    }

    pub fn sp(&self) -> (r: u16)
        ensures
            r == self@.sp,
    {
        self.sp
    }

    pub fn af(&self) -> (r: u16)
        ensures
            r == self@.af,
    {
        self.af.value()
    }

    pub fn bc(&self) -> (r: u16)
        ensures
            r == self@.bc,
    {
        self.bc.value()
    }

    pub fn de(&self) -> (r: u16)
        ensures
            r == self@.de,
    {
        self.de.value()
    }

    pub fn hl(&self) -> (r: u16)
        ensures
            r == self@.hl,
    {
        self.hl.value()
    }

    pub fn ime(&self) -> (r: bool)
        ensures
            r == self@.ime,
    {
        self.ime
    }

    pub fn halted(&self) -> (r: bool)
        ensures
            r == self@.halt,
    {
        self.halt
    }

    /// The 160x144 ARGB8888 picture, row by row.
    pub fn framebuffer(&self) -> (r: &Vec<u32>)
        ensures
            r@ == self@.mmu.ppu.buffer,
    {
        self.mmu.framebuffer()
    }
}

/// The flag byte keeps the low nibble clear and holds each flag in its bit.
pub proof fn lemma_flag_bits(z: bool, n: bool, h: bool, c: bool)
    by (bit_vector)
    ensures
        flag_bits(z, n, h, c) & 0x0f == 0,
        (flag_bits(z, n, h, c) & 0x80 != 0) == z,
        (flag_bits(z, n, h, c) & 0x40 != 0) == n,
        (flag_bits(z, n, h, c) & 0x20 != 0) == h,
        (flag_bits(z, n, h, c) & 0x10 != 0) == c,
{
}

/// Writing F through the mask keeps A and stores a clear-nibble byte as is.
pub proof fn lemma_write_f(af: u16, f: u8)
    by (bit_vector)
    requires
        f & 0x0f == 0,
    ensures
        low_of(masked(replace_low(af, f), 0xfff0)) == f,
        high_of(masked(replace_low(af, f), 0xfff0)) == high_of(af),
{
}

/// Writing A through the mask keeps A's value.
pub proof fn lemma_write_a(af: u16, a: u8)
    by (bit_vector)
    ensures
        high_of(masked(replace_high(af, a), 0xfff0)) == a,
{
}

/// After `with_flags`, the four flags read back as written and A is kept.
pub proof fn lemma_flags_read_back(s: CpuState, z: bool, n: bool, h: bool, c: bool)
    ensures
        s.with_flags(z, n, h, c).flag_z() == z,
        s.with_flags(z, n, h, c).flag_n() == n,
        s.with_flags(z, n, h, c).flag_h() == h,
        s.with_flags(z, n, h, c).flag_c() == c,
        s.with_flags(z, n, h, c).a() == s.a(),
{
    lemma_flag_bits(z, n, h, c);
    lemma_write_f(s.af, flag_bits(z, n, h, c));
}

/// Writing F, then A, then F again leaves AF as writing A, then F, does.
pub proof fn lemma_flags_then_a(af: u16, f1: u8, a: u8, f2: u8)
    by (bit_vector)
    ensures
        masked(
            replace_low(masked(replace_high(masked(replace_low(af, f1), 0xfff0), a), 0xfff0), f2),
            0xfff0,
        ) == masked(replace_low(masked(replace_high(af, a), 0xfff0), f2), 0xfff0),
{
}

} // verus!
