use vstd::prelude::*;

pub mod mbc1;
pub mod no_mbc;

verus! {

/// The banking controller of a cartridge.
#[derive(PartialEq, Eq, Structural, Clone, Copy, Debug)]
pub enum CatridgeType {
    NoMbc,
    Mbc1,
}

/// Why a ROM image cannot be used.
#[derive(PartialEq, Eq, Structural, Clone, Copy, Debug)]
pub enum CatridgeError {
    /// The image ends before the header (0x0100..0x0150) does.
    MissingHeader,
    /// Header byte 0x0147 names a controller this emulator lacks.
    UnsupportedType(u8),
    /// Header byte 0x0149 is not a RAM size code.
    InvalidRamSize(u8),
}

/// What a cartridge holds, as plain values.
pub struct CatridgeState {
    pub cartridge_type: CatridgeType,
    pub rom: Seq<u8>,
    pub rom_bank: u8,
    pub ram: Seq<u8>,
    pub ram_enabled: bool,
    pub ram_bank: u8,
    pub rom_banking: bool,
}

/// Length of the header that must be present.
pub const HEADER_END: usize = 0x150;

/// The controller named by header byte 0x0147, if supported.
pub open spec fn type_of_code(code: u8) -> Option<CatridgeType> {
    if code == 0x00 {
        Some(CatridgeType::NoMbc)
    } else if 0x01 <= code <= 0x03 {
        Some(CatridgeType::Mbc1)
    } else {
        None
    }
}

/// External RAM bytes for the RAM size code of header byte 0x0149.
pub open spec fn ram_size_of_code(code: u8) -> Option<nat> {
    if code == 0 {
        Some(0)
    } else if code == 1 {
        Some(2 * 1024)
    } else if code == 2 {
        Some(8 * 1024)
    } else if code == 3 {
        Some(32 * 1024)
    } else {
        None
    }
}

/// The byte at `offset` of `bytes`, or 0xff past its end.
pub open spec fn byte_or_ff(bytes: Seq<u8>, offset: int) -> u8 {
    if 0 <= offset < bytes.len() {
        bytes[offset]
    } else {
        0xff
    }
}

/// Addresses that the bus hands to the cartridge.
pub open spec fn is_cartridge_address(address: u16) -> bool {
    address <= 0x7fff || 0xa000 <= address <= 0xbfff
}

/// The MBC1 quirk: a bank number of 0x00, 0x20, 0x40 or 0x60 selects the
/// next bank instead.
pub open spec fn translate_bank(bank: u8) -> u8 {
    if bank == 0x00 || bank == 0x20 || bank == 0x40 || bank == 0x60 {
        (bank + 1) as u8
    } else {
        bank
    }
}

impl CatridgeState {
    /// Offset into ROM of a read in the switchable bank.
    pub open spec fn rom_offset(self, address: u16) -> int {
        0x4000 * self.rom_bank + (address - 0x4000)
    }

    /// Offset into external RAM of an access at `address`.
    pub open spec fn ram_offset(self, address: u16) -> int {
        0x2000 * self.ram_bank + (address - 0xa000)
    }

    pub open spec fn read(self, address: u16) -> u8 {
        match self.cartridge_type {
            CatridgeType::NoMbc => byte_or_ff(self.rom, address as int),
            CatridgeType::Mbc1 => self.mbc1_read(address),
        }
    }

    pub open spec fn mbc1_read(self, address: u16) -> u8 {
        if address <= 0x3fff {
            byte_or_ff(self.rom, address as int)
        } else if address <= 0x7fff {
            byte_or_ff(self.rom, self.rom_offset(address))
        } else if !self.ram_enabled {
            0xff
        } else {
            byte_or_ff(self.ram, self.ram_offset(address))
        }
    }

    pub open spec fn write(self, address: u16, value: u8) -> CatridgeState {
        match self.cartridge_type {
            CatridgeType::NoMbc => self,
            CatridgeType::Mbc1 => self.mbc1_write(address, value),
        }
    }

    pub open spec fn mbc1_write(self, address: u16, value: u8) -> CatridgeState {
        if address <= 0x1fff {
            CatridgeState { ram_enabled: value % 16 == 0x0a, ..self }
        } else if address <= 0x3fff {
            CatridgeState {
                rom_bank: translate_bank(((self.rom_bank / 32) * 32 + value % 32) as u8),
                ..self
            }
        } else if address <= 0x5fff {
            if self.rom_banking {
                CatridgeState {
                    rom_bank: translate_bank((self.rom_bank % 32 + (value % 4) * 32) as u8),
                    ..self
                }
            } else {
                CatridgeState { ram_bank: value % 4, ..self }
            }
        } else if address <= 0x7fff {
            if value % 2 == 0 {
                CatridgeState { rom_banking: true, ram_bank: 0, ..self }
            } else {
                CatridgeState { rom_banking: false, ..self }
            }
        } else if self.ram_enabled && 0 <= self.ram_offset(address) < self.ram.len() {
            CatridgeState { ram: self.ram.update(self.ram_offset(address), value), ..self }
        } else {
            self
        }
    }
}

pub struct Catridge {
    cartridge_type: CatridgeType,
    rom: Vec<u8>,
    rom_bank: u8,
    ram: Vec<u8>,
    ram_enabled: bool,
    ram_bank: u8,
    rom_banking: bool,
}

impl View for Catridge {
    type V = CatridgeState;

    closed spec fn view(&self) -> CatridgeState {
        CatridgeState {
            cartridge_type: self.cartridge_type,
            rom: self.rom@,
            rom_bank: self.rom_bank,
            ram: self.ram@,
            ram_enabled: self.ram_enabled,
            ram_bank: self.ram_bank,
            rom_banking: self.rom_banking,
        }
    }
}

/// What `Catridge::new` makes of a ROM image.
pub open spec fn load_spec(rom: Seq<u8>) -> Result<CatridgeState, CatridgeError> {
    if rom.len() < HEADER_END {
        Err(CatridgeError::MissingHeader)
    } else if type_of_code(rom[0x147]) is None {
        Err(CatridgeError::UnsupportedType(rom[0x147]))
    } else if ram_size_of_code(rom[0x149]) is None {
        Err(CatridgeError::InvalidRamSize(rom[0x149]))
    } else {
        Ok(
            CatridgeState {
                cartridge_type: type_of_code(rom[0x147])->Some_0,
                rom,
                rom_bank: 1,
                ram: Seq::new(ram_size_of_code(rom[0x149])->Some_0, |i: int| 0u8),
                ram_enabled: false,
                ram_bank: 0,
                rom_banking: false,
            },
        )
    }
}

impl Catridge {
    /// Reads the header of a ROM image and sets up its controller.
    pub fn new(rom: Vec<u8>) -> (r: Result<Catridge, CatridgeError>)
        ensures
            match r {
                Ok(c) => load_spec(rom@) == Ok::<CatridgeState, CatridgeError>(c@),
                Err(e) => load_spec(rom@) == Err::<CatridgeState, CatridgeError>(e),
            },
    {
        if rom.len() < HEADER_END {
            return Err(CatridgeError::MissingHeader);
        }
        let type_code: u8 = rom[0x147];
        let cartridge_type = if type_code == 0x00 {
            CatridgeType::NoMbc
        } else if 0x01 <= type_code && type_code <= 0x03 {
            CatridgeType::Mbc1
        } else {
            return Err(CatridgeError::UnsupportedType(type_code));
        };
        let size_code: u8 = rom[0x149];
        let ram_size: usize = if size_code == 0 {
            0
        } else if size_code == 1 {
            2 * 1024
        } else if size_code == 2 {
            8 * 1024
        } else if size_code == 3 {
            32 * 1024
        } else {
            return Err(CatridgeError::InvalidRamSize(size_code));
        };
        let ram: Vec<u8> = vec![0u8; ram_size];
        let c = Catridge {
            cartridge_type,
            rom,
            rom_bank: 1,
            ram,
            ram_enabled: false,
            ram_bank: 0,
            rom_banking: false,
        };
        assert(c@.ram =~= Seq::new(ram_size as nat, |i: int| 0u8));
        Ok(c)
    }

    pub fn read(&self, address: u16) -> (r: u8)
        requires
            is_cartridge_address(address),
        ensures
            r == self@.read(address),
    {
        match self.cartridge_type {
            CatridgeType::NoMbc => no_mbc::read(self, address),
            CatridgeType::Mbc1 => mbc1::read(self, address),
        }
    }

    pub fn write(&mut self, address: u16, value: u8)
        requires
            is_cartridge_address(address),
        ensures
            final(self)@ == old(self)@.write(address, value),
    {
        match self.cartridge_type {
            CatridgeType::NoMbc => no_mbc::write(self, address, value),
            CatridgeType::Mbc1 => mbc1::write(self, address, value),
        }
    }

    fn update_rom_bank(&mut self)
        ensures
            final(self)@ == (CatridgeState { rom_bank: translate_bank(old(self).rom_bank), ..old(self)@ }),
    {
        // a bank number of 0x00, 0x20, 0x40 or 0x60 selects the next bank
        if self.rom_bank == 0x00 || self.rom_bank == 0x20 || self.rom_bank == 0x40
            || self.rom_bank == 0x60 {
            self.rom_bank = self.rom_bank + 1;
        }
    }
}

/// A bank number written to an MBC1 never selects 0x00, 0x20, 0x40 or
/// 0x60: each of those becomes the bank after it.
pub proof fn lemma_bank_write_skips_zero_banks(c: CatridgeState, address: u16, value: u8)
    requires
        c.cartridge_type == CatridgeType::Mbc1,
        0x2000 <= address <= 0x5fff,
        address <= 0x3fff || c.rom_banking,
    ensures
        ({
            let raw: u8 = if address <= 0x3fff {
                ((c.rom_bank / 32) * 32 + value % 32) as u8
            } else {
                (c.rom_bank % 32 + (value % 4) * 32) as u8
            };
            &&& (raw == 0x00 || raw == 0x20 || raw == 0x40 || raw == 0x60) ==> c.write(
                address,
                value,
            ).rom_bank == raw + 1
            &&& !(raw == 0x00 || raw == 0x20 || raw == 0x40 || raw == 0x60) ==> c.write(
                address,
                value,
            ).rom_bank == raw
        }),
{
}

} // verus!
