use vstd::prelude::*;

use crate::catridge::{is_cartridge_address, Catridge};

verus! {

pub fn read(catridge: &Catridge, address: u16) -> (r: u8)
    requires
        is_cartridge_address(address),
    ensures
        r == catridge@.mbc1_read(address),
{
    if address <= 0x3fff {
        // ROM bank 00
        if (address as usize) < catridge.rom.len() {
            catridge.rom[address as usize]
        } else {
            0xff
        }
    } else if address <= 0x7fff {
        // switchable ROM bank of 16 KiB
        let offset: usize = 0x4000 * (catridge.rom_bank as usize) + (address - 0x4000) as usize;
        if offset < catridge.rom.len() {
            catridge.rom[offset]
        } else {
            0xff
        }
    } else {
        // external RAM, in banks of 8 KiB
        if !catridge.ram_enabled {
            return 0xff;
        }
        let offset: usize = 0x2000 * (catridge.ram_bank as usize) + (address - 0xa000) as usize;
        if offset < catridge.ram.len() {
            catridge.ram[offset]
        } else {
            0xff
        }
    }
}

pub fn write(catridge: &mut Catridge, address: u16, value: u8)
    requires
        is_cartridge_address(address),
    ensures
        final(catridge)@ == old(catridge)@.mbc1_write(address, value),
{
    if address <= 0x1fff {
        // RAM enable: 0x0a in the low nibble enables, anything else disables
        catridge.ram_enabled = value % 16 == 0x0a;
    } else if address <= 0x3fff {
        // low five bits of the ROM bank number
        catridge.rom_bank = (catridge.rom_bank / 32) * 32 + value % 32;
        catridge.update_rom_bank();
    } else if address <= 0x5fff {
        // two bits: the RAM bank, or bits 5-6 of the ROM bank number
        if catridge.rom_banking {
            catridge.rom_bank = catridge.rom_bank % 32 + (value % 4) * 32;
            catridge.update_rom_bank();
        } else {
            catridge.ram_bank = value % 4;
        }
    } else if address <= 0x7fff {
        // banking mode: 0 selects ROM banking, 1 RAM banking
        catridge.rom_banking = value % 2 == 0;
        if catridge.rom_banking {
            catridge.ram_bank = 0;
        }
    } else {
        if !catridge.ram_enabled {
            return;
        }
        let offset: usize = 0x2000 * (catridge.ram_bank as usize) + (address - 0xa000) as usize;
        if offset < catridge.ram.len() {
            catridge.ram.set(offset, value);
        }
    }
}

} // verus!
