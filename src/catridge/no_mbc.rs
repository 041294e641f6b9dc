use vstd::prelude::*;

use crate::catridge::{byte_or_ff, is_cartridge_address, Catridge};

verus! {

/// A cartridge without a controller: the address is the ROM offset.
pub fn read(catridge: &Catridge, address: u16) -> (r: u8)
    ensures
        r == byte_or_ff(catridge@.rom, address as int),
{
    if (address as usize) < catridge.rom.len() {
        catridge.rom[address as usize]
    } else {
        0xff
    }
}

/// Plain ROM takes no writes.
pub fn write(catridge: &mut Catridge, address: u16, value: u8)
    requires
        is_cartridge_address(address),
    ensures
        final(catridge)@ == old(catridge)@,
{
}

} // verus!
