use vstd::prelude::*;

verus! {

/// High byte of a 16-bit register value.
pub open spec fn high_of(x: u16) -> u8 {
    (x >> 8u16) as u8
}

/// Low byte of a 16-bit register value.
pub open spec fn low_of(x: u16) -> u8 {
    (x & 0x00ffu16) as u8
}

/// The value a register holds after `x` is written to it: a non-zero mask
/// clears the bits it does not hold.
pub open spec fn masked(x: u16, mask: u16) -> u16 {
    if mask == 0 {
        x
    } else {
        x & mask
    }
}

/// `x` with its high byte replaced by `v`.
pub open spec fn replace_high(x: u16, v: u8) -> u16 {
    (x & 0x00ffu16) | ((v as u16) << 8u16)
}

/// `x` with its low byte replaced by `v`.
pub open spec fn replace_low(x: u16, v: u8) -> u16 {
    (x & 0xff00u16) | (v as u16)
}

/// A 16-bit register pair (AF, BC, DE, HL) whose halves can also be used
/// as 8-bit registers. Every write goes through `mask` when it is non-zero;
/// the flag register uses `0xfff0`, which keeps the low nibble of F at zero.
pub struct Register {
    value: u16,
    mask: u16,
}

impl View for Register {
    type V = u16;

    closed spec fn view(&self) -> u16 {
        self.value
    }
}

impl Register {
    /// The mask applied on every write.
    pub closed spec fn mask_spec(&self) -> u16 {
        self.mask
    }

    pub fn new(value: u16, mask: u16) -> (r: Self)
        ensures
            r@ == value,
            r.mask_spec() == mask,
    {
        Register { value, mask }
    }

    pub fn high(&self) -> (r: u8)
        ensures
            r == high_of(self@),
    {
        (self.value >> 8u16) as u8
    }

    pub fn low(&self) -> (r: u8)
        ensures
            r == low_of(self@),
    {
        (self.value & 0x00ff) as u8
    }

    pub fn value(&self) -> (r: u16)
        ensures
            r == self@,
    {
        self.value
    }

    pub fn set_high(&mut self, value: u8)
        ensures
            final(self)@ == masked(replace_high(old(self)@, value), old(self).mask_spec()),
            final(self).mask_spec() == old(self).mask_spec(),
    {
        self.value = (self.value & 0x00ff) | ((value as u16) << 8u16);
        if self.mask != 0 {
            self.value = self.value & self.mask;
        }
    }

    pub fn set_low(&mut self, value: u8)
        ensures
            final(self)@ == masked(replace_low(old(self)@, value), old(self).mask_spec()),
            final(self).mask_spec() == old(self).mask_spec(),
    {
        self.value = (self.value & 0xff00) | (value as u16);
        if self.mask != 0 {
            self.value = self.value & self.mask;
        }
    }

    pub fn set(&mut self, value: u16)
        ensures
            final(self)@ == masked(value, old(self).mask_spec()),
            final(self).mask_spec() == old(self).mask_spec(),
    {
        self.value = value;
        if self.mask != 0 {
            self.value = self.value & self.mask;
        }
    }
}

/// Whatever is written through the flag register's mask, its low nibble
/// reads back as zero.
pub proof fn lemma_flag_mask_clears_low_nibble(x: u16)
    ensures
        masked(x, 0xfff0) & 0x000f == 0,
        low_of(masked(x, 0xfff0)) & 0x0f == 0,
{
    assert((x & 0xfff0u16) & 0x000fu16 == 0u16) by (bit_vector);
    assert(((x & 0xfff0u16) & 0x00ffu16) as u8 & 0x0fu8 == 0u8) by (bit_vector);
}

} // verus!
