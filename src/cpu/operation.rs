use vstd::prelude::*;

use crate::cpu::{add16_wrap, lemma_flags_read_back, sign_extend, CpuState, CPU};

verus! {

// The result of each operation, and the flags it sets, as the SM83 defines them.

pub open spec fn inc_spec(s: CpuState, v: u8) -> (CpuState, u8) {
    let r = ((v + 1) % 256) as u8;
    (s.with_flags(r == 0, false, v & 0x0f == 0x0f, s.flag_c()), r)
}

pub open spec fn dec_spec(s: CpuState, v: u8) -> (CpuState, u8) {
    let r = ((v - 1 + 256) % 256) as u8;
    (s.with_flags(r == 0, true, v & 0x0f == 0, s.flag_c()), r)
}

pub open spec fn add8_spec(s: CpuState, b: u8) -> CpuState {
    let a = s.a();
    let r = ((a + b) % 256) as u8;
    s.with_a(r).with_flags(r == 0, false, (a & 0x0f) + (b & 0x0f) > 0x0f, a + b > 0xff)
}

/// Carry in as 0 or 1.
pub open spec fn carry_in(s: CpuState) -> int {
    if s.flag_c() {
        1
    } else {
        0
    }
}

pub open spec fn adc_spec(s: CpuState, b: u8) -> CpuState {
    let a = s.a();
    let c = carry_in(s);
    let r = ((a + b + c) % 256) as u8;
    s.with_a(r).with_flags(r == 0, false, (a & 0x0f) + (b & 0x0f) + c > 0x0f, a + b + c > 0xff)
}

pub open spec fn sub_spec(s: CpuState, b: u8) -> CpuState {
    let a = s.a();
    let r = ((a - b + 256) % 256) as u8;
    s.with_a(r).with_flags(r == 0, true, (a & 0x0f) < (b & 0x0f), a < b)
}

pub open spec fn sbc_spec(s: CpuState, b: u8) -> CpuState {
    let a = s.a();
    let c = carry_in(s);
    let r = ((a - b - c + 512) % 256) as u8;
    s.with_a(r).with_flags(r == 0, true, (a & 0x0f) < (b & 0x0f) + c, a < b + c)
}

pub open spec fn cp_spec(s: CpuState, b: u8) -> CpuState {
    let a = s.a();
    s.with_flags(a == b, true, (a & 0x0f) < (b & 0x0f), a < b)
}

pub open spec fn or_spec(s: CpuState, b: u8) -> CpuState {
    let r = s.a() | b;
    s.with_a(r).with_flags(r == 0, false, false, false)
}

pub open spec fn and_spec(s: CpuState, b: u8) -> CpuState {
    let r = s.a() & b;
    s.with_a(r).with_flags(r == 0, false, true, false)
}

pub open spec fn xor_spec(s: CpuState, b: u8) -> CpuState {
    let r = s.a() ^ b;
    s.with_a(r).with_flags(r == 0, false, false, false)
}

/// ADD HL,rr: Z kept, N cleared, H from bit 11, C from bit 15.
pub open spec fn add16_spec(s: CpuState, a: u16, b: u16) -> (CpuState, u16) {
    (
        s.with_flags(s.flag_z(), false, (a & 0x0fff) + (b & 0x0fff) > 0x0fff, a + b > 0xffff),
        add16_wrap(a, b),
    )
}

/// Flags of a rotate or shift: Z from the result, C the bit shifted out.
pub open spec fn shift_flags(s: CpuState, r: u8, out: bool) -> CpuState {
    s.with_flags(r == 0, false, false, out)
}

pub open spec fn rlc_value(v: u8) -> u8 {
    (v << 1u8) | (v >> 7u8)
}

pub open spec fn rrc_value(v: u8) -> u8 {
    (v >> 1u8) | (v << 7u8)
}

pub open spec fn rl_value(v: u8, c: bool) -> u8 {
    (v << 1u8) | (if c {
        1u8
    } else {
        0u8
    })
}

pub open spec fn rr_value(v: u8, c: bool) -> u8 {
    (v >> 1u8) | (if c {
        0x80u8
    } else {
        0u8
    })
}

pub open spec fn sla_value(v: u8) -> u8 {
    v << 1u8
}

pub open spec fn sra_value(v: u8) -> u8 {
    (v >> 1u8) | (v & 0x80u8)
}

pub open spec fn srl_value(v: u8) -> u8 {
    v >> 1u8
}

pub open spec fn swap_value(v: u8) -> u8 {
    ((v & 0x0fu8) << 4u8) | ((v & 0xf0u8) >> 4u8)
}

pub open spec fn high_bit(v: u8) -> bool {
    v & 0x80 != 0
}

pub open spec fn low_bit(v: u8) -> bool {
    v & 0x01 != 0
}

/// BIT n: Z set when the bit is clear, N cleared, H set, C kept.
pub open spec fn bit_spec(s: CpuState, n: u8, v: u8) -> CpuState {
    s.with_flags(v & (1u8 << n) == 0, false, true, s.flag_c())
}

/// JP nn, taken when `condition` holds.
pub open spec fn jp_spec(s: CpuState, condition: bool) -> CpuState {
    let (t, target) = s.fetch16();
    if condition {
        CpuState { pc: target, ..t }
    } else {
        t
    }
}

/// JR e: the signed offset counts from the byte after the instruction.
pub open spec fn jr_spec(s: CpuState, condition: bool) -> CpuState {
    let (t, e) = s.fetch();
    if condition {
        CpuState { pc: add16_wrap(t.pc, sign_extend(e)), ..t }
    } else {
        t
    }
}

pub open spec fn ret_spec(s: CpuState) -> CpuState {
    let (t, target) = s.pop16();
    CpuState { pc: target, ..t }
}

pub open spec fn call_spec(s: CpuState) -> CpuState {
    let (t, target) = s.fetch16();
    CpuState { pc: target, ..t.push16(t.pc) }
}

pub open spec fn call_if_spec(s: CpuState, condition: bool) -> CpuState {
    if condition {
        call_spec(s)
    } else {
        CpuState { pc: add16_wrap(s.pc, 2), ..s }
    }
}

pub fn inc(cpu: &mut CPU, original: u8) -> (r: u8)
    requires
        old(cpu).wf(),
    ensures
        final(cpu).wf(),
        (final(cpu)@, r) == inc_spec(old(cpu)@, original),
{
    let new_value: u8 = original.wrapping_add(1);
    let c: bool = cpu.get_c_flag();
    // H: carry out of bit 3
    cpu.set_flags(new_value == 0, false, original & 0x0f == 0x0f, c);
    new_value
}

pub fn dec(cpu: &mut CPU, original: u8) -> (r: u8)
    requires
        old(cpu).wf(),
    ensures
        final(cpu).wf(),
        (final(cpu)@, r) == dec_spec(old(cpu)@, original),
{
    let new_value: u8 = original.wrapping_sub(1);
    let c: bool = cpu.get_c_flag();
    // H: borrow from bit 4
    cpu.set_flags(new_value == 0, true, original & 0x0f == 0, c);
    new_value
}

pub fn add8(cpu: &mut CPU, value: u8)
    requires
        old(cpu).wf(),
    ensures
        final(cpu).wf(),
        final(cpu)@ == add8_spec(old(cpu)@, value),
{
    let original: u8 = cpu.af.high();
    let sum: u16 = original as u16 + value as u16;
    let new_value: u8 = (sum % 256) as u8;
    cpu.set_a(new_value);
    cpu.set_flags(
        new_value == 0,
        false,
        (original & 0x0f) as u16 + (value & 0x0f) as u16 > 0x0f,
        sum > 0xff,
    );
}

pub fn adc(cpu: &mut CPU, op2: u8)
    requires
        old(cpu).wf(),
    ensures
        final(cpu).wf(),
        final(cpu)@ == adc_spec(old(cpu)@, op2),
{
    let op1: u8 = cpu.af.high();
    let c: u16 = if cpu.get_c_flag() {
        1
    } else {
        0
    };
    let sum: u16 = op1 as u16 + op2 as u16 + c;
    let new_value: u8 = (sum % 256) as u8;
    cpu.set_a(new_value);
    cpu.set_flags(
        new_value == 0,
        false,
        (op1 & 0xf) as u16 + (op2 & 0xf) as u16 + c > 0xf,
        sum > 0xff,
    );
}

pub fn sub(cpu: &mut CPU, op2: u8)
    requires
        old(cpu).wf(),
    ensures
        final(cpu).wf(),
        final(cpu)@ == sub_spec(old(cpu)@, op2),
{
    let op1: u8 = cpu.af.high();
    let value: u8 = op1.wrapping_sub(op2);
    cpu.set_a(value);
    cpu.set_flags(value == 0, true, op1 & 0x0f < op2 & 0x0f, op1 < op2);
}

pub fn sbc(cpu: &mut CPU, op2: u8)
    requires
        old(cpu).wf(),
    ensures
        final(cpu).wf(),
        final(cpu)@ == sbc_spec(old(cpu)@, op2),
{
    let op1: u8 = cpu.af.high();
    let c: u16 = if cpu.get_c_flag() {
        1
    } else {
        0
    };
    let value: u8 = ((op1 as u16 + 512 - op2 as u16 - c) % 256) as u8;
    cpu.set_a(value);
    cpu.set_flags(
        value == 0,
        true,
        ((op1 & 0x0f) as u16) < (op2 & 0x0f) as u16 + c,
        (op1 as u16) < (op2 as u16) + c,
    );
}

pub fn cp(cpu: &mut CPU, op1: u8)
    requires
        old(cpu).wf(),
    ensures
        final(cpu).wf(),
        final(cpu)@ == cp_spec(old(cpu)@, op1),
{
    let a: u8 = cpu.af.high();
    cpu.set_flags(a == op1, true, (a & 0x0f) < (op1 & 0x0f), a < op1);
}

pub fn or(cpu: &mut CPU, op1: u8)
    requires
        old(cpu).wf(),
    ensures
        final(cpu).wf(),
        final(cpu)@ == or_spec(old(cpu)@, op1),
{
    let r: u8 = cpu.af.high() | op1;
    cpu.set_a(r);
    cpu.set_flags(r == 0, false, false, false);
}

pub fn and(cpu: &mut CPU, op1: u8)
    requires
        old(cpu).wf(),
    ensures
        final(cpu).wf(),
        final(cpu)@ == and_spec(old(cpu)@, op1),
{
    let r: u8 = cpu.af.high() & op1;
    cpu.set_a(r);
    cpu.set_flags(r == 0, false, true, false);
}

pub fn xor(cpu: &mut CPU, op1: u8)
    requires
        old(cpu).wf(),
    ensures
        final(cpu).wf(),
        final(cpu)@ == xor_spec(old(cpu)@, op1),
{
    let r: u8 = cpu.af.high() ^ op1;
    cpu.set_a(r);
    cpu.set_flags(r == 0, false, false, false);
}

pub fn add16(cpu: &mut CPU, op1: u16, op2: u16) -> (r: u16)
    requires
        old(cpu).wf(),
    ensures
        final(cpu).wf(),
        (final(cpu)@, r) == add16_spec(old(cpu)@, op1, op2),
{
    let new_value: u16 = op1.wrapping_add(op2);
    let half_carry: bool = (op1 & 0x0fff) as u32 + (op2 & 0x0fff) as u32 > 0x0fff;
    let carry: bool = (op1 as u32) + (op2 as u32) > 0xffff;
    let z: bool = cpu.get_z_flag();
    cpu.set_flags(z, false, half_carry, carry);
    new_value
}

pub fn jp(cpu: &mut CPU, condition: bool)
    requires
        old(cpu).wf(),
    ensures
        final(cpu).wf(),
        final(cpu)@ == jp_spec(old(cpu)@, condition),
{
    let address: u16 = cpu.pop_pc16();
    if condition {
        cpu.pc = address;
    }
}

pub fn jr(cpu: &mut CPU, condition: bool)
    requires
        old(cpu).wf(),
    ensures
        final(cpu).wf(),
        final(cpu)@ == jr_spec(old(cpu)@, condition),
{
    let n: u8 = cpu.pop_pc();
    let offset: u16 = if n < 128 {
        n as u16
    } else {
        n as u16 + 0xff00
    };
    if condition {
        cpu.pc = cpu.pc.wrapping_add(offset);
    }
}

pub fn rlc(cpu: &mut CPU, op1: u8) -> (r: u8)
    requires
        old(cpu).wf(),
    ensures
        final(cpu).wf(),
        r == rlc_value(op1),
        final(cpu)@ == shift_flags(old(cpu)@, r, high_bit(op1)),
{
    // rotate left, old bit 7 to carry
    let new_value: u8 = (op1 << 1u8) | (op1 >> 7u8);
    cpu.set_flags(new_value == 0, false, false, (op1 & 0x80) != 0);
    new_value
}

pub fn rrc(cpu: &mut CPU, op1: u8) -> (r: u8)
    requires
        old(cpu).wf(),
    ensures
        final(cpu).wf(),
        r == rrc_value(op1),
        final(cpu)@ == shift_flags(old(cpu)@, r, low_bit(op1)),
{
    // rotate right, old bit 0 to carry
    let new_value: u8 = (op1 >> 1u8) | (op1 << 7u8);
    cpu.set_flags(new_value == 0, false, false, (op1 & 0x01) != 0);
    new_value
}

pub fn rr(cpu: &mut CPU, op1: u8) -> (r: u8)
    requires
        old(cpu).wf(),
    ensures
        final(cpu).wf(),
        r == rr_value(op1, old(cpu)@.flag_c()),
        final(cpu)@ == shift_flags(old(cpu)@, r, low_bit(op1)),
{
    // rotate right through carry
    let carry: u8 = if cpu.get_c_flag() {
        0x80
    } else {
        0
    };
    let new_value: u8 = (op1 >> 1u8) | carry;
    cpu.set_flags(new_value == 0, false, false, (op1 & 0x01) != 0);
    new_value
}

pub fn rl(cpu: &mut CPU, op1: u8) -> (r: u8)
    requires
        old(cpu).wf(),
    ensures
        final(cpu).wf(),
        r == rl_value(op1, old(cpu)@.flag_c()),
        final(cpu)@ == shift_flags(old(cpu)@, r, high_bit(op1)),
{
    // rotate left through carry
    let carry: u8 = if cpu.get_c_flag() {
        1
    } else {
        0
    };
    let new_value: u8 = (op1 << 1u8) | carry;
    cpu.set_flags(new_value == 0, false, false, (op1 & 0x80) != 0);
    new_value
}

pub fn sla(cpu: &mut CPU, op1: u8) -> (r: u8)
    requires
        old(cpu).wf(),
    ensures
        final(cpu).wf(),
        r == sla_value(op1),
        final(cpu)@ == shift_flags(old(cpu)@, r, high_bit(op1)),
{
    let new_value: u8 = op1 << 1u8;
    cpu.set_flags(new_value == 0, false, false, (op1 & 0x80) != 0);
    new_value
}

pub fn sra(cpu: &mut CPU, op1: u8) -> (r: u8)
    requires
        old(cpu).wf(),
    ensures
        final(cpu).wf(),
        r == sra_value(op1),
        final(cpu)@ == shift_flags(old(cpu)@, r, low_bit(op1)),
{
    // shift right into carry, bit 7 kept
    let new_value: u8 = (op1 >> 1u8) | (op1 & 0x80u8);
    cpu.set_flags(new_value == 0, false, false, (op1 & 0x01) != 0);
    new_value
}

pub fn srl(cpu: &mut CPU, op1: u8) -> (r: u8)
    requires
        old(cpu).wf(),
    ensures
        final(cpu).wf(),
        r == srl_value(op1),
        final(cpu)@ == shift_flags(old(cpu)@, r, low_bit(op1)),
{
    // shift right into carry, bit 7 cleared
    let new_value: u8 = op1 >> 1u8;
    cpu.set_flags(new_value == 0, false, false, (op1 & 0x01) != 0);
    new_value
}

pub fn swap(cpu: &mut CPU, op1: u8) -> (r: u8)
    requires
        old(cpu).wf(),
    ensures
        final(cpu).wf(),
        r == swap_value(op1),
        final(cpu)@ == shift_flags(old(cpu)@, r, false),
{
    let new_value: u8 = ((op1 & 0x0fu8) << 4u8) | ((op1 & 0xf0u8) >> 4u8);
    cpu.set_flags(new_value == 0, false, false, false);
    new_value
}

pub fn bit(cpu: &mut CPU, n: u8, value: u8)
    requires
        old(cpu).wf(),
        n < 8,
    ensures
        final(cpu).wf(),
        final(cpu)@ == bit_spec(old(cpu)@, n, value),
{
    let mask: u8 = 1u8 << n;
    let c: bool = cpu.get_c_flag();
    cpu.set_flags(value & mask == 0, false, true, c);
}

pub fn ret(cpu: &mut CPU)
    requires
        old(cpu).wf(),
    ensures
        final(cpu).wf(),
        final(cpu)@ == ret_spec(old(cpu)@),
{
    cpu.pc = cpu.pop16();
}

pub fn call(cpu: &mut CPU)
    requires
        old(cpu).wf(),
    ensures
        final(cpu).wf(),
        final(cpu)@ == call_spec(old(cpu)@),
{
    let next: u16 = cpu.pop_pc16();
    let pc: u16 = cpu.pc;
    cpu.push16(pc);
    cpu.pc = next;
}

pub fn call_if(cpu: &mut CPU, condition: bool)
    requires
        old(cpu).wf(),
    ensures
        final(cpu).wf(),
        final(cpu)@ == call_if_spec(old(cpu)@, condition),
{
    if condition {
        call(cpu);
    } else {
        cpu.pc = cpu.pc.wrapping_add(2);
    }
}

/// ADC on any A, operand and carry: A becomes the 8-bit sum with carry, and
/// the flags read back as Z = (result == 0), N = 0, H = carry out of bit 3,
/// C = carry out of bit 7.
pub proof fn lemma_adc_flags(s: CpuState, b: u8)
    ensures
        ({
            let a = s.a();
            let c = carry_in(s);
            let t = adc_spec(s, b);
            &&& t.a() == (a + b + c) % 256
            &&& t.flag_z() == ((a + b + c) % 256 == 0)
            &&& !t.flag_n()
            &&& t.flag_h() == ((a & 0x0f) + (b & 0x0f) + c > 0x0f)
            &&& t.flag_c() == (a + b + c > 0xff)
        }),
{
    let a = s.a();
    let c = carry_in(s);
    let r = ((a + b + c) % 256) as u8;
    let u = s.with_a(r);
    crate::cpu::lemma_write_a(s.af, r);
    lemma_flags_read_back(u, r == 0, false, (a & 0x0f) + (b & 0x0f) + c > 0x0f, a + b + c > 0xff);
}

} // verus!
