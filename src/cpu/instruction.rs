use vstd::prelude::*;

use crate::cpu::opcode::{base_clocks, cb_clock, cb_clocks, Opcode};
use crate::cpu::operation::{
    self, adc_spec, add16_spec, add8_spec, and_spec, bit_spec, call_if_spec, call_spec, cp_spec,
    dec_spec, high_bit, inc_spec, jp_spec, jr_spec, low_bit, or_spec, ret_spec, rl_value, rlc_value,
    rr_value, rrc_value, sbc_spec, shift_flags, sla_value, sra_value, srl_value, sub_spec,
    swap_value, xor_spec,
};
use crate::cpu::{add16_wrap, flag_bits, sign_extend, sub16_wrap, CpuState, IllegalOpcode, CPU};

verus! {

/// The opcodes that the SM83 leaves undefined.
pub open spec fn is_illegal(op: u8) -> bool {
    op == 0xd3 || op == 0xdb || op == 0xdd || op == 0xe3 || op == 0xe4 || op == 0xeb || op
        == 0xec || op == 0xed || op == 0xf4 || op == 0xfc || op == 0xfd
}

/// Branch condition `cc`: NZ, Z, NC, C.
pub open spec fn condition(s: CpuState, cc: u8) -> bool {
    if cc == 0 {
        !s.flag_z()
    } else if cc == 1 {
        s.flag_z()
    } else if cc == 2 {
        !s.flag_c()
    } else {
        s.flag_c()
    }
}

/// Whether `op` is a conditional JR, JP, CALL or RET, and the clocks a
/// taken branch adds.
pub open spec fn conditional_extra(op: u8) -> u32 {
    if op == 0x20 || op == 0x28 || op == 0x30 || op == 0x38 {
        4
    } else if op == 0xc2 || op == 0xca || op == 0xd2 || op == 0xda {
        4
    } else if op == 0xc4 || op == 0xcc || op == 0xd4 || op == 0xdc {
        12
    } else if op == 0xc0 || op == 0xc8 || op == 0xd0 || op == 0xd8 {
        12
    } else {
        0
    }
}

/// Clocks of the instruction `op` whose opcode byte has been fetched.
pub open spec fn exec_clocks(s: CpuState, op: u8) -> u32 {
    if op == 0xcb {
        cb_clocks(s.read(s.pc))
    } else if conditional_extra(op) > 0 && condition(s, (op / 8) % 4) {
        (base_clocks(op) + conditional_extra(op)) as u32
    } else {
        base_clocks(op)
    }
}

/// The eight arithmetic and logic operations on A, numbered as in the opcode
/// table: ADD, ADC, SUB, SBC, AND, XOR, OR, CP.
pub open spec fn alu_spec(s: CpuState, y: u8, v: u8) -> CpuState {
    if y == 0 {
        add8_spec(s, v)
    } else if y == 1 {
        adc_spec(s, v)
    } else if y == 2 {
        sub_spec(s, v)
    } else if y == 3 {
        sbc_spec(s, v)
    } else if y == 4 {
        and_spec(s, v)
    } else if y == 5 {
        xor_spec(s, v)
    } else if y == 6 {
        or_spec(s, v)
    } else {
        cp_spec(s, v)
    }
}

/// Rotate or shift number `y` of the 0xcb table (RLC, RRC, RL, RR, SLA,
/// SRA, SWAP, SRL): the result and the bit that goes to carry.
pub open spec fn rotation(y: u8, v: u8, c: bool) -> (u8, bool) {
    if y == 0 {
        (rlc_value(v), high_bit(v))
    } else if y == 1 {
        (rrc_value(v), low_bit(v))
    } else if y == 2 {
        (rl_value(v, c), high_bit(v))
    } else if y == 3 {
        (rr_value(v, c), low_bit(v))
    } else if y == 4 {
        (sla_value(v), high_bit(v))
    } else if y == 5 {
        (sra_value(v), low_bit(v))
    } else if y == 6 {
        (swap_value(v), false)
    } else {
        (srl_value(v), low_bit(v))
    }
}

/// A 0xcb-prefixed instruction; PC is at its second byte.
pub open spec fn cb_spec(s: CpuState) -> CpuState {
    let (t, cb) = s.fetch();
    let x = cb / 64;
    let y = (cb / 8) % 8;
    let z = cb % 8;
    let v = t.r8(z);
    if x == 0 {
        let (r, out) = rotation(y, v, t.flag_c());
        shift_flags(t, r, out).set_r8(z, r)
    } else if x == 1 {
        bit_spec(t, y, v)
    } else if x == 2 {
        t.set_r8(z, v & !(1u8 << y))
    } else {
        t.set_r8(z, v | (1u8 << y))
    }
}

/// LD (rr),A and LD A,(rr) for BC, DE, HL+ and HL-.
pub open spec fn indirect_spec(s: CpuState, op: u8) -> CpuState {
    let p = op / 16;
    let address = if p == 0 {
        s.bc
    } else if p == 1 {
        s.de
    } else {
        s.hl
    };
    let t = if (op / 8) % 2 == 0 {
        s.write(address, s.a())
    } else {
        s.with_a(s.read(address))
    };
    if p == 2 {
        CpuState { hl: add16_wrap(s.hl, 1), ..t }
    } else if p == 3 {
        CpuState { hl: sub16_wrap(s.hl, 1), ..t }
    } else {
        t
    }
}

/// DAA: A corrected to BCD after an addition (N clear) or a subtraction
/// (N set), and the carry it leaves.
pub open spec fn daa_value(a: u8, n: bool, h: bool, c: bool) -> (u8, bool) {
    if !n {
        let carry = c || a > 0x99;
        let a1: u8 = if carry {
            ((a + 0x60) % 256) as u8
        } else {
            a
        };
        let a2: u8 = if h || (a1 & 0x0f) > 0x09 {
            ((a1 + 0x06) % 256) as u8
        } else {
            a1
        };
        (a2, carry)
    } else {
        let a1: u8 = if c {
            ((a + 256 - 0x60) % 256) as u8
        } else {
            a
        };
        let a2: u8 = if h {
            ((a1 + 256 - 0x06) % 256) as u8
        } else {
            a1
        };
        (a2, c)
    }
}

pub open spec fn daa_spec(s: CpuState) -> CpuState {
    let (r, c) = daa_value(s.a(), s.flag_n(), s.flag_h(), s.flag_c());
    s.with_a(r).with_flags(r == 0, s.flag_n(), false, c)
}

/// The accumulator rotates, DAA, CPL, SCF and CCF (opcodes 0x07 to 0x3f).
pub open spec fn accumulator_spec(s: CpuState, y: u8) -> CpuState {
    let a = s.a();
    if y < 4 {
        let (r, out) = rotation(y, a, s.flag_c());
        s.with_a(r).with_flags(false, false, false, out)
    } else if y == 4 {
        daa_spec(s)
    } else if y == 5 {
        s.with_a(!a).with_flags(s.flag_z(), true, true, s.flag_c())
    } else if y == 6 {
        s.with_flags(s.flag_z(), false, false, true)
    } else {
        s.with_flags(s.flag_z(), false, false, !s.flag_c())
    }
}

/// SP plus a signed byte, with H and C from the unsigned low byte:
/// the sum and the flag register it leaves.
pub open spec fn sp_offset_spec(s: CpuState, e: u8) -> (CpuState, u16) {
    (
        s.with_flags(false, false, (s.sp & 0x0f) + (e & 0x0f) > 0x0f, (s.sp & 0xff) + e > 0xff),
        add16_wrap(s.sp, sign_extend(e)),
    )
}

/// NOP, LD (nn),SP, STOP and the relative jumps (opcodes 0x00 to 0x38, z = 0).
/// STOP, with no joypad or speed switch to wait for, does nothing.
pub open spec fn control0_spec(s: CpuState, y: u8) -> CpuState {
    if y == 0 || y == 2 {
        s
    } else if y == 1 {
        let (t, nn) = s.fetch16();
        t.write16(nn, t.sp)
    } else if y == 3 {
        jr_spec(s, true)
    } else {
        jr_spec(s, condition(s, (y - 4) as u8))
    }
}

/// LD rr,nn and ADD HL,rr (z = 1), INC rr and DEC rr (z = 3).
pub open spec fn wide_spec(s: CpuState, y: u8, z: u8) -> CpuState {
    let p = y / 2;
    if z == 1 {
        if y % 2 == 0 {
            let (t, nn) = s.fetch16();
            t.set_rp(p, nn)
        } else {
            let (t, r) = add16_spec(s, s.hl, s.rp(p));
            CpuState { hl: r, ..t }
        }
    } else if y % 2 == 0 {
        s.set_rp(p, add16_wrap(s.rp(p), 1))
    } else {
        s.set_rp(p, sub16_wrap(s.rp(p), 1))
    }
}

/// INC r (z = 4), DEC r (z = 5) and LD r,n (z = 6).
pub open spec fn byte_spec(s: CpuState, y: u8, z: u8) -> CpuState {
    if z == 4 {
        let (t, r) = inc_spec(s, s.r8(y));
        t.set_r8(y, r)
    } else if z == 5 {
        let (t, r) = dec_spec(s, s.r8(y));
        t.set_r8(y, r)
    } else {
        let (t, n) = s.fetch();
        t.set_r8(y, n)
    }
}

/// Opcodes 0x00 to 0x3f.
#[verifier::opaque]
pub open spec fn block0_spec(s: CpuState, op: u8) -> CpuState {
    let y = (op / 8) % 8;
    let z = op % 8;
    if z == 0 {
        control0_spec(s, y)
    } else if z == 1 || z == 3 {
        wide_spec(s, y, z)
    } else if z == 2 {
        indirect_spec(s, op)
    } else if z == 7 {
        accumulator_spec(s, y)
    } else {
        byte_spec(s, y, z)
    }
}

/// RET cc, LDH, ADD SP,e and LD HL,SP+e (opcodes 0xc0 to 0xf8, z = 0).
pub open spec fn high0_spec(s: CpuState, y: u8) -> CpuState {
    if y < 4 {
        if condition(s, y) {
            ret_spec(s)
        } else {
            s
        }
    } else if y == 4 {
        let (t, n) = s.fetch();
        t.write((0xff00 + n) as u16, t.a())
    } else if y == 5 {
        let (t, e) = s.fetch();
        let (u, r) = sp_offset_spec(t, e);
        CpuState { sp: r, ..u }
    } else if y == 6 {
        let (t, n) = s.fetch();
        t.with_a(t.read((0xff00 + n) as u16))
    } else {
        let (t, e) = s.fetch();
        let (u, r) = sp_offset_spec(t, e);
        CpuState { hl: r, ..u }
    }
}

/// POP, RET, RETI, JP HL and LD SP,HL (z = 1).
pub open spec fn high1_spec(s: CpuState, y: u8) -> CpuState {
    let p = y / 2;
    if y % 2 == 0 {
        let (t, v) = s.pop16();
        t.set_rp2(p, v)
    } else if p == 0 {
        ret_spec(s)
    } else if p == 1 {
        CpuState { ime: true, ..ret_spec(s) }
    } else if p == 2 {
        CpuState { pc: s.hl, ..s }
    } else {
        CpuState { sp: s.hl, ..s }
    }
}

/// JP cc,nn and the loads between A and (C) or (nn) (z = 2).
pub open spec fn high2_spec(s: CpuState, y: u8) -> CpuState {
    if y < 4 {
        jp_spec(s, condition(s, y))
    } else if y == 4 {
        s.write((0xff00 + s.r8(1)) as u16, s.a())
    } else if y == 5 {
        let (t, nn) = s.fetch16();
        t.write(nn, t.a())
    } else if y == 6 {
        s.with_a(s.read((0xff00 + s.r8(1)) as u16))
    } else {
        let (t, nn) = s.fetch16();
        t.with_a(t.read(nn))
    }
}

/// Opcodes 0xc0 to 0xff.
#[verifier::opaque]
pub open spec fn block3_spec(s: CpuState, op: u8) -> CpuState {
    let y = (op / 8) % 8;
    let z = op % 8;
    let p = y / 2;
    if z == 0 {
        high0_spec(s, y)
    } else if z == 1 {
        high1_spec(s, y)
    } else if z == 2 {
        high2_spec(s, y)
    } else if z == 3 {
        if y == 0 {
            jp_spec(s, true)
        } else if y == 1 {
            cb_spec(s)
        } else if y == 6 {
            CpuState { ime: false, ..s }
        } else {
            CpuState { ime: true, ..s }
        }
    } else if z == 4 {
        call_if_spec(s, condition(s, y))
    } else if z == 5 {
        if y % 2 == 0 {
            s.push16(s.rp2(p))
        } else {
            call_spec(s)
        }
    } else if z == 6 {
        let (t, n) = s.fetch();
        alu_spec(t, y, n)
    } else {
        CpuState { pc: (y * 8) as u16, ..s.push16(s.pc) }
    }
}

/// The state after the instruction `op`, whose opcode byte has been fetched.
pub open spec fn exec_state(s: CpuState, op: u8) -> CpuState {
    let x = op / 64;
    if x == 0 {
        block0_spec(s, op)
    } else if x == 1 {
        if op == 0x76 {
            CpuState { halt: true, ..s }
        } else {
            s.set_r8((op / 8) % 8, s.r8(op % 8))
        }
    } else if x == 2 {
        alu_spec(s, (op / 8) % 8, s.r8(op % 8))
    } else {
        block3_spec(s, op)
    }
}

fn condition_holds(cpu: &CPU, cc: u8) -> (r: bool)
    ensures
        r == condition(cpu@, cc),
{
    if cc == 0 {
        !cpu.get_z_flag()
    } else if cc == 1 {
        cpu.get_z_flag()
    } else if cc == 2 {
        !cpu.get_c_flag()
    } else {
        cpu.get_c_flag()
    }
}

fn alu(cpu: &mut CPU, y: u8, v: u8)
    requires
        old(cpu).wf(),
    ensures
        final(cpu).wf(),
        final(cpu)@ == alu_spec(old(cpu)@, y, v),
{
    if y == 0 {
        operation::add8(cpu, v);
    } else if y == 1 {
        operation::adc(cpu, v);
    } else if y == 2 {
        operation::sub(cpu, v);
    } else if y == 3 {
        operation::sbc(cpu, v);
    } else if y == 4 {
        operation::and(cpu, v);
    } else if y == 5 {
        operation::xor(cpu, v);
    } else if y == 6 {
        operation::or(cpu, v);
    } else {
        operation::cp(cpu, v);
    }
}

fn rotate(cpu: &mut CPU, y: u8, v: u8) -> (r: u8)
    requires
        old(cpu).wf(),
    ensures
        final(cpu).wf(),
        r == rotation(y, v, old(cpu)@.flag_c()).0,
        final(cpu)@ == shift_flags(old(cpu)@, r, rotation(y, v, old(cpu)@.flag_c()).1),
{
    if y == 0 {
        operation::rlc(cpu, v)
    } else if y == 1 {
        operation::rrc(cpu, v)
    } else if y == 2 {
        operation::rl(cpu, v)
    } else if y == 3 {
        operation::rr(cpu, v)
    } else if y == 4 {
        operation::sla(cpu, v)
    } else if y == 5 {
        operation::sra(cpu, v)
    } else if y == 6 {
        operation::swap(cpu, v)
    } else {
        operation::srl(cpu, v)
    }
}

fn execute_cb(cpu: &mut CPU)
    requires
        old(cpu).wf(),
    ensures
        final(cpu).wf(),
        final(cpu)@ == cb_spec(old(cpu)@),
{
    let cb: u8 = cpu.pop_pc();
    let x: u8 = cb / 64;
    let y: u8 = (cb / 8) % 8;
    let z: u8 = cb % 8;
    let v: u8 = cpu.get_r8(z);
    if x == 0 {
        let r: u8 = rotate(cpu, y, v);
        cpu.set_r8(z, r);
    } else if x == 1 {
        operation::bit(cpu, y, v);
    } else if x == 2 {
        cpu.set_r8(z, v & !(1u8 << y));
    } else {
        cpu.set_r8(z, v | (1u8 << y));
    }
}

fn indirect(cpu: &mut CPU, op: u8)
    requires
        old(cpu).wf(),
        op < 0x40,
        op % 8 == 2,
    ensures
        final(cpu).wf(),
        final(cpu)@ == indirect_spec(old(cpu)@, op),
{
    let p: u8 = op / 16;
    let hl: u16 = cpu.hl.value();
    let address: u16 = if p == 0 {
        cpu.bc.value()
    } else if p == 1 {
        cpu.de.value()
    } else {
        hl
    };
    if (op / 8) % 2 == 0 {
        let a: u8 = cpu.af.high();
        cpu.write_byte(address, a);
    } else {
        let v: u8 = cpu.read_byte(address);
        cpu.set_a(v);
    }
    if p == 2 {
        cpu.hl.set(hl.wrapping_add(1));
    } else if p == 3 {
        cpu.hl.set(hl.wrapping_sub(1));
    }
}

fn daa_of(a: u8, n: bool, h: bool, c: bool) -> (r: (u8, bool))
    ensures
        r == daa_value(a, n, h, c),
{
    let mut a: u8 = a;
    if !n {
        // after an addition
        let carry: bool = c || a > 0x99;
        if carry {
            a = ((a as u16 + 0x60) % 256) as u8;
        }
        if h || (a & 0x0f) > 0x09 {
            a = ((a as u16 + 0x06) % 256) as u8;
        }
        (a, carry)
    } else {
        // after a subtraction
        if c {
            a = ((a as u16 + 256 - 0x60) % 256) as u8;
        }
        if h {
            a = ((a as u16 + 256 - 0x06) % 256) as u8;
        }
        (a, c)
    }
}

fn daa(cpu: &mut CPU)
    requires
        old(cpu).wf(),
    ensures
        final(cpu).wf(),
        final(cpu)@ == daa_spec(old(cpu)@),
{
    let n: bool = cpu.get_n_flag();
    let (a, c) = daa_of(cpu.af.high(), n, cpu.get_h_flag(), cpu.get_c_flag());
    cpu.set_a(a);
    cpu.set_flags(a == 0, n, false, c);
}

fn accumulator(cpu: &mut CPU, y: u8)
    requires
        old(cpu).wf(),
    ensures
        final(cpu).wf(),
        final(cpu)@ == accumulator_spec(old(cpu)@, y),
{
    let a: u8 = cpu.af.high();
    let z: bool = cpu.get_z_flag();
    let c: bool = cpu.get_c_flag();
    if y < 4 {
        // RLCA, RRCA, RLA, RRA: as the 0xcb rotates, but Z is cleared
        let out: bool = if y % 2 == 0 {
            a & 0x80 != 0
        } else {
            a & 0x01 != 0
        };
        let r: u8 = rotate(cpu, y, a);
        cpu.set_a(r);
        cpu.set_flags(false, false, false, out);
        proof {
            crate::cpu::lemma_flags_then_a(
                old(cpu)@.af,
                flag_bits(r == 0, false, false, rotation(y, a, c).1),
                r,
                flag_bits(false, false, false, out),
            );
        }
    } else if y == 4 {
        daa(cpu);
    } else if y == 5 {
        // CPL
        cpu.set_a(!a);
        cpu.set_flags(z, true, true, c);
    } else if y == 6 {
        // SCF
        cpu.set_flags(z, false, false, true);
    } else {
        // CCF
        cpu.set_flags(z, false, false, !c);
    }
}

fn sp_offset(cpu: &mut CPU) -> (r: u16)
    requires
        old(cpu).wf(),
    ensures
        final(cpu).wf(),
        ({
            let (t, e) = old(cpu)@.fetch();
            (final(cpu)@, r) == sp_offset_spec(t, e)
        }),
{
    let e: u8 = cpu.pop_pc();
    let sp: u16 = cpu.sp;
    let offset: u16 = if e < 128 {
        e as u16
    } else {
        e as u16 + 0xff00
    };
    // H and C come from the unsigned low byte
    let h: bool = (sp & 0x0f) as u32 + (e & 0x0f) as u32 > 0x0f;
    let c: bool = (sp & 0xff) as u32 + e as u32 > 0xff;
    cpu.set_flags(false, false, h, c);
    sp.wrapping_add(offset)
}

fn control0(cpu: &mut CPU, y: u8)
    requires
        old(cpu).wf(),
        y < 8,
    ensures
        final(cpu).wf(),
        final(cpu)@ == control0_spec(old(cpu)@, y),
{
    if y == 0 || y == 2 {
        // NOP, STOP
    } else if y == 1 {
        // LD (nn),SP
        let address: u16 = cpu.pop_pc16();
        let sp: u16 = cpu.sp;
        cpu.write_byte16(address, sp);
    } else if y == 3 {
        operation::jr(cpu, true);
    } else {
        let taken: bool = condition_holds(cpu, y - 4);
        operation::jr(cpu, taken);
    }
}

fn wide(cpu: &mut CPU, y: u8, z: u8)
    requires
        old(cpu).wf(),
        y < 8,
    ensures
        final(cpu).wf(),
        final(cpu)@ == wide_spec(old(cpu)@, y, z),
{
    let p: u8 = y / 2;
    if z == 1 {
        if y % 2 == 0 {
            let nn: u16 = cpu.pop_pc16();
            cpu.set_rp(p, nn);
        } else {
            let hl: u16 = cpu.hl.value();
            let v: u16 = cpu.get_rp(p);
            let r: u16 = operation::add16(cpu, hl, v);
            cpu.hl.set(r);
        }
    } else {
        let v: u16 = cpu.get_rp(p);
        if y % 2 == 0 {
            cpu.set_rp(p, v.wrapping_add(1));
        } else {
            cpu.set_rp(p, v.wrapping_sub(1));
        }
    }
}

fn byte_op(cpu: &mut CPU, y: u8, z: u8)
    requires
        old(cpu).wf(),
    ensures
        final(cpu).wf(),
        final(cpu)@ == byte_spec(old(cpu)@, y, z),
{
    if z == 4 {
        let v: u8 = cpu.get_r8(y);
        let r: u8 = operation::inc(cpu, v);
        cpu.set_r8(y, r);
    } else if z == 5 {
        let v: u8 = cpu.get_r8(y);
        let r: u8 = operation::dec(cpu, v);
        cpu.set_r8(y, r);
    } else {
        let n: u8 = cpu.pop_pc();
        cpu.set_r8(y, n);
    }
}

fn execute_block0(cpu: &mut CPU, op: u8)
    requires
        old(cpu).wf(),
        op < 0x40,
    ensures
        final(cpu).wf(),
        final(cpu)@ == block0_spec(old(cpu)@, op),
{
    proof {
        reveal(block0_spec);
    }
    let y: u8 = (op / 8) % 8;
    let z: u8 = op % 8;
    if z == 0 {
        control0(cpu, y);
    } else if z == 1 || z == 3 {
        wide(cpu, y, z);
    } else if z == 2 {
        indirect(cpu, op);
    } else if z == 7 {
        accumulator(cpu, y);
    } else {
        byte_op(cpu, y, z);
    }
}

fn high0(cpu: &mut CPU, y: u8)
    requires
        old(cpu).wf(),
        y < 8,
    ensures
        final(cpu).wf(),
        final(cpu)@ == high0_spec(old(cpu)@, y),
{
    if y < 4 {
        if condition_holds(cpu, y) {
            operation::ret(cpu);
        }
    } else if y == 4 {
        // LDH (n),A
        let n: u8 = cpu.pop_pc();
        let a: u8 = cpu.af.high();
        cpu.write_byte(0xff00 + n as u16, a);
    } else if y == 5 {
        // ADD SP,e
        let r: u16 = sp_offset(cpu);
        cpu.sp = r;
    } else if y == 6 {
        // LDH A,(n)
        let n: u8 = cpu.pop_pc();
        let v: u8 = cpu.read_byte(0xff00 + n as u16);
        cpu.set_a(v);
    } else {
        // LD HL,SP+e
        let r: u16 = sp_offset(cpu);
        cpu.hl.set(r);
    }
}

fn high1(cpu: &mut CPU, y: u8)
    requires
        old(cpu).wf(),
        y < 8,
    ensures
        final(cpu).wf(),
        final(cpu)@ == high1_spec(old(cpu)@, y),
{
    let p: u8 = y / 2;
    if y % 2 == 0 {
        let v: u16 = cpu.pop16();
        cpu.set_rp2(p, v);
    } else if p == 0 {
        operation::ret(cpu);
    } else if p == 1 {
        // RETI
        operation::ret(cpu);
        cpu.ime = true;
    } else if p == 2 {
        cpu.pc = cpu.hl.value();
    } else {
        cpu.sp = cpu.hl.value();
    }
}

fn high2(cpu: &mut CPU, y: u8)
    requires
        old(cpu).wf(),
        y < 8,
    ensures
        final(cpu).wf(),
        final(cpu)@ == high2_spec(old(cpu)@, y),
{
    if y < 4 {
        let taken: bool = condition_holds(cpu, y);
        operation::jp(cpu, taken);
    } else if y == 4 {
        // LD (C),A
        let address: u16 = 0xff00 + cpu.bc.low() as u16;
        let a: u8 = cpu.af.high();
        cpu.write_byte(address, a);
    } else if y == 5 {
        let address: u16 = cpu.pop_pc16();
        let a: u8 = cpu.af.high();
        cpu.write_byte(address, a);
    } else if y == 6 {
        // LD A,(C)
        let v: u8 = cpu.read_byte(0xff00 + cpu.bc.low() as u16);
        cpu.set_a(v);
    } else {
        let address: u16 = cpu.pop_pc16();
        let v: u8 = cpu.read_byte(address);
        cpu.set_a(v);
    }
}

fn execute_block3(cpu: &mut CPU, op: u8)
    requires
        old(cpu).wf(),
        op >= 0xc0,
        !is_illegal(op),
    ensures
        final(cpu).wf(),
        final(cpu)@ == block3_spec(old(cpu)@, op),
{
    proof {
        reveal(block3_spec);
    }
    let y: u8 = (op / 8) % 8;
    let z: u8 = op % 8;
    let p: u8 = y / 2;
    if z == 0 {
        high0(cpu, y);
    } else if z == 1 {
        high1(cpu, y);
    } else if z == 2 {
        high2(cpu, y);
    } else if z == 3 {
        if y == 0 {
            operation::jp(cpu, true);
        } else if y == 1 {
            execute_cb(cpu);
        } else if y == 6 {
            // DI
            cpu.ime = false;
        } else {
            // EI
            cpu.ime = true;
        }
    } else if z == 4 {
        let taken: bool = condition_holds(cpu, y);
        operation::call_if(cpu, taken);
    } else if z == 5 {
        if y % 2 == 0 {
            let v: u16 = cpu.get_rp2(p);
            cpu.push16(v);
        } else {
            operation::call(cpu);
        }
    } else if z == 6 {
        let n: u8 = cpu.pop_pc();
        alu(cpu, y, n);
    } else {
        // RST
        let pc: u16 = cpu.pc;
        cpu.push16(pc);
        cpu.pc = y as u16 * 8;
    }
}

/// Clocks of `opcode`, judged before it runs.
fn clocks_of(opcode: &Opcode, cpu: &CPU) -> (r: u32)
    requires
        cpu.wf(),
    ensures
        r == exec_clocks(cpu@, opcode@),
{
    let op: u8 = opcode.code();
    if op == 0xcb {
        return cb_clock(cpu.read_byte(cpu.pc));
    }
    let extra: u32 = if op == 0x20 || op == 0x28 || op == 0x30 || op == 0x38 {
        4
    } else if op == 0xc2 || op == 0xca || op == 0xd2 || op == 0xda {
        4
    } else if op == 0xc4 || op == 0xcc || op == 0xd4 || op == 0xdc {
        12
    } else if op == 0xc0 || op == 0xc8 || op == 0xd0 || op == 0xd8 {
        12
    } else {
        0
    };
    if extra > 0 && condition_holds(cpu, (op / 8) % 4) {
        opcode.clock() + extra
    } else {
        opcode.clock()
    }
}

/// Runs the instruction whose opcode byte has just been fetched, and
/// returns the clocks it took.
pub fn execute(opcode: &Opcode, cpu: &mut CPU) -> (r: Result<u32, IllegalOpcode>)
    requires
        old(cpu).wf(),
    ensures
        final(cpu).wf(),
        r is Err <==> is_illegal(opcode@),
        match r {
            Ok(clocks) => final(cpu)@ == exec_state(old(cpu)@, opcode@) && clocks == exec_clocks(
                old(cpu)@,
                opcode@,
            ),
            Err(e) => final(cpu)@ == old(cpu)@ && e == (IllegalOpcode {
                opcode: opcode@,
                address: sub16_wrap(old(cpu)@.pc, 1),
            }),
        },
{
    let op: u8 = opcode.code();
    if op == 0xd3 || op == 0xdb || op == 0xdd || op == 0xe3 || op == 0xe4 || op == 0xeb || op
        == 0xec || op == 0xed || op == 0xf4 || op == 0xfc || op == 0xfd {
        return Err(IllegalOpcode { opcode: op, address: cpu.pc.wrapping_sub(1) });
    }
    let clocks: u32 = clocks_of(opcode, cpu);
    let x: u8 = op / 64;
    if x == 0 {
        execute_block0(cpu, op);
    } else if x == 1 {
        if op == 0x76 {
            // HALT
            cpu.halt = true;
        } else {
            // LD r,r'
            let v: u8 = cpu.get_r8(op % 8);
            cpu.set_r8((op / 8) % 8, v);
        }
    } else if x == 2 {
        let v: u8 = cpu.get_r8(op % 8);
        alu(cpu, (op / 8) % 8, v);
    } else {
        execute_block3(cpu, op);
    }
    Ok(clocks)
}

/// Length in bytes of the instruction that starts with `op`.
pub open spec fn instr_len(op: u8) -> u16 {
    let x = op / 64;
    let y = (op / 8) % 8;
    let z = op % 8;
    if op == 0xcb {
        2
    } else if x == 0 {
        if z == 0 {
            if y == 0 || y == 2 {
                1
            } else if y == 1 {
                3
            } else {
                2
            }
        } else if z == 1 {
            if y % 2 == 0 {
                3
            } else {
                1
            }
        } else if z == 6 {
            2
        } else {
            1
        }
    } else if x == 3 {
        if z == 0 {
            if y >= 4 {
                2
            } else {
                1
            }
        } else if z == 2 {
            if y < 4 || y == 5 || y == 7 {
                3
            } else {
                1
            }
        } else if z == 3 {
            if y == 0 {
                3
            } else {
                1
            }
        } else if z == 4 {
            3
        } else if z == 5 {
            if y % 2 == 1 {
                3
            } else {
                1
            }
        } else if z == 6 {
            2
        } else {
            1
        }
    } else {
        1
    }
}

/// Whether `op` moves PC elsewhere than the next instruction: JR, JP, CALL,
/// RET, RETI and RST, the conditional ones when their condition holds in `s`.
pub open spec fn branches(s: CpuState, op: u8) -> bool {
    let x = op / 64;
    let y = (op / 8) % 8;
    let z = op % 8;
    if x == 0 {
        z == 0 && (y == 3 || (y >= 4 && condition(s, (y - 4) as u8)))
    } else if x == 3 {
        if z == 0 || z == 2 || z == 4 {
            y < 4 && condition(s, y)
        } else if z == 1 {
            y % 2 == 1 && y != 7
        } else if z == 3 {
            y == 0
        } else if z == 5 {
            y == 1
        } else {
            z == 7
        }
    } else {
        false
    }
}

proof fn lemma_wrap_twice(a: u16, b: u16, c: u16)
    requires
        b + c < 0x10000,
    ensures
        add16_wrap(add16_wrap(a, b), c) == add16_wrap(a, (b + c) as u16),
{
}

proof fn lemma_pc_block0(t: CpuState, op: u8)
    requires
        op < 0x40,
        !branches(t, op),
    ensures
        block0_spec(t, op).pc == add16_wrap(t.pc, (instr_len(op) - 1) as u16),
{
    reveal(block0_spec);
    let y = (op / 8) % 8;
    let z = op % 8;
    assert(op == y * 8 + z);
    if z == 0 {
        if y == 0 || y == 2 {
            assert(control0_spec(t, y).pc == add16_wrap(t.pc, 0));
        } else if y == 1 {
            assert(control0_spec(t, y).pc == add16_wrap(t.pc, 2));
        } else {
            assert(control0_spec(t, y).pc == add16_wrap(t.pc, 1));
        }
    } else if z == 1 {
        if y % 2 == 0 {
            assert(wide_spec(t, y, z).pc == add16_wrap(t.pc, 2));
        } else {
            assert(wide_spec(t, y, z).pc == add16_wrap(t.pc, 0));
        }
    } else if z == 3 {
        assert(wide_spec(t, y, z).pc == add16_wrap(t.pc, 0));
    } else if z == 2 {
        assert(indirect_spec(t, op).pc == add16_wrap(t.pc, 0));
    } else if z == 7 {
        assert(accumulator_spec(t, y).pc == add16_wrap(t.pc, 0));
    } else if z == 6 {
        assert(byte_spec(t, y, z).pc == add16_wrap(t.pc, 1));
    } else {
        assert(byte_spec(t, y, z).pc == add16_wrap(t.pc, 0));
    }
}

proof fn lemma_pc_block3(t: CpuState, op: u8)
    requires
        op >= 0xc0,
        !is_illegal(op),
        !branches(t, op),
    ensures
        block3_spec(t, op).pc == add16_wrap(t.pc, (instr_len(op) - 1) as u16),
{
    reveal(block3_spec);
    let y = (op / 8) % 8;
    let z = op % 8;
    assert(op == 0xc0 + y * 8 + z);
    if z == 0 {
        if y < 4 {
            assert(high0_spec(t, y).pc == add16_wrap(t.pc, 0));
        } else {
            assert(high0_spec(t, y).pc == add16_wrap(t.pc, 1));
        }
    } else if z == 1 {
        assert(high1_spec(t, y).pc == add16_wrap(t.pc, 0));
    } else if z == 2 {
        if y < 4 || y == 5 || y == 7 {
            assert(high2_spec(t, y).pc == add16_wrap(t.pc, 2));
        } else {
            assert(high2_spec(t, y).pc == add16_wrap(t.pc, 0));
        }
    } else if z == 3 {
        if y == 1 {
            assert(op == 0xcb);
            assert(cb_spec(t).pc == add16_wrap(t.pc, 1));
        } else {
            assert(block3_spec(t, op).pc == add16_wrap(t.pc, 0));
        }
    } else if z == 4 {
        assert(call_if_spec(t, condition(t, y)).pc == add16_wrap(t.pc, 2));
    } else if z == 5 {
        assert(t.push16(t.rp2(y / 2)).pc == add16_wrap(t.pc, 0));
    } else if z == 6 {
        assert(block3_spec(t, op).pc == add16_wrap(t.pc, 1));
    }
}

/// An instruction that does not branch leaves PC just past itself.
pub proof fn lemma_pc_advances_by_length(s: CpuState)
    requires
        s.wf(),
        !is_illegal(s.fetch().1),
        !branches(s.fetch().0, s.fetch().1),
    ensures
        exec_state(s.fetch().0, s.fetch().1).pc == add16_wrap(s.pc, instr_len(s.fetch().1)),
{
    let (t, op) = s.fetch();
    if op < 0x40 {
        lemma_pc_block0(t, op);
    } else if op >= 0xc0 {
        lemma_pc_block3(t, op);
    }
    lemma_wrap_twice(s.pc, 1, (instr_len(op) - 1) as u16);
}

/// PUSH rr then POP rr, with the stack in work RAM or high RAM, gives back
/// the pair and SP bit for bit; F keeps its low nibble at zero.
pub proof fn lemma_push_pop(s: CpuState, p: u8)
    requires
        s.wf(),
        p < 4,
        (0xc002 <= s.sp <= 0xe000) || (0xff82 <= s.sp <= 0xffff),
    ensures
        ({
            let u = exec_state(exec_state(s, (0xc5 + 16 * p) as u8), (0xc1 + 16 * p) as u8);
            &&& u.rp2(p) == s.rp2(p)
            &&& u.sp == s.sp
            &&& u.af & 0x000f == 0
        }),
{
    let push = (0xc5 + 16 * p) as u8;
    let pop = (0xc1 + 16 * p) as u8;
    assert(push / 64 == 3 && (push / 8) % 8 == 2 * p && push % 8 == 5);
    assert(pop / 64 == 3 && (pop / 8) % 8 == 2 * p && pop % 8 == 1);
    let v = s.rp2(p);
    let t = exec_state(s, push);
    assert(t == s.push16(v)) by {
        reveal(block3_spec);
    }
    let sp = sub16_wrap(s.sp, 2);
    let hi = add16_wrap(sp, 1);
    let w1 = CpuState { sp, ..s }.write(sp, crate::cpu::register::low_of(v));
    crate::mmu::lemma_plain_ram_write(s.mmu, sp, crate::cpu::register::low_of(v), sp);
    crate::mmu::lemma_plain_ram_write(w1.mmu, hi, crate::cpu::register::high_of(v), sp);
    crate::mmu::lemma_plain_ram_write(w1.mmu, hi, crate::cpu::register::high_of(v), hi);
    assert(t.read16(sp) == v) by {
        lemma_word_bytes(v);
    }
    let u = exec_state(t, pop);
    assert(u == high1_spec(t, (2 * p) as u8)) by {
        reveal(block3_spec);
    }
    crate::cpu::register::lemma_flag_mask_clears_low_nibble(v);
    crate::cpu::register::lemma_flag_mask_clears_low_nibble(u.af);
    if p == 3 {
        assert(crate::cpu::register::masked(s.af, 0xfff0) == s.af) by {
            let af = s.af;
            assert(af & 0x000f == 0 ==> af & 0xfff0 == af) by (bit_vector);
        }
    }
}

/// LD (nn),SP stores SP so that reading the word back at nn gives SP,
/// where nn and nn + 1 are work RAM or high RAM.
pub proof fn lemma_store_sp_reads_back(s: CpuState)
    requires
        s.wf(),
        ({
            let nn = s.read16(s.pc);
            (0xc000 <= nn <= 0xdffe) || (0xff80 <= nn <= 0xfffd)
        }),
    ensures
        exec_state(s, 0x08).read16(s.read16(s.pc)) == s.sp,
{
    reveal(block0_spec);
    lemma_word_bytes(s.sp);
    let (t, nn) = s.fetch16();
    let hi = add16_wrap(nn, 1);
    let w1 = t.write(nn, crate::cpu::register::low_of(t.sp));
    crate::mmu::lemma_plain_ram_write(t.mmu, nn, crate::cpu::register::low_of(t.sp), nn);
    crate::mmu::lemma_plain_ram_write(w1.mmu, hi, crate::cpu::register::high_of(t.sp), nn);
    crate::mmu::lemma_plain_ram_write(w1.mmu, hi, crate::cpu::register::high_of(t.sp), hi);
}

/// A word is its low byte plus 256 times its high byte.
pub proof fn lemma_word_bytes(v: u16)
    ensures
        crate::cpu::word(crate::cpu::register::low_of(v), crate::cpu::register::high_of(v)) == v,
{
    assert(((v & 0x00ffu16) as u8) as u16 + (((v >> 8u16) as u8) as u16) * 256 == v) by (bit_vector);
}

} // verus!
