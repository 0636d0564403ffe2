//! The micro-operations: ALU work in binary and decimal mode, loads and
//! stores, shifts and rotates, branches, jumps and calls, and register
//! transfers. Each executable operation is proved equal to its spec-level
//! counterpart, and the spec functions compose into the instruction step.

use crate::bus;
use crate::bus::{bus_view, bus_wf, read_hooked, read_val, store_val, SegView, Segment};
use crate::cpu::{
    carry_of, decimal_of, with_break, with_carry, with_interrupt, with_negative, with_overflow,
    with_zero, CpuStatus, FLAG_R,
};
use vstd::prelude::*;

verus! {

/// The status byte after an operation that sets N and Z from `v`.
pub open spec fn with_nz(sr: u8, v: u8) -> u8 {
    with_zero(with_negative(sr, v > 0x7f), v == 0)
}

/// Add an operand to the accumulator with carry, in binary or decimal mode
/// as the D flag directs. In decimal mode each nibble is corrected by six
/// when it overflows ten, N, Z and V reflect the uncorrected binary result,
/// and C is the decimal carry. Subtraction is this same operation on the
/// one's complement of the operand.
pub open spec fn spec_arith_operand(cpu: CpuStatus, byte: u8, cycles: u8) -> CpuStatus {
    let c_in: int = if carry_of(cpu.sr) { 1 } else { 0 };
    if decimal_of(cpu.sr) {
        let lo_sum = cpu.a as int % 16 + byte as int % 16 + c_in;
        let half = lo_sum > 9;
        let hi_sum = cpu.a as int / 16 + byte as int / 16 + (if half { 1int } else { 0int });
        let carry_out = hi_sum > 9;
        let alu = ((hi_sum % 16) * 16 + lo_sum % 16) as u8;
        let lo_adj = if half { (lo_sum + 6) % 16 } else { lo_sum % 16 };
        let hi_adj = if carry_out { (hi_sum + 6) % 16 } else { hi_sum % 16 };
        let sr1 = with_carry(cpu.sr, carry_out);
        let sr2 = with_zero(sr1, alu == 0);
        let sr3 = with_negative(sr2, alu > 0x7f);
        let sr4 = with_overflow(sr3, ((byte >= 0x80) == (cpu.a >= 0x80)) && ((alu >= 0x80) != (byte >= 0x80)));
        CpuStatus {
            a: (hi_adj * 16 + lo_adj) as u8,
            sr: sr4,
            cycles_used: cpu.cycles_used.wrapping_add(cycles),
            ..cpu
        }
    } else {
        let sum = cpu.a + byte + c_in;
        let carry_out = sum > 0xff;
        let masked = (sum % 256) as u8;
        let sr1 = with_carry(cpu.sr, carry_out);
        let sr2 = with_overflow(sr1, ((byte >= 0x80) == (cpu.a >= 0x80)) && ((masked >= 0x80) != (byte >= 0x80)));
        let sr3 = with_zero(sr2, masked == 0);
        let sr4 = with_negative(sr3, masked > 0x7f);
        CpuStatus { a: masked, sr: sr4, cycles_used: cpu.cycles_used.wrapping_add(cycles), ..cpu }
    }
}

/// Apply the add-with-carry ALU to an operand already in hand.
fn arith_operand(reg: &mut CpuStatus, byte: u8, cycles: u8)
    ensures
        *final(reg) == spec_arith_operand(*old(reg), byte, cycles),
{
    let a_old = reg.a;
    let c_in: u8 = if reg.carry_flag() { 1 } else { 0 };
    if reg.decimal_flag() {
        let lo_sum: u8 = a_old % 16 + byte % 16 + c_in;
        let half = lo_sum > 9;
        let hi_sum: u8 = a_old / 16 + byte / 16 + (if half { 1u8 } else { 0u8 });
        let carry_out = hi_sum > 9;
        let alu: u8 = (hi_sum % 16) * 16 + lo_sum % 16;
        let lo_adj: u8 = if half { (lo_sum + 6) % 16 } else { lo_sum % 16 };
        let hi_adj: u8 = if carry_out { (hi_sum + 6) % 16 } else { hi_sum % 16 };
        reg.set_carry(carry_out);
        reg.set_zero(alu == 0);
        reg.set_negative(alu > 0x7f);
        reg.set_overflow(((byte >= 0x80) == (a_old >= 0x80)) && ((alu >= 0x80) != (byte >= 0x80)));
        reg.a = hi_adj * 16 + lo_adj;
    } else {
        let sum: u16 = a_old as u16 + byte as u16 + c_in as u16;
        let carry_out = sum > 0xff;
        let masked: u8 = (sum % 256) as u8;
        reg.set_carry(carry_out);
        reg.set_overflow(((byte >= 0x80) == (a_old >= 0x80)) && ((masked >= 0x80) != (byte >= 0x80)));
        reg.set_zero(masked == 0);
        reg.set_negative(masked > 0x7f);
        reg.a = masked;
    }
    reg.cycles_used = reg.cycles_used.wrapping_add(cycles);
}

/// ADC: add the byte at `i_addr` to A with carry.
pub open spec fn spec_adc(cpu: CpuStatus, m: Seq<SegView>, cycles: u8, i_addr: u16) -> (CpuStatus, Seq<SegView>) {
    (spec_arith_operand(cpu, read_val(m, i_addr), cycles), read_hooked(m, i_addr))
}

/// SBC: subtract the byte at `i_addr` from A with borrow, as ADC of the
/// one's complement.
pub open spec fn spec_sbc(cpu: CpuStatus, m: Seq<SegView>, cycles: u8, i_addr: u16) -> (CpuStatus, Seq<SegView>) {
    (spec_arith_operand(cpu, (255 - read_val(m, i_addr)) as u8, cycles), read_hooked(m, i_addr))
}

/// Add with carry.
pub fn adc(memory: &mut Vec<Segment>, reg: &mut CpuStatus, cycles: u8, i_addr: u16)
    requires
        bus_wf(bus_view(*old(memory))),
    ensures
        (*final(reg), bus_view(*final(memory))) == spec_adc(
            *old(reg),
            bus_view(*old(memory)),
            cycles,
            i_addr,
        ),
        bus_wf(bus_view(*final(memory))),
{
    let byte = bus::read(memory, i_addr);
    arith_operand(reg, byte, cycles);
}

/// Subtract with carry: add the one's complement of the operand.
pub fn sbc(memory: &mut Vec<Segment>, reg: &mut CpuStatus, cycles: u8, i_addr: u16)
    requires
        bus_wf(bus_view(*old(memory))),
    ensures
        (*final(reg), bus_view(*final(memory))) == spec_sbc(
            *old(reg),
            bus_view(*old(memory)),
            cycles,
            i_addr,
        ),
        bus_wf(bus_view(*final(memory))),
{
    let byte = bus::read(memory, i_addr);
    arith_operand(reg, 255 - byte, cycles);
}

/// AND: A takes A and the byte; N and Z follow A.
pub open spec fn spec_and(cpu: CpuStatus, m: Seq<SegView>, cycles: u8, i_addr: u16) -> (CpuStatus, Seq<SegView>) {
    let a = cpu.a & read_val(m, i_addr);
    (
        CpuStatus { a, sr: with_nz(cpu.sr, a), cycles_used: cpu.cycles_used.wrapping_add(cycles), ..cpu },
        read_hooked(m, i_addr),
    )
}

/// Bitwise AND with the accumulator.
pub fn and(memory: &mut Vec<Segment>, reg: &mut CpuStatus, cycles: u8, i_addr: u16)
    requires
        bus_wf(bus_view(*old(memory))),
    ensures
        (*final(reg), bus_view(*final(memory))) == spec_and(
            *old(reg),
            bus_view(*old(memory)),
            cycles,
            i_addr,
        ),
        bus_wf(bus_view(*final(memory))),
{
    let byte = bus::read(memory, i_addr);
    reg.a = reg.a & byte;
    let a = reg.a;
    reg.set_negative(a > 0x7f);
    reg.set_zero(a == 0);
    reg.cycles_used = reg.cycles_used.wrapping_add(cycles);
}

/// EOR: A takes A exclusive-or the byte; N and Z follow A.
pub open spec fn spec_eor(cpu: CpuStatus, m: Seq<SegView>, cycles: u8, i_addr: u16) -> (CpuStatus, Seq<SegView>) {
    let a = cpu.a ^ read_val(m, i_addr);
    (
        CpuStatus { a, sr: with_nz(cpu.sr, a), cycles_used: cpu.cycles_used.wrapping_add(cycles), ..cpu },
        read_hooked(m, i_addr),
    )
}

/// Exclusive OR with the accumulator.
pub fn eor(memory: &mut Vec<Segment>, reg: &mut CpuStatus, cycles: u8, i_addr: u16)
    requires
        bus_wf(bus_view(*old(memory))),
    ensures
        (*final(reg), bus_view(*final(memory))) == spec_eor(
            *old(reg),
            bus_view(*old(memory)),
            cycles,
            i_addr,
        ),
        bus_wf(bus_view(*final(memory))),
{
    let byte = bus::read(memory, i_addr);
    reg.a = reg.a ^ byte;
    let a = reg.a;
    reg.set_negative(a > 0x7f);
    reg.set_zero(a == 0);
    reg.cycles_used = reg.cycles_used.wrapping_add(cycles);
}

/// ORA: A takes A or the byte; N and Z follow A.
pub open spec fn spec_ora(cpu: CpuStatus, m: Seq<SegView>, cycles: u8, i_addr: u16) -> (CpuStatus, Seq<SegView>) {
    let a = cpu.a | read_val(m, i_addr);
    (
        CpuStatus { a, sr: with_nz(cpu.sr, a), cycles_used: cpu.cycles_used.wrapping_add(cycles), ..cpu },
        read_hooked(m, i_addr),
    )
}

/// Bitwise OR with the accumulator.
pub fn ora(memory: &mut Vec<Segment>, reg: &mut CpuStatus, cycles: u8, i_addr: u16)
    requires
        bus_wf(bus_view(*old(memory))),
    ensures
        (*final(reg), bus_view(*final(memory))) == spec_ora(
            *old(reg),
            bus_view(*old(memory)),
            cycles,
            i_addr,
        ),
        bus_wf(bus_view(*final(memory))),
{
    let byte = bus::read(memory, i_addr);
    reg.a = reg.a | byte;
    let a = reg.a;
    reg.set_negative(a > 0x7f);
    reg.set_zero(a == 0);
    reg.cycles_used = reg.cycles_used.wrapping_add(cycles);
}

/// BIT: Z from A and the byte, N from bit 7 of the byte, V from bit 6;
/// A is untouched.
pub open spec fn spec_bit(cpu: CpuStatus, m: Seq<SegView>, cycles: u8, i_addr: u16) -> (CpuStatus, Seq<SegView>) {
    let byte = read_val(m, i_addr);
    let sr1 = with_negative(cpu.sr, byte >= 0x80);
    let sr2 = with_overflow(sr1, byte & 0x40 != 0);
    let sr3 = with_zero(sr2, byte & cpu.a == 0);
    (
        CpuStatus { sr: sr3, cycles_used: cpu.cycles_used.wrapping_add(cycles), ..cpu },
        read_hooked(m, i_addr),
    )
}

/// Bit test of memory against the accumulator.
pub fn bit(memory: &mut Vec<Segment>, reg: &mut CpuStatus, cycles: u8, i_addr: u16)
    requires
        bus_wf(bus_view(*old(memory))),
    ensures
        (*final(reg), bus_view(*final(memory))) == spec_bit(
            *old(reg),
            bus_view(*old(memory)),
            cycles,
            i_addr,
        ),
        bus_wf(bus_view(*final(memory))),
{
    let byte = bus::read(memory, i_addr);
    reg.set_negative(byte >= 0x80);
    reg.set_overflow(byte & 0x40 != 0);
    let a = reg.a;
    reg.set_zero(byte & a == 0);
    reg.cycles_used = reg.cycles_used.wrapping_add(cycles);
}

/// The status byte after a register/operand comparison: C when the register
/// is at least the byte, Z on equality, N from bit 7 of the wrapping
/// difference.
pub open spec fn spec_compare_sr(sr: u8, regval: u8, byte: u8) -> u8 {
    let sr1 = with_carry(sr, regval >= byte);
    let sr2 = with_zero(sr1, regval == byte);
    with_negative(sr2, regval.wrapping_sub(byte) > 0x7f)
}

/// CMP: compare A with the byte at `i_addr`.
pub open spec fn spec_cmp(cpu: CpuStatus, m: Seq<SegView>, cycles: u8, i_addr: u16) -> (CpuStatus, Seq<SegView>) {
    (
        CpuStatus {
            sr: spec_compare_sr(cpu.sr, cpu.a, read_val(m, i_addr)),
            cycles_used: cpu.cycles_used.wrapping_add(cycles),
            ..cpu
        },
        read_hooked(m, i_addr),
    )
}

/// CPX: compare X with the byte at `i_addr`.
pub open spec fn spec_cpx(cpu: CpuStatus, m: Seq<SegView>, cycles: u8, i_addr: u16) -> (CpuStatus, Seq<SegView>) {
    (
        CpuStatus {
            sr: spec_compare_sr(cpu.sr, cpu.x, read_val(m, i_addr)),
            cycles_used: cpu.cycles_used.wrapping_add(cycles),
            ..cpu
        },
        read_hooked(m, i_addr),
    )
}

/// CPY: compare Y with the byte at `i_addr`.
pub open spec fn spec_cpy(cpu: CpuStatus, m: Seq<SegView>, cycles: u8, i_addr: u16) -> (CpuStatus, Seq<SegView>) {
    (
        CpuStatus {
            sr: spec_compare_sr(cpu.sr, cpu.y, read_val(m, i_addr)),
            cycles_used: cpu.cycles_used.wrapping_add(cycles),
            ..cpu
        },
        read_hooked(m, i_addr),
    )
}

/// Compare the accumulator with memory.
pub fn cmp(memory: &mut Vec<Segment>, reg: &mut CpuStatus, cycles: u8, i_addr: u16)
    requires
        bus_wf(bus_view(*old(memory))),
    ensures
        (*final(reg), bus_view(*final(memory))) == spec_cmp(
            *old(reg),
            bus_view(*old(memory)),
            cycles,
            i_addr,
        ),
        bus_wf(bus_view(*final(memory))),
{
    let byte = bus::read(memory, i_addr);
    let v = reg.a;
    reg.set_carry(v >= byte);
    reg.set_zero(v == byte);
    reg.set_negative(v.wrapping_sub(byte) > 0x7f);
    reg.cycles_used = reg.cycles_used.wrapping_add(cycles);
}

/// Compare the X register with memory.
pub fn cpx(memory: &mut Vec<Segment>, reg: &mut CpuStatus, cycles: u8, i_addr: u16)
    requires
        bus_wf(bus_view(*old(memory))),
    ensures
        (*final(reg), bus_view(*final(memory))) == spec_cpx(
            *old(reg),
            bus_view(*old(memory)),
            cycles,
            i_addr,
        ),
        bus_wf(bus_view(*final(memory))),
{
    let byte = bus::read(memory, i_addr);
    let v = reg.x;
    reg.set_carry(v >= byte);
    reg.set_zero(v == byte);
    reg.set_negative(v.wrapping_sub(byte) > 0x7f);
    reg.cycles_used = reg.cycles_used.wrapping_add(cycles);
}

/// Compare the Y register with memory.
pub fn cpy(memory: &mut Vec<Segment>, reg: &mut CpuStatus, cycles: u8, i_addr: u16)
    requires
        bus_wf(bus_view(*old(memory))),
    ensures
        (*final(reg), bus_view(*final(memory))) == spec_cpy(
            *old(reg),
            bus_view(*old(memory)),
            cycles,
            i_addr,
        ),
        bus_wf(bus_view(*final(memory))),
{
    let byte = bus::read(memory, i_addr);
    let v = reg.y;
    reg.set_carry(v >= byte);
    reg.set_zero(v == byte);
    reg.set_negative(v.wrapping_sub(byte) > 0x7f);
    reg.cycles_used = reg.cycles_used.wrapping_add(cycles);
}

/// LDA: load A from memory; N and Z follow the byte.
pub open spec fn spec_lda(cpu: CpuStatus, m: Seq<SegView>, cycles: u8, i_addr: u16) -> (CpuStatus, Seq<SegView>) {
    let byte = read_val(m, i_addr);
    (
        CpuStatus {
            a: byte,
            sr: with_nz(cpu.sr, byte),
            cycles_used: cpu.cycles_used.wrapping_add(cycles),
            ..cpu
        },
        read_hooked(m, i_addr),
    )
}

/// LDX: load X from memory; N and Z follow the byte.
pub open spec fn spec_ldx(cpu: CpuStatus, m: Seq<SegView>, cycles: u8, i_addr: u16) -> (CpuStatus, Seq<SegView>) {
    let byte = read_val(m, i_addr);
    (
        CpuStatus {
            x: byte,
            sr: with_nz(cpu.sr, byte),
            cycles_used: cpu.cycles_used.wrapping_add(cycles),
            ..cpu
        },
        read_hooked(m, i_addr),
    )
}

/// LDY: load Y from memory; N and Z follow the byte.
pub open spec fn spec_ldy(cpu: CpuStatus, m: Seq<SegView>, cycles: u8, i_addr: u16) -> (CpuStatus, Seq<SegView>) {
    let byte = read_val(m, i_addr);
    (
        CpuStatus {
            y: byte,
            sr: with_nz(cpu.sr, byte),
            cycles_used: cpu.cycles_used.wrapping_add(cycles),
            ..cpu
        },
        read_hooked(m, i_addr),
    )
}

/// Load the accumulator.
pub fn lda(memory: &mut Vec<Segment>, reg: &mut CpuStatus, cycles: u8, i_addr: u16)
    requires
        bus_wf(bus_view(*old(memory))),
    ensures
        (*final(reg), bus_view(*final(memory))) == spec_lda(
            *old(reg),
            bus_view(*old(memory)),
            cycles,
            i_addr,
        ),
        bus_wf(bus_view(*final(memory))),
{
    let byte = bus::read(memory, i_addr);
    reg.a = byte;
    reg.set_negative(byte > 0x7f);
    reg.set_zero(byte == 0);
    reg.cycles_used = reg.cycles_used.wrapping_add(cycles);
}

/// Load the X register.
pub fn ldx(memory: &mut Vec<Segment>, reg: &mut CpuStatus, cycles: u8, i_addr: u16)
    requires
        bus_wf(bus_view(*old(memory))),
    ensures
        (*final(reg), bus_view(*final(memory))) == spec_ldx(
            *old(reg),
            bus_view(*old(memory)),
            cycles,
            i_addr,
        ),
        bus_wf(bus_view(*final(memory))),
{
    let byte = bus::read(memory, i_addr);
    reg.x = byte;
    reg.set_negative(byte > 0x7f);
    reg.set_zero(byte == 0);
    reg.cycles_used = reg.cycles_used.wrapping_add(cycles);
}

/// Load the Y register.
pub fn ldy(memory: &mut Vec<Segment>, reg: &mut CpuStatus, cycles: u8, i_addr: u16)
    requires
        bus_wf(bus_view(*old(memory))),
    ensures
        (*final(reg), bus_view(*final(memory))) == spec_ldy(
            *old(reg),
            bus_view(*old(memory)),
            cycles,
            i_addr,
        ),
        bus_wf(bus_view(*final(memory))),
{
    let byte = bus::read(memory, i_addr);
    reg.y = byte;
    reg.set_negative(byte > 0x7f);
    reg.set_zero(byte == 0);
    reg.cycles_used = reg.cycles_used.wrapping_add(cycles);
}

/// STA: store A; no flag changes.
pub open spec fn spec_sta(cpu: CpuStatus, m: Seq<SegView>, cycles: u8, i_addr: u16) -> (CpuStatus, Seq<SegView>) {
    (
        CpuStatus { cycles_used: cpu.cycles_used.wrapping_add(cycles), ..cpu },
        store_val(m, i_addr, cpu.a),
    )
}

/// STX: store X; no flag changes.
pub open spec fn spec_stx(cpu: CpuStatus, m: Seq<SegView>, cycles: u8, i_addr: u16) -> (CpuStatus, Seq<SegView>) {
    (
        CpuStatus { cycles_used: cpu.cycles_used.wrapping_add(cycles), ..cpu },
        store_val(m, i_addr, cpu.x),
    )
}

/// STY: store Y; no flag changes.
pub open spec fn spec_sty(cpu: CpuStatus, m: Seq<SegView>, cycles: u8, i_addr: u16) -> (CpuStatus, Seq<SegView>) {
    (
        CpuStatus { cycles_used: cpu.cycles_used.wrapping_add(cycles), ..cpu },
        store_val(m, i_addr, cpu.y),
    )
}

/// Store the accumulator.
pub fn sta(memory: &mut Vec<Segment>, reg: &mut CpuStatus, cycles: u8, i_addr: u16)
    requires
        bus_wf(bus_view(*old(memory))),
    ensures
        (*final(reg), bus_view(*final(memory))) == spec_sta(
            *old(reg),
            bus_view(*old(memory)),
            cycles,
            i_addr,
        ),
        bus_wf(bus_view(*final(memory))),
{
    let v = reg.a;
    bus::write(memory, i_addr, v);
    reg.cycles_used = reg.cycles_used.wrapping_add(cycles);
}

/// Store the X register.
pub fn stx(memory: &mut Vec<Segment>, reg: &mut CpuStatus, cycles: u8, i_addr: u16)
    requires
        bus_wf(bus_view(*old(memory))),
    ensures
        (*final(reg), bus_view(*final(memory))) == spec_stx(
            *old(reg),
            bus_view(*old(memory)),
            cycles,
            i_addr,
        ),
        bus_wf(bus_view(*final(memory))),
{
    let v = reg.x;
    bus::write(memory, i_addr, v);
    reg.cycles_used = reg.cycles_used.wrapping_add(cycles);
}

/// Store the Y register.
pub fn sty(memory: &mut Vec<Segment>, reg: &mut CpuStatus, cycles: u8, i_addr: u16)
    requires
        bus_wf(bus_view(*old(memory))),
    ensures
        (*final(reg), bus_view(*final(memory))) == spec_sty(
            *old(reg),
            bus_view(*old(memory)),
            cycles,
            i_addr,
        ),
        bus_wf(bus_view(*final(memory))),
{
    let v = reg.y;
    bus::write(memory, i_addr, v);
    reg.cycles_used = reg.cycles_used.wrapping_add(cycles);
}

/// INC: memory plus one with 8-bit wrap; N and Z follow the result.
pub open spec fn spec_inc(cpu: CpuStatus, m: Seq<SegView>, cycles: u8, i_addr: u16) -> (CpuStatus, Seq<SegView>) {
    let byte = read_val(m, i_addr).wrapping_add(1);
    (
        CpuStatus { sr: with_nz(cpu.sr, byte), cycles_used: cpu.cycles_used.wrapping_add(cycles), ..cpu },
        store_val(read_hooked(m, i_addr), i_addr, byte),
    )
}

/// DEC: memory minus one with 8-bit wrap; N and Z follow the result.
pub open spec fn spec_dec(cpu: CpuStatus, m: Seq<SegView>, cycles: u8, i_addr: u16) -> (CpuStatus, Seq<SegView>) {
    let byte = read_val(m, i_addr).wrapping_sub(1);
    (
        CpuStatus { sr: with_nz(cpu.sr, byte), cycles_used: cpu.cycles_used.wrapping_add(cycles), ..cpu },
        store_val(read_hooked(m, i_addr), i_addr, byte),
    )
}

/// Increment memory.
pub fn inc(memory: &mut Vec<Segment>, reg: &mut CpuStatus, cycles: u8, i_addr: u16)
    requires
        bus_wf(bus_view(*old(memory))),
    ensures
        (*final(reg), bus_view(*final(memory))) == spec_inc(
            *old(reg),
            bus_view(*old(memory)),
            cycles,
            i_addr,
        ),
        bus_wf(bus_view(*final(memory))),
{
    let byte = bus::read(memory, i_addr).wrapping_add(1);
    reg.set_negative(byte > 0x7f);
    reg.set_zero(byte == 0);
    bus::write(memory, i_addr, byte);
    reg.cycles_used = reg.cycles_used.wrapping_add(cycles);
}

/// Decrement memory.
pub fn dec(memory: &mut Vec<Segment>, reg: &mut CpuStatus, cycles: u8, i_addr: u16)
    requires
        bus_wf(bus_view(*old(memory))),
    ensures
        (*final(reg), bus_view(*final(memory))) == spec_dec(
            *old(reg),
            bus_view(*old(memory)),
            cycles,
            i_addr,
        ),
        bus_wf(bus_view(*final(memory))),
{
    let byte = bus::read(memory, i_addr).wrapping_sub(1);
    reg.set_negative(byte > 0x7f);
    reg.set_zero(byte == 0);
    bus::write(memory, i_addr, byte);
    reg.cycles_used = reg.cycles_used.wrapping_add(cycles);
}

/// ASL: shift left one bit; C takes the old bit 7.
pub open spec fn spec_asl(cpu: CpuStatus, m: Seq<SegView>, cycles: u8, i_addr: Option<u16>) -> (CpuStatus, Seq<SegView>) {
    let byte = match i_addr {
        Some(v) => read_val(m, v),
        None => cpu.a,
    };
    let m1 = match i_addr {
        Some(v) => read_hooked(m, v),
        None => m,
    };
    let shifted = ((byte * 2) % 256) as u8;
    let sr1 = with_carry(cpu.sr, byte >= 0x80);
    let sr2 = with_zero(with_negative(sr1, shifted > 0x7f), shifted == 0);
    let cycles2 = cpu.cycles_used.wrapping_add(cycles);
    match i_addr {
        Some(v) => (CpuStatus { sr: sr2, cycles_used: cycles2, ..cpu }, store_val(m1, v, shifted)),
        None => (CpuStatus { a: shifted, sr: sr2, cycles_used: cycles2, ..cpu }, m1),
    }
}

/// LSR: shift right one bit; C takes the old bit 0; N clears.
pub open spec fn spec_lsr(cpu: CpuStatus, m: Seq<SegView>, cycles: u8, i_addr: Option<u16>) -> (CpuStatus, Seq<SegView>) {
    let byte = match i_addr {
        Some(v) => read_val(m, v),
        None => cpu.a,
    };
    let m1 = match i_addr {
        Some(v) => read_hooked(m, v),
        None => m,
    };
    let shifted = (byte / 2) as u8;
    let sr1 = with_carry(cpu.sr, byte % 2 == 1);
    let sr2 = with_zero(with_negative(sr1, false), shifted == 0);
    let cycles2 = cpu.cycles_used.wrapping_add(cycles);
    match i_addr {
        Some(v) => (CpuStatus { sr: sr2, cycles_used: cycles2, ..cpu }, store_val(m1, v, shifted)),
        None => (CpuStatus { a: shifted, sr: sr2, cycles_used: cycles2, ..cpu }, m1),
    }
}

/// ROL: rotate left through carry; the old carry enters bit 0, C takes the
/// old bit 7.
pub open spec fn spec_rol(cpu: CpuStatus, m: Seq<SegView>, cycles: u8, i_addr: Option<u16>) -> (CpuStatus, Seq<SegView>) {
    let byte = match i_addr {
        Some(v) => read_val(m, v),
        None => cpu.a,
    };
    let m1 = match i_addr {
        Some(v) => read_hooked(m, v),
        None => m,
    };
    let rotated = ((byte * 2) % 256 + if carry_of(cpu.sr) { 1int } else { 0int }) as u8;
    let sr1 = with_carry(cpu.sr, byte >= 0x80);
    let sr2 = with_zero(with_negative(sr1, rotated > 0x7f), rotated == 0);
    let cycles2 = cpu.cycles_used.wrapping_add(cycles);
    match i_addr {
        Some(v) => (CpuStatus { sr: sr2, cycles_used: cycles2, ..cpu }, store_val(m1, v, rotated)),
        None => (CpuStatus { a: rotated, sr: sr2, cycles_used: cycles2, ..cpu }, m1),
    }
}

/// ROR: rotate right through carry; the old carry enters bit 7, C takes the
/// old bit 0.
pub open spec fn spec_ror(cpu: CpuStatus, m: Seq<SegView>, cycles: u8, i_addr: Option<u16>) -> (CpuStatus, Seq<SegView>) {
    let byte = match i_addr {
        Some(v) => read_val(m, v),
        None => cpu.a,
    };
    let m1 = match i_addr {
        Some(v) => read_hooked(m, v),
        None => m,
    };
    let rotated = (byte / 2 + if carry_of(cpu.sr) { 128int } else { 0int }) as u8;
    let sr1 = with_carry(cpu.sr, byte % 2 == 1);
    let sr2 = with_zero(with_negative(sr1, rotated > 0x7f), rotated == 0);
    let cycles2 = cpu.cycles_used.wrapping_add(cycles);
    match i_addr {
        Some(v) => (CpuStatus { sr: sr2, cycles_used: cycles2, ..cpu }, store_val(m1, v, rotated)),
        None => (CpuStatus { a: rotated, sr: sr2, cycles_used: cycles2, ..cpu }, m1),
    }
}

/// Arithmetic shift left of the accumulator or of memory.
pub fn asl(memory: &mut Vec<Segment>, reg: &mut CpuStatus, cycles: u8, i_addr: Option<u16>)
    requires
        bus_wf(bus_view(*old(memory))),
    ensures
        (*final(reg), bus_view(*final(memory))) == spec_asl(
            *old(reg),
            bus_view(*old(memory)),
            cycles,
            i_addr,
        ),
        bus_wf(bus_view(*final(memory))),
{
    let byte = match i_addr {
        Some(v) => bus::read(memory, v),
        None => reg.a,
    };
    reg.set_carry(byte >= 0x80);
    let shifted: u8 = ((byte as u16 * 2) % 256) as u8;
    reg.set_negative(shifted > 0x7f);
    reg.set_zero(shifted == 0);
    match i_addr {
        Some(v) => bus::write(memory, v, shifted),
        None => reg.a = shifted,
    };
    reg.cycles_used = reg.cycles_used.wrapping_add(cycles);
}

/// Logical shift right of the accumulator or of memory.
pub fn lsr(memory: &mut Vec<Segment>, reg: &mut CpuStatus, cycles: u8, i_addr: Option<u16>)
    requires
        bus_wf(bus_view(*old(memory))),
    ensures
        (*final(reg), bus_view(*final(memory))) == spec_lsr(
            *old(reg),
            bus_view(*old(memory)),
            cycles,
            i_addr,
        ),
        bus_wf(bus_view(*final(memory))),
{
    let byte = match i_addr {
        Some(v) => bus::read(memory, v),
        None => reg.a,
    };
    reg.set_carry(byte % 2 == 1);
    let shifted: u8 = byte / 2;
    reg.set_negative(false);
    reg.set_zero(shifted == 0);
    match i_addr {
        Some(v) => bus::write(memory, v, shifted),
        None => reg.a = shifted,
    };
    reg.cycles_used = reg.cycles_used.wrapping_add(cycles);
}

/// Rotate left through carry, of the accumulator or of memory.
pub fn rol(memory: &mut Vec<Segment>, reg: &mut CpuStatus, cycles: u8, i_addr: Option<u16>)
    requires
        bus_wf(bus_view(*old(memory))),
    ensures
        (*final(reg), bus_view(*final(memory))) == spec_rol(
            *old(reg),
            bus_view(*old(memory)),
            cycles,
            i_addr,
        ),
        bus_wf(bus_view(*final(memory))),
{
    let byte = match i_addr {
        Some(v) => bus::read(memory, v),
        None => reg.a,
    };
    let carry_in: u8 = if reg.carry_flag() { 1 } else { 0 };
    let rotated: u8 = ((byte as u16 * 2) % 256) as u8 + carry_in;
    reg.set_carry(byte >= 0x80);
    reg.set_negative(rotated > 0x7f);
    reg.set_zero(rotated == 0);
    match i_addr {
        Some(v) => bus::write(memory, v, rotated),
        None => reg.a = rotated,
    };
    reg.cycles_used = reg.cycles_used.wrapping_add(cycles);
}

/// Rotate right through carry, of the accumulator or of memory.
pub fn ror(memory: &mut Vec<Segment>, reg: &mut CpuStatus, cycles: u8, i_addr: Option<u16>)
    requires
        bus_wf(bus_view(*old(memory))),
    ensures
        (*final(reg), bus_view(*final(memory))) == spec_ror(
            *old(reg),
            bus_view(*old(memory)),
            cycles,
            i_addr,
        ),
        bus_wf(bus_view(*final(memory))),
{
    let byte = match i_addr {
        Some(v) => bus::read(memory, v),
        None => reg.a,
    };
    let carry_in: u8 = if reg.carry_flag() { 128 } else { 0 };
    let rotated: u8 = byte / 2 + carry_in;
    reg.set_carry(byte % 2 == 1);
    reg.set_negative(rotated > 0x7f);
    reg.set_zero(rotated == 0);
    match i_addr {
        Some(v) => bus::write(memory, v, rotated),
        None => reg.a = rotated,
    };
    reg.cycles_used = reg.cycles_used.wrapping_add(cycles);
}

/// A conditional branch: two cycles when not taken; when taken, one more
/// cycle, the signed offset is added to the PC past the offset byte, and a
/// page cross against the offset byte's address costs one further cycle.
pub open spec fn spec_branch(cpu: CpuStatus, m: Seq<SegView>, flag: bool) -> (CpuStatus, Seq<SegView>) {
    if flag {
        let old_pc = cpu.pc;
        let offset = read_val(m, cpu.pc);
        let m1 = read_hooked(m, cpu.pc);
        let pc1 = cpu.pc.wrapping_add(1);
        let new_pc = if offset < 128 {
            pc1.wrapping_add(offset as u16)
        } else {
            pc1.wrapping_sub((256 - offset) as u16)
        };
        let taken = cpu.cycles_used.wrapping_add(3);
        let cyc = if crate::page_of(old_pc) != crate::page_of(new_pc) {
            taken.wrapping_add(1)
        } else {
            taken
        };
        (CpuStatus { pc: new_pc, cycles_used: cyc, ..cpu }, m1)
    } else {
        (
            CpuStatus {
                pc: cpu.pc.wrapping_add(1),
                cycles_used: cpu.cycles_used.wrapping_add(2),
                ..cpu
            },
            m,
        )
    }
}

/// The basis of all branch instructions.
pub fn branch(memory: &mut Vec<Segment>, reg: &mut CpuStatus, flag: bool)
    requires
        bus_wf(bus_view(*old(memory))),
    ensures
        (*final(reg), bus_view(*final(memory))) == spec_branch(
            *old(reg),
            bus_view(*old(memory)),
            flag,
        ),
        bus_wf(bus_view(*final(memory))),
{
    if flag {
        let old_pc = reg.pc;
        let offset = bus::read(memory, reg.pc);
        reg.pc = reg.pc.wrapping_add(1);
        if offset < 128 {
            reg.pc = reg.pc.wrapping_add(offset as u16);
        } else {
            reg.pc = reg.pc.wrapping_sub(256 - offset as u16);
        }
        reg.cycles_used = reg.cycles_used.wrapping_add(3);
        if old_pc / 256 != reg.pc / 256 {
            reg.cycles_used = reg.cycles_used.wrapping_add(1);
        }
    } else {
        reg.pc = reg.pc.wrapping_add(1);
        reg.cycles_used = reg.cycles_used.wrapping_add(2);
    }
}

/// JMP: the PC takes the effective address.
pub open spec fn spec_jmp(cpu: CpuStatus, cycles: u8, i_addr: u16) -> CpuStatus {
    CpuStatus { pc: i_addr, cycles_used: cpu.cycles_used.wrapping_add(cycles), ..cpu }
}

/// Jump to an address.
pub fn jmp(reg: &mut CpuStatus, cycles: u8, i_addr: u16)
    ensures
        *final(reg) == spec_jmp(*old(reg), cycles, i_addr),
{
    reg.pc = i_addr;
    reg.cycles_used = reg.cycles_used.wrapping_add(cycles);
}

/// JSR: push the address of the JSR's last byte, high byte first, then jump.
pub open spec fn spec_jsr(cpu: CpuStatus, m: Seq<SegView>, cycles: u8, i_addr: u16) -> (CpuStatus, Seq<SegView>) {
    let ret = cpu.pc.wrapping_sub(1);
    let (cpu1, m1) = bus::spec_push(cpu, m, (ret as int / 256) as u8);
    let (cpu2, m2) = bus::spec_push(cpu1, m1, (ret as int % 256) as u8);
    (CpuStatus { pc: i_addr, cycles_used: cpu.cycles_used.wrapping_add(cycles), ..cpu2 }, m2)
}

/// Jump to a subroutine.
pub fn jsr(memory: &mut Vec<Segment>, reg: &mut CpuStatus, cycles: u8, i_addr: u16)
    requires
        bus_wf(bus_view(*old(memory))),
    ensures
        (*final(reg), bus_view(*final(memory))) == spec_jsr(
            *old(reg),
            bus_view(*old(memory)),
            cycles,
            i_addr,
        ),
        bus_wf(bus_view(*final(memory))),
{
    let return_addr = reg.pc.wrapping_sub(1);
    let return_byte_hi: u8 = (return_addr / 256) as u8;
    let return_byte_lo: u8 = (return_addr % 256) as u8;
    bus::push_stack(memory, reg, return_byte_hi);
    bus::push_stack(memory, reg, return_byte_lo);
    reg.pc = i_addr;
    reg.cycles_used = reg.cycles_used.wrapping_add(cycles);
}

/// RTS: pull the return address, low byte first, and resume one past it.
pub open spec fn spec_rts(cpu: CpuStatus, m: Seq<SegView>, cycles: u8) -> CpuStatus {
    let (lo, cpu1) = bus::spec_pull(cpu, m);
    let (hi, cpu2) = bus::spec_pull(cpu1, m);
    CpuStatus {
        pc: ((hi * 256 + lo) as u16).wrapping_add(1),
        cycles_used: cpu.cycles_used.wrapping_add(cycles),
        ..cpu2
    }
}

/// Return from a subroutine.
pub fn rts(memory: &mut Vec<Segment>, reg: &mut CpuStatus, cycles: u8)
    requires
        bus_wf(bus_view(*old(memory))),
    ensures
        *final(reg) == spec_rts(*old(reg), bus_view(*old(memory)), cycles),
        bus_view(*final(memory)) == bus_view(*old(memory)),
{
    let return_byte_lo = bus::pull_stack(memory, reg);
    let return_byte_hi = bus::pull_stack(memory, reg);
    reg.pc = ((return_byte_hi as u16) * 256 + return_byte_lo as u16).wrapping_add(1);
    reg.cycles_used = reg.cycles_used.wrapping_add(cycles);
}

/// RTI: pull the status byte (bits 4 and 5 keep their prior values), then
/// the return address; no one-past adjustment.
pub open spec fn spec_rti(cpu: CpuStatus, m: Seq<SegView>, cycles: u8) -> CpuStatus {
    let (p, cpu1) = bus::spec_pull(cpu, m);
    let (lo, cpu2) = bus::spec_pull(cpu1, m);
    let (hi, cpu3) = bus::spec_pull(cpu2, m);
    CpuStatus {
        sr: (cpu.sr & 0x30) | (p & 0xcf),
        pc: (hi * 256 + lo) as u16,
        cycles_used: cpu.cycles_used.wrapping_add(cycles),
        ..cpu3
    }
}

/// Return from an interrupt.
pub fn rti(memory: &mut Vec<Segment>, reg: &mut CpuStatus, cycles: u8)
    requires
        bus_wf(bus_view(*old(memory))),
    ensures
        *final(reg) == spec_rti(*old(reg), bus_view(*old(memory)), cycles),
        bus_view(*final(memory)) == bus_view(*old(memory)),
{
    let pulled = bus::pull_stack(memory, reg);
    reg.sr = (reg.sr & 0x30) | (pulled & 0xcf);
    let return_byte_lo = bus::pull_stack(memory, reg);
    let return_byte_hi = bus::pull_stack(memory, reg);
    reg.pc = (return_byte_hi as u16) * 256 + return_byte_lo as u16;
    reg.cycles_used = reg.cycles_used.wrapping_add(cycles);
}

/// BRK: skip the padding byte, set B, push the PC and the status byte with
/// B and the reserved bit forced on, set I, and enter through the IRQ
/// vector.
pub open spec fn spec_brk(cpu: CpuStatus, m: Seq<SegView>, cycles: u8) -> (CpuStatus, Seq<SegView>) {
    let pc1 = cpu.pc.wrapping_add(1);
    let sr_b = with_break(cpu.sr, true);
    let cpu0 = CpuStatus { pc: pc1, sr: sr_b, ..cpu };
    let (cpu1, m1) = bus::spec_push(cpu0, m, (pc1 as int / 256) as u8);
    let (cpu2, m2) = bus::spec_push(cpu1, m1, (pc1 as int % 256) as u8);
    let (cpu3, m3) = bus::spec_push(cpu2, m2, sr_b | FLAG_R);
    let (vector, m4) = bus::spec_vector(m3, 0xfffe);
    (
        CpuStatus {
            pc: vector,
            sr: with_interrupt(sr_b, true),
            cycles_used: cpu.cycles_used.wrapping_add(cycles),
            ..cpu3
        },
        m4,
    )
}

/// Force an interrupt.
pub fn brk(memory: &mut Vec<Segment>, reg: &mut CpuStatus, cycles: u8)
    requires
        bus_wf(bus_view(*old(memory))),
    ensures
        (*final(reg), bus_view(*final(memory))) == spec_brk(
            *old(reg),
            bus_view(*old(memory)),
            cycles,
        ),
        bus_wf(bus_view(*final(memory))),
{
    reg.pc = reg.pc.wrapping_add(1);
    reg.set_break(true);
    let pc = reg.pc;
    let sr_b = reg.sr;
    bus::push_stack(memory, reg, (pc / 256) as u8);
    bus::push_stack(memory, reg, (pc % 256) as u8);
    bus::push_stack(memory, reg, sr_b | FLAG_R);
    let lo = bus::read(memory, 0xfffe);
    let hi = bus::read(memory, 0xffff);
    reg.pc = (hi as u16) * 256 + lo as u16;
    reg.set_interrupt(true);
    reg.cycles_used = reg.cycles_used.wrapping_add(cycles);
}

/// A register-to-register move, named by one-letter register names; N and Z
/// follow the moved value except when the destination is the stack pointer.
pub open spec fn spec_transfer(cpu: CpuStatus, origin: char, destination: char) -> CpuStatus {
    let val = if origin == 'a' {
        cpu.a
    } else if origin == 'x' {
        cpu.x
    } else if origin == 'y' {
        cpu.y
    } else {
        cpu.sp
    };
    let cpu1 = if destination == 'a' {
        CpuStatus { a: val, ..cpu }
    } else if destination == 'x' {
        CpuStatus { x: val, ..cpu }
    } else if destination == 'y' {
        CpuStatus { y: val, ..cpu }
    } else {
        CpuStatus { sp: val, ..cpu }
    };
    let cpu2 = CpuStatus { cycles_used: cpu.cycles_used.wrapping_add(2), ..cpu1 };
    if destination != 's' {
        CpuStatus { sr: with_nz(cpu2.sr, val), ..cpu2 }
    } else {
        cpu2
    }
}

/// Move a value between registers. Origins and destinations are the letters
/// `a`, `x`, `y` and `s`.
pub fn transfer(reg: &mut CpuStatus, origin: char, destination: char)
    requires
        origin == 'a' || origin == 'x' || origin == 'y' || origin == 's',
        destination == 'a' || destination == 'x' || destination == 'y' || destination == 's',
    ensures
        *final(reg) == spec_transfer(*old(reg), origin, destination),
{
    let val: u8 = if origin == 'a' {
        reg.a
    } else if origin == 'x' {
        reg.x
    } else if origin == 'y' {
        reg.y
    } else {
        reg.sp
    };
    if destination == 'a' {
        reg.a = val;
    } else if destination == 'x' {
        reg.x = val;
    } else if destination == 'y' {
        reg.y = val;
    } else {
        reg.sp = val;
    }
    reg.cycles_used = reg.cycles_used.wrapping_add(2);
    if destination != 's' {
        reg.set_negative(val > 0x7f);
        reg.set_zero(0 == val);
    }
}

} // verus!
