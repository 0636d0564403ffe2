//! The laws of the core, stated over the same spec functions that the
//! executable contracts use: the reserved status bit is invariant under
//! every step, the stack touches exactly `0x0100 | SP`, indexed modes pay
//! the page-cross cycle exactly when the page changes, the indirect jump
//! reproduces the page-boundary bug, and the push/pull pairs restore what
//! they saved.

use crate::bus;
use crate::bus::{bus_wf, read_val, rw_same, same_layout, stack_addr, SegView};
use crate::cpu::{
    carry_of, decimal_of, interrupt_of, reserved_of, spec_decode, spec_ea, spec_exec_op,
    spec_interrupts, spec_step, with_break, with_carry, with_decimal, with_interrupt,
    with_negative, with_overflow, with_zero, CpuError, CpuStatus, Decoded, Mode, Op,
};
use crate::op;
use crate::op::{spec_arith_operand, with_nz};
use vstd::prelude::*;

verus! {

proof fn lemma_with_carry_keeps_reserved(sr: u8, f: bool)
    ensures
        reserved_of(with_carry(sr, f)) == reserved_of(sr),
{
    assert(((if f {
        sr | 0x01u8
    } else {
        sr & 0xfeu8
    }) & 0x20) == sr & 0x20) by (bit_vector);
}

proof fn lemma_with_zero_keeps_reserved(sr: u8, f: bool)
    ensures
        reserved_of(with_zero(sr, f)) == reserved_of(sr),
{
    assert(((if f {
        sr | 0x02u8
    } else {
        sr & 0xfdu8
    }) & 0x20) == sr & 0x20) by (bit_vector);
}

proof fn lemma_with_interrupt_keeps_reserved(sr: u8, f: bool)
    ensures
        reserved_of(with_interrupt(sr, f)) == reserved_of(sr),
{
    assert(((if f {
        sr | 0x04u8
    } else {
        sr & 0xfbu8
    }) & 0x20) == sr & 0x20) by (bit_vector);
}

proof fn lemma_with_decimal_keeps_reserved(sr: u8, f: bool)
    ensures
        reserved_of(with_decimal(sr, f)) == reserved_of(sr),
{
    assert(((if f {
        sr | 0x08u8
    } else {
        sr & 0xf7u8
    }) & 0x20) == sr & 0x20) by (bit_vector);
}

proof fn lemma_with_break_keeps_reserved(sr: u8, f: bool)
    ensures
        reserved_of(with_break(sr, f)) == reserved_of(sr),
{
    assert(((if f {
        sr | 0x10u8
    } else {
        sr & 0xefu8
    }) & 0x20) == sr & 0x20) by (bit_vector);
}

proof fn lemma_with_overflow_keeps_reserved(sr: u8, f: bool)
    ensures
        reserved_of(with_overflow(sr, f)) == reserved_of(sr),
{
    assert(((if f {
        sr | 0x40u8
    } else {
        sr & 0xbfu8
    }) & 0x20) == sr & 0x20) by (bit_vector);
}

proof fn lemma_with_negative_keeps_reserved(sr: u8, f: bool)
    ensures
        reserved_of(with_negative(sr, f)) == reserved_of(sr),
{
    assert(((if f {
        sr | 0x80u8
    } else {
        sr & 0x7fu8
    }) & 0x20) == sr & 0x20) by (bit_vector);
}

proof fn lemma_pull_sr_keeps_reserved(sr: u8, p: u8)
    ensures
        reserved_of((sr & 0x30) | (p & 0xcf)) == reserved_of(sr),
{
    assert((((sr & 0x30) | (p & 0xcf)) & 0x20) == sr & 0x20) by (bit_vector);
}

proof fn lemma_nz_keeps_reserved(sr: u8, v: u8)
    ensures
        reserved_of(with_nz(sr, v)) == reserved_of(sr),
{
    lemma_with_negative_keeps_reserved(sr, v > 0x7f);
    lemma_with_zero_keeps_reserved(with_negative(sr, v > 0x7f), v == 0);
}

proof fn lemma_arith_keeps_reserved(cpu: CpuStatus, byte: u8, cycles: u8)
    ensures
        reserved_of(spec_arith_operand(cpu, byte, cycles).sr) == reserved_of(cpu.sr),
{
    if decimal_of(cpu.sr) {
        let lo_sum = cpu.a as int % 16 + byte as int % 16 + (if carry_of(cpu.sr) {
            1int
        } else {
            0int
        });
        let half = lo_sum > 9;
        let hi_sum = cpu.a as int / 16 + byte as int / 16 + (if half {
            1int
        } else {
            0int
        });
        let carry_out = hi_sum > 9;
        let alu = ((hi_sum % 16) * 16 + lo_sum % 16) as u8;
        let sr1 = with_carry(cpu.sr, carry_out);
        let sr2 = with_zero(sr1, alu == 0);
        let sr3 = with_negative(sr2, alu > 0x7f);
        lemma_with_carry_keeps_reserved(cpu.sr, carry_out);
        lemma_with_zero_keeps_reserved(sr1, alu == 0);
        lemma_with_negative_keeps_reserved(sr2, alu > 0x7f);
        lemma_with_overflow_keeps_reserved(
            sr3,
            ((byte >= 0x80) == (cpu.a >= 0x80)) && ((alu >= 0x80) != (byte >= 0x80)),
        );
    } else {
        let sum = cpu.a + byte + (if carry_of(cpu.sr) {
            1int
        } else {
            0int
        });
        let carry_out = sum > 0xff;
        let masked = (sum % 256) as u8;
        let sr1 = with_carry(cpu.sr, carry_out);
        let sr2 = with_overflow(
            sr1,
            ((byte >= 0x80) == (cpu.a >= 0x80)) && ((masked >= 0x80) != (byte >= 0x80)),
        );
        let sr3 = with_zero(sr2, masked == 0);
        lemma_with_carry_keeps_reserved(cpu.sr, carry_out);
        lemma_with_overflow_keeps_reserved(
            sr1,
            ((byte >= 0x80) == (cpu.a >= 0x80)) && ((masked >= 0x80) != (byte >= 0x80)),
        );
        lemma_with_zero_keeps_reserved(sr2, masked == 0);
        lemma_with_negative_keeps_reserved(sr3, masked > 0x7f);
    }
}

proof fn lemma_compare_keeps_reserved(sr: u8, regval: u8, byte: u8)
    ensures
        reserved_of(op::spec_compare_sr(sr, regval, byte)) == reserved_of(sr),
{
    let sr1 = with_carry(sr, regval >= byte);
    let sr2 = with_zero(sr1, regval == byte);
    lemma_with_carry_keeps_reserved(sr, regval >= byte);
    lemma_with_zero_keeps_reserved(sr1, regval == byte);
    lemma_with_negative_keeps_reserved(sr2, regval.wrapping_sub(byte) > 0x7f);
}

proof fn lemma_shift_sr_keeps_reserved(sr: u8, c: bool, v: u8)
    ensures
        reserved_of(with_zero(with_negative(with_carry(sr, c), v > 0x7f), v == 0)) == reserved_of(
            sr,
        ),
        reserved_of(with_zero(with_negative(with_carry(sr, c), false), v == 0)) == reserved_of(sr),
{
    lemma_with_carry_keeps_reserved(sr, c);
    lemma_with_negative_keeps_reserved(with_carry(sr, c), v > 0x7f);
    lemma_with_negative_keeps_reserved(with_carry(sr, c), false);
    lemma_with_zero_keeps_reserved(with_negative(with_carry(sr, c), v > 0x7f), v == 0);
    lemma_with_zero_keeps_reserved(with_negative(with_carry(sr, c), false), v == 0);
}

proof fn lemma_ea_keeps_sr(mode: Mode, cpu: CpuStatus, m: Seq<SegView>)
    ensures
        spec_ea(mode, cpu, m).1.sr == cpu.sr,
{
    match mode {
        Mode::Implied => {},
        Mode::Accumulator => {},
        Mode::Immediate => {},
        Mode::ZeroPage => {},
        Mode::ZeroPageX => {},
        Mode::ZeroPageY => {},
        Mode::Absolute => {},
        Mode::AbsoluteX(_) => {},
        Mode::AbsoluteY(_) => {},
        Mode::Indirect => {},
        Mode::IndirectX => {},
        Mode::IndirectY(_) => {},
    }
}

proof fn lemma_exec_op_keeps_reserved(
    operation: Op,
    cycles: u8,
    addr: Option<u16>,
    cpu: CpuStatus,
    m: Seq<SegView>,
)
    requires
        reserved_of(cpu.sr),
    ensures
        reserved_of(spec_exec_op(operation, cycles, addr, cpu, m).0.sr),
{
    let ea = crate::cpu::ea_of(addr);
    match operation {
        Op::Adc => lemma_arith_keeps_reserved(cpu, read_val(m, ea), cycles),
        Op::Sbc => lemma_arith_keeps_reserved(cpu, (255 - read_val(m, ea)) as u8, cycles),
        Op::And => lemma_nz_keeps_reserved(cpu.sr, cpu.a & read_val(m, ea)),
        Op::Eor => lemma_nz_keeps_reserved(cpu.sr, cpu.a ^ read_val(m, ea)),
        Op::Ora => lemma_nz_keeps_reserved(cpu.sr, cpu.a | read_val(m, ea)),
        Op::Asl => {
            let byte = match addr {
                Some(v) => read_val(m, v),
                None => cpu.a,
            };
            lemma_shift_sr_keeps_reserved(cpu.sr, byte >= 0x80, ((byte * 2) % 256) as u8);
        },
        Op::Lsr => {
            let byte = match addr {
                Some(v) => read_val(m, v),
                None => cpu.a,
            };
            lemma_shift_sr_keeps_reserved(cpu.sr, byte % 2 == 1, (byte / 2) as u8);
        },
        Op::Rol => {
            let byte = match addr {
                Some(v) => read_val(m, v),
                None => cpu.a,
            };
            let rotated = ((byte * 2) % 256 + if carry_of(cpu.sr) {
                1int
            } else {
                0int
            }) as u8;
            lemma_shift_sr_keeps_reserved(cpu.sr, byte >= 0x80, rotated);
        },
        Op::Ror => {
            let byte = match addr {
                Some(v) => read_val(m, v),
                None => cpu.a,
            };
            let rotated = (byte / 2 + if carry_of(cpu.sr) {
                128int
            } else {
                0int
            }) as u8;
            lemma_shift_sr_keeps_reserved(cpu.sr, byte % 2 == 1, rotated);
        },
        Op::Bit => {
            let byte = read_val(m, ea);
            let sr1 = with_negative(cpu.sr, byte >= 0x80);
            let sr2 = with_overflow(sr1, byte & 0x40 != 0);
            lemma_with_negative_keeps_reserved(cpu.sr, byte >= 0x80);
            lemma_with_overflow_keeps_reserved(sr1, byte & 0x40 != 0);
            lemma_with_zero_keeps_reserved(sr2, byte & cpu.a == 0);
        },
        Op::Bpl => {},
        Op::Bmi => {},
        Op::Bvc => {},
        Op::Bvs => {},
        Op::Bcc => {},
        Op::Bcs => {},
        Op::Bne => {},
        Op::Beq => {},
        Op::Brk => {
            lemma_with_break_keeps_reserved(cpu.sr, true);
            lemma_with_interrupt_keeps_reserved(with_break(cpu.sr, true), true);
        },
        Op::Clc => lemma_with_carry_keeps_reserved(cpu.sr, false),
        Op::Sec => lemma_with_carry_keeps_reserved(cpu.sr, true),
        Op::Cld => lemma_with_decimal_keeps_reserved(cpu.sr, false),
        Op::Sed => lemma_with_decimal_keeps_reserved(cpu.sr, true),
        Op::Cli => lemma_with_interrupt_keeps_reserved(cpu.sr, false),
        Op::Sei => lemma_with_interrupt_keeps_reserved(cpu.sr, true),
        Op::Clv => lemma_with_overflow_keeps_reserved(cpu.sr, false),
        Op::Cmp => lemma_compare_keeps_reserved(cpu.sr, cpu.a, read_val(m, ea)),
        Op::Cpx => lemma_compare_keeps_reserved(cpu.sr, cpu.x, read_val(m, ea)),
        Op::Cpy => lemma_compare_keeps_reserved(cpu.sr, cpu.y, read_val(m, ea)),
        Op::Dec => lemma_nz_keeps_reserved(cpu.sr, read_val(m, ea).wrapping_sub(1)),
        Op::Inc => lemma_nz_keeps_reserved(cpu.sr, read_val(m, ea).wrapping_add(1)),
        Op::Dex => lemma_nz_keeps_reserved(cpu.sr, cpu.x.wrapping_sub(1)),
        Op::Dey => lemma_nz_keeps_reserved(cpu.sr, cpu.y.wrapping_sub(1)),
        Op::Inx => lemma_nz_keeps_reserved(cpu.sr, cpu.x.wrapping_add(1)),
        Op::Iny => lemma_nz_keeps_reserved(cpu.sr, cpu.y.wrapping_add(1)),
        Op::Jmp => {},
        Op::Jsr => {},
        Op::Rts => {},
        Op::Lda => lemma_nz_keeps_reserved(cpu.sr, read_val(m, ea)),
        Op::Ldx => lemma_nz_keeps_reserved(cpu.sr, read_val(m, ea)),
        Op::Ldy => lemma_nz_keeps_reserved(cpu.sr, read_val(m, ea)),
        Op::Nop => {},
        Op::Pha => {},
        Op::Php => {},
        Op::Pla => {
            let (v, _) = bus::spec_pull(cpu, m);
            lemma_nz_keeps_reserved(cpu.sr, v);
        },
        Op::Plp => {
            let (v, _) = bus::spec_pull(cpu, m);
            lemma_pull_sr_keeps_reserved(cpu.sr, v);
        },
        Op::Rti => {
            let (v, _) = bus::spec_pull(cpu, m);
            lemma_pull_sr_keeps_reserved(cpu.sr, v);
        },
        Op::Sta => {},
        Op::Stx => {},
        Op::Sty => {},
        Op::Tax => lemma_nz_keeps_reserved(cpu.sr, cpu.a),
        Op::Tay => lemma_nz_keeps_reserved(cpu.sr, cpu.a),
        Op::Tsx => lemma_nz_keeps_reserved(cpu.sr, cpu.sp),
        Op::Txa => lemma_nz_keeps_reserved(cpu.sr, cpu.x),
        Op::Tya => lemma_nz_keeps_reserved(cpu.sr, cpu.y),
        Op::Txs => {},
    }
}

proof fn lemma_interrupts_keep_reserved(cpu: CpuStatus, m: Seq<SegView>)
    ensures
        reserved_of(spec_interrupts(cpu, m).0.sr) == reserved_of(cpu.sr),
{
    if cpu.reset {
        lemma_with_interrupt_keeps_reserved(cpu.sr, true);
    }
    let c1 = if cpu.reset {
        CpuStatus {
            pc: bus::spec_vector(m, 0xfffc).0,
            sr: with_interrupt(cpu.sr, true),
            cycles_used: cpu.cycles_used.wrapping_add(7),
            reset: false,
            ..cpu
        }
    } else {
        cpu
    };
    lemma_with_interrupt_keeps_reserved(c1.sr, true);
}

/// The reserved status bit reads as one in every reachable state: it is one
/// at power-on, and every instruction step keeps it.
pub proof fn lemma_reserved_bit_invariant(cpu: CpuStatus, m: Seq<SegView>)
    requires
        reserved_of(cpu.sr),
    ensures
        reserved_of(spec_step(cpu, m).0.sr),
{
    let cpu0 = CpuStatus { cycles_used: 0, ..cpu };
    lemma_interrupts_keep_reserved(cpu0, m);
    let (c1, m1) = spec_interrupts(cpu0, m);
    let opcode = read_val(m1, c1.pc);
    let m2 = crate::bus::read_hooked(m1, c1.pc);
    let c2 = CpuStatus { last_op: opcode, pc: c1.pc.wrapping_add(1), ..c1 };
    match spec_decode(opcode) {
        Decoded::Jam => {},
        Decoded::Unknown => {},
        Decoded::Instr(operation, mode, cycles) => {
            lemma_ea_keeps_sr(mode, c2, m2);
            let (addr, c3, m3) = spec_ea(mode, c2, m2);
            lemma_exec_op_keeps_reserved(operation, cycles, addr, c3, m3);
        },
    }
}

/// Every stack access lands in page one, at `0x0100 | SP`: the byte a push
/// stores and a pull reads sits exactly there, as `spec_push` and
/// `spec_pull` state over `stack_addr`.
pub proof fn lemma_stack_addr_is_page_one(sp: u8)
    ensures
        stack_addr(sp) == (0x0100u16 | (sp as u16)),
        0x0100 <= stack_addr(sp) < 0x0200,
{
    assert((0x0100u16 | (sp as u16)) == 0x0100 + (sp as u16)) by (bit_vector);
}

proof fn lemma_page_as_xor(a: u16, b: u16)
    ensures
        (crate::page_of(a) == crate::page_of(b)) <==> ((a ^ b) & 0xff00 == 0),
{
    assert((a / 256 == b / 256) <==> ((a ^ b) & 0xff00 == 0)) by (bit_vector);
}

/// Indexed absolute addressing with `wrap_check` set consumes exactly one
/// extra cycle, exactly when the indexed address crosses a page: when
/// `(base ^ effective) & 0xFF00` is nonzero.
pub proof fn lemma_page_cross_extra_cycle(cpu: CpuStatus, m: Seq<SegView>, wrap_check: bool)
    ensures
        ({
            let (base, c0, _) = bus::spec_absolute(cpu, m);
            let (ea_x, c_x, _) = bus::spec_absolute_x(cpu, m, wrap_check);
            let (ea_y, c_y, _) = bus::spec_absolute_y(cpu, m, wrap_check);
            &&& ea_x == base.wrapping_add(cpu.x as u16)
            &&& ea_y == base.wrapping_add(cpu.y as u16)
            &&& c_x.cycles_used == (if wrap_check && (base ^ ea_x) & 0xff00 != 0 {
                c0.cycles_used.wrapping_add(1)
            } else {
                c0.cycles_used
            })
            &&& c_y.cycles_used == (if wrap_check && (base ^ ea_y) & 0xff00 != 0 {
                c0.cycles_used.wrapping_add(1)
            } else {
                c0.cycles_used
            })
        }),
{
    let (base, c0, _) = bus::spec_absolute(cpu, m);
    lemma_page_as_xor(base, base.wrapping_add(cpu.x as u16));
    lemma_page_as_xor(base, base.wrapping_add(cpu.y as u16));
}

/// Indirect indexed addressing with `wrap_check` set consumes exactly one
/// extra cycle, exactly when adding Y to the zero-page pointer crosses a
/// page.
pub proof fn lemma_indirect_y_extra_cycle(cpu: CpuStatus, m: Seq<SegView>, wrap_check: bool)
    ensures
        ({
            let zp_addr = read_val(m, cpu.pc);
            let m1 = crate::bus::read_hooked(m, cpu.pc);
            let lo = read_val(m1, zp_addr as u16);
            let m2 = crate::bus::read_hooked(m1, zp_addr as u16);
            let hi = read_val(m2, zp_addr.wrapping_add(1) as u16);
            let base = (hi * 256 + lo) as u16;
            let (ea, c, _) = bus::spec_indirect_y(cpu, m, wrap_check);
            &&& ea == base.wrapping_add(cpu.y as u16)
            &&& c.cycles_used == (if wrap_check && (base ^ ea) & 0xff00 != 0 {
                cpu.cycles_used.wrapping_add(1)
            } else {
                cpu.cycles_used
            })
        }),
{
    let zp_addr = read_val(m, cpu.pc);
    let m1 = crate::bus::read_hooked(m, cpu.pc);
    let lo = read_val(m1, zp_addr as u16);
    let m2 = crate::bus::read_hooked(m1, zp_addr as u16);
    let hi = read_val(m2, zp_addr.wrapping_add(1) as u16);
    let base = (hi * 256 + lo) as u16;
    lemma_page_as_xor(base, base.wrapping_add(cpu.y as u16));
}

/// The indirect jump's page-boundary bug: when the pointer's low byte is
/// `0xFF`, the pointer's high byte is fetched from the start of the same
/// page — `base & 0xFF00` — and not from `base + 1`.
pub proof fn lemma_indirect_page_bug(cpu: CpuStatus, m: Seq<SegView>)
    ensures
        ({
            let lo = read_val(m, cpu.pc);
            let m1 = crate::bus::read_hooked(m, cpu.pc);
            let hi = read_val(m1, cpu.pc.wrapping_add(1));
            let m2 = crate::bus::read_hooked(m1, cpu.pc.wrapping_add(1));
            let base = (hi * 256 + lo) as u16;
            let p_hi = (hi * 256 + ((lo + 1) % 256)) as u16;
            let o_lo = read_val(m2, base);
            let m3 = crate::bus::read_hooked(m2, base);
            let o_hi = read_val(m3, p_hi);
            &&& bus::spec_indirect(cpu, m).0 == (o_hi * 256 + o_lo) as u16
            &&& lo == 0xff ==> p_hi == base & 0xff00
        }),
{
    let lo = read_val(m, cpu.pc);
    let m1 = crate::bus::read_hooked(m, cpu.pc);
    let hi = read_val(m1, cpu.pc.wrapping_add(1));
    if lo == 0xff {
        let base = (hi * 256 + lo) as u16;
        assert((base % 256 == 255) ==> ((base & 0xff00) == base - 255)) by (bit_vector);
    }
}

/// PHP then PLP restores the status byte exactly, whenever the stack slot is
/// ordinary read-write memory.
pub proof fn lemma_php_plp_restores(cpu: CpuStatus, m: Seq<SegView>, cy1: u8, cy2: u8)
    requires
        bus_wf(m),
        rw_same(m, stack_addr(cpu.sp)),
    ensures
        ({
            let (c1, m1) = spec_exec_op(Op::Php, cy1, None, cpu, m);
            let (c2, _) = spec_exec_op(Op::Plp, cy2, None, c1, m1);
            &&& c2.sr == cpu.sr
            &&& c2.sp == cpu.sp
            &&& c2.a == cpu.a
        }),
{
    let (c1, m1) = spec_exec_op(Op::Php, cy1, None, cpu, m);
    bus::lemma_plain_store_effects(m, stack_addr(cpu.sp), cpu.sr | 0x30);
    assert(c1.sp.wrapping_add(1) == cpu.sp);
    assert(read_val(m1, stack_addr(cpu.sp)) == cpu.sr | 0x30);
    let sr = cpu.sr;
    assert(((sr & 0x30) | (((sr | 0x30u8)) & 0xcf)) == sr) by (bit_vector);
}

/// The stack pointer `n` pushes below `sp`, with 8-bit wrap.
pub open spec fn sp_back(sp: u8, n: nat) -> u8 {
    (((sp as int) - (n as int)) % 256) as u8
}

/// The stack pointer `n` pulls above `sp`, with 8-bit wrap.
pub open spec fn sp_fwd(sp: u8, n: nat) -> u8 {
    (((sp as int) + (n as int)) % 256) as u8
}

/// The state after `n` consecutive PHA operations.
pub open spec fn pha_seq(cpu: CpuStatus, m: Seq<SegView>, n: nat) -> (CpuStatus, Seq<SegView>)
    decreases n,
{
    if n == 0 {
        (cpu, m)
    } else {
        let (c1, m1) = spec_exec_op(Op::Pha, 3, None, cpu, m);
        pha_seq(c1, m1, (n - 1) as nat)
    }
}

/// The processor state after `n` consecutive PLA operations; PLA leaves the
/// bus unchanged.
pub open spec fn pla_seq(cpu: CpuStatus, m: Seq<SegView>, n: nat) -> CpuStatus
    decreases n,
{
    if n == 0 {
        cpu
    } else {
        pla_seq(spec_exec_op(Op::Pla, 4, None, cpu, m).0, m, (n - 1) as nat)
    }
}

proof fn lemma_pha_seq_effects(cpu: CpuStatus, m: Seq<SegView>, n: nat)
    requires
        bus_wf(m),
        forall|a: u16| 0x0100 <= a < 0x0200 ==> rw_same(m, a),
    ensures
        ({
            let (c1, m1) = pha_seq(cpu, m, n);
            &&& c1.a == cpu.a
            &&& c1.sr == cpu.sr
            &&& c1.pc == cpu.pc
            &&& c1.x == cpu.x
            &&& c1.y == cpu.y
            &&& c1.sp == sp_back(cpu.sp, n)
            &&& bus_wf(m1)
            &&& same_layout(m, m1)
            &&& forall|a: u16| 0x0100 <= a < 0x0200 ==> rw_same(m1, a)
            &&& forall|k: nat| k < n ==> read_val(m1, stack_addr(sp_back(cpu.sp, k))) == cpu.a
            &&& forall|a2: u16|
                read_val(m1, a2) == read_val(m, a2) || read_val(m1, a2) == cpu.a
        }),
    decreases n,
{
    if n == 0 {
    } else {
        let at = stack_addr(cpu.sp);
        let (ca, ma) = spec_exec_op(Op::Pha, 3, None, cpu, m);
        bus::lemma_plain_store_effects(m, at, cpu.a);
        assert(0x0100 <= at < 0x0200);
        assert forall|a: u16| 0x0100 <= a < 0x0200 implies rw_same(ma, a) by {
            bus::lemma_same_layout_hits(m, ma, a, 0);
        }
        assert(ca.sp == sp_back(cpu.sp, 1));
        lemma_pha_seq_effects(ca, ma, (n - 1) as nat);
        let (c1, m1) = pha_seq(ca, ma, (n - 1) as nat);
        assert(same_layout(m, m1));
        assert(sp_back(ca.sp, (n - 1) as nat) == sp_back(cpu.sp, n));
        assert forall|k: nat| k < n implies read_val(m1, stack_addr(sp_back(cpu.sp, k))) == cpu.a by {
            if k == 0 {
                assert(read_val(ma, at) == cpu.a);
            } else {
                assert(sp_back(ca.sp, (k - 1) as nat) == sp_back(cpu.sp, k));
            }
        }
    }
}

proof fn lemma_pla_seq_effects(cpu: CpuStatus, m: Seq<SegView>, n: nat)
    ensures
        pla_seq(cpu, m, n).sp == sp_fwd(cpu.sp, n),
        pla_seq(cpu, m, n).pc == cpu.pc,
        pla_seq(cpu, m, n).x == cpu.x,
        pla_seq(cpu, m, n).y == cpu.y,
        n == 0 ==> pla_seq(cpu, m, n).a == cpu.a,
        n >= 1 ==> pla_seq(cpu, m, n).a == read_val(m, stack_addr(sp_fwd(cpu.sp, n))),
    decreases n,
{
    if n == 0 {
    } else {
        let c1 = spec_exec_op(Op::Pla, 4, None, cpu, m).0;
        assert(c1.sp == sp_fwd(cpu.sp, 1));
        lemma_pla_seq_effects(c1, m, (n - 1) as nat);
        assert(sp_fwd(c1.sp, (n - 1) as nat) == sp_fwd(cpu.sp, n));
    }
}

/// Any run of `n` PHA operations followed by `n` PLA operations returns A
/// and SP to their starting values, and while the bytes sit on the stack,
/// every slot the pushes covered holds the pushed accumulator.
pub proof fn lemma_pha_pla_roundtrip(cpu: CpuStatus, m: Seq<SegView>, n: nat)
    requires
        bus_wf(m),
        forall|a: u16| 0x0100 <= a < 0x0200 ==> rw_same(m, a),
    ensures
        ({
            let (c1, m1) = pha_seq(cpu, m, n);
            let c2 = pla_seq(c1, m1, n);
            &&& c2.a == cpu.a
            &&& c2.sp == cpu.sp
            &&& forall|k: nat| k < n ==> read_val(m1, stack_addr(sp_back(cpu.sp, k))) == cpu.a
        }),
{
    lemma_pha_seq_effects(cpu, m, n);
    let (c1, m1) = pha_seq(cpu, m, n);
    lemma_pla_seq_effects(c1, m1, n);
    assert(sp_fwd(sp_back(cpu.sp, n), n) == cpu.sp);
    if n >= 1 {
        assert(sp_back(cpu.sp, 0) == cpu.sp);
        assert(read_val(m1, stack_addr(cpu.sp)) == cpu.a);
    }
}

proof fn lemma_interrupt_bit_set(sr: u8)
    ensures
        interrupt_of(with_interrupt(sr, true)),
{
    assert((sr | 0x04u8) & 0x04 != 0) by (bit_vector);
}

/// A step that begins with the reset latch raised loads the PC from the
/// reset vector — low byte at `0xFFFC`, high byte at `0xFFFD` — sets the
/// interrupt-disable flag, charges seven cycles, and drops the latch.
pub proof fn lemma_reset_effects(cpu: CpuStatus, m: Seq<SegView>)
    requires
        cpu.reset,
        !cpu.external_nmi,
        !cpu.external_irq,
        cpu.cycles_used == 0,
    ensures
        ({
            let (c1, m1) = spec_interrupts(cpu, m);
            &&& c1.pc == (read_val(m, 0xfffc) as u16) | ((read_val(m, 0xfffd) as u16) << 8)
            &&& interrupt_of(c1.sr)
            &&& c1.cycles_used == 7
            &&& !c1.reset
        }),
{
    let lo = read_val(m, 0xfffc);
    let hi = read_val(m, 0xfffd);
    assert(((lo as u16) | ((hi as u16) << 8)) == (hi as u16) * 256 + (lo as u16)) by (bit_vector);
    lemma_interrupt_bit_set(cpu.sr);
}

/// NOP changes no register and no flag; it only advances the PC past its
/// single byte and consumes two cycles.
pub proof fn lemma_nop_preserves_state(cpu: CpuStatus, m: Seq<SegView>)
    requires
        !cpu.reset,
        !cpu.external_nmi,
        !(cpu.external_irq && !interrupt_of(cpu.sr)),
        read_val(m, cpu.pc) == 0xea,
    ensures
        ({
            let (c, m2, r) = spec_step(cpu, m);
            &&& c.a == cpu.a
            &&& c.x == cpu.x
            &&& c.y == cpu.y
            &&& c.sp == cpu.sp
            &&& c.sr == cpu.sr
            &&& c.pc == cpu.pc.wrapping_add(1)
            &&& c.cycles_used == 2
            &&& r == Ok::<u8, CpuError>(2u8)
        }),
{
    assert(spec_decode(0xea) == Decoded::Instr(Op::Nop, Mode::Implied, 2));
}

proof fn lemma_carry_of_with_carry(sr: u8, f: bool)
    ensures
        carry_of(with_carry(sr, f)) == f,
{
    assert(((if f {
        sr | 0x01u8
    } else {
        sr & 0xfeu8
    }) & 0x01 != 0) == f) by (bit_vector);
}

proof fn lemma_carry_of_with_negative(sr: u8, f: bool)
    ensures
        carry_of(with_negative(sr, f)) == carry_of(sr),
{
    assert(((if f {
        sr | 0x80u8
    } else {
        sr & 0x7fu8
    }) & 0x01) == sr & 0x01) by (bit_vector);
}

proof fn lemma_carry_of_with_zero(sr: u8, f: bool)
    ensures
        carry_of(with_zero(sr, f)) == carry_of(sr),
{
    assert(((if f {
        sr | 0x02u8
    } else {
        sr & 0xfdu8
    }) & 0x01) == sr & 0x01) by (bit_vector);
}

proof fn lemma_carry_of_shift_sr(sr: u8, c: bool, n: bool, z: bool)
    ensures
        carry_of(with_zero(with_negative(with_carry(sr, c), n), z)) == c,
{
    lemma_carry_of_with_carry(sr, c);
    lemma_carry_of_with_negative(with_carry(sr, c), n);
    lemma_carry_of_with_zero(with_negative(with_carry(sr, c), n), z);
}

/// ASL then LSR of the accumulator returns the original byte whenever its
/// top bit is clear and its bottom bit is clear, and the carry stays clear
/// through both shifts.
pub proof fn lemma_asl_lsr_roundtrip(cpu: CpuStatus, m: Seq<SegView>, cy1: u8, cy2: u8)
    requires
        cpu.a < 0x80,
        cpu.a % 2 == 0,
    ensures
        ({
            let (c1, m1) = op::spec_asl(cpu, m, cy1, None);
            let (c2, m2) = op::spec_lsr(c1, m1, cy2, None);
            &&& c2.a == cpu.a
            &&& !carry_of(c1.sr)
            &&& !carry_of(c2.sr)
            &&& m2 == m
        }),
{
    let a = cpu.a;
    let shifted = ((a * 2) % 256) as u8;
    assert(shifted == 2 * a);
    lemma_carry_of_shift_sr(cpu.sr, false, shifted > 0x7f, shifted == 0);
    let (c1, m1) = op::spec_asl(cpu, m, cy1, None);
    lemma_carry_of_shift_sr(c1.sr, false, false, shifted / 2 == 0);
}

/// The accumulator after `n` consecutive ROL operations.
pub open spec fn rol_seq(cpu: CpuStatus, m: Seq<SegView>, n: nat) -> CpuStatus
    decreases n,
{
    if n == 0 {
        cpu
    } else {
        rol_seq(op::spec_rol(cpu, m, 2, None).0, m, (n - 1) as nat)
    }
}

proof fn lemma_rol_zero_fixpoint(cpu: CpuStatus, m: Seq<SegView>, n: nat)
    requires
        cpu.a == 0,
        !carry_of(cpu.sr),
    ensures
        rol_seq(cpu, m, n).a == 0,
        !carry_of(rol_seq(cpu, m, n).sr),
    decreases n,
{
    if n > 0 {
        let c1 = op::spec_rol(cpu, m, 2, None).0;
        lemma_carry_of_shift_sr(cpu.sr, false, false, true);
        assert(c1.a == 0);
        lemma_rol_zero_fixpoint(c1, m, (n - 1) as nat);
    }
}

/// Eight ROL operations on the accumulator with entry carry clear return
/// the byte and a clear carry. ROL rotates through the carry — a nine-bit
/// rotation — so eight rotations restore only the byte zero; any nonzero
/// byte needs a ninth.
pub proof fn lemma_rol_eight_times(cpu: CpuStatus, m: Seq<SegView>)
    requires
        cpu.a == 0,
        !carry_of(cpu.sr),
    ensures
        rol_seq(cpu, m, 8).a == cpu.a,
        !carry_of(rol_seq(cpu, m, 8).sr),
{
    lemma_rol_zero_fixpoint(cpu, m, 8);
}

/// Binary ADC is commutative in the accumulator and the operand: swapping
/// them leaves the resulting accumulator unchanged (the overflow flag may
/// differ).
pub proof fn lemma_adc_binary_commutative(cpu: CpuStatus, byte: u8, cycles: u8)
    requires
        !decimal_of(cpu.sr),
    ensures
        spec_arith_operand(cpu, byte, cycles).a == spec_arith_operand(
            CpuStatus { a: byte, ..cpu },
            cpu.a,
            cycles,
        ).a,
{
}

/// Decimal ADC of two valid BCD operands is decimal addition: with the
/// carry-in included, a decimal sum up to 99 yields its BCD form with the
/// carry clear; a larger sum sets the carry and yields the low two digits.
pub proof fn lemma_bcd_adc_decimal(cpu: CpuStatus, byte: u8, cycles: u8)
    requires
        decimal_of(cpu.sr),
        cpu.a % 16 <= 9,
        cpu.a / 16 <= 9,
        byte % 16 <= 9,
        byte / 16 <= 9,
    ensures
        ({
            let r = spec_arith_operand(cpu, byte, cycles);
            let s = 10 * (cpu.a / 16) + cpu.a % 16 + 10 * (byte / 16) + byte % 16 + (if carry_of(
                cpu.sr,
            ) {
                1int
            } else {
                0int
            });
            &&& r.a % 16 <= 9
            &&& r.a / 16 <= 9
            &&& 10 * (r.a / 16) + r.a % 16 == s % 100
            &&& carry_of(r.sr) == (s > 99)
        }),
{
    let c_in: int = if carry_of(cpu.sr) {
        1int
    } else {
        0int
    };
    let lo_sum = cpu.a as int % 16 + byte as int % 16 + c_in;
    let half = lo_sum > 9;
    let hi_sum = cpu.a as int / 16 + byte as int / 16 + (if half {
        1int
    } else {
        0int
    });
    let carry_out = hi_sum > 9;
    let lo_adj = if half {
        (lo_sum + 6) % 16
    } else {
        lo_sum % 16
    };
    let hi_adj = if carry_out {
        (hi_sum + 6) % 16
    } else {
        hi_sum % 16
    };
    let s = 10 * (cpu.a / 16) + cpu.a % 16 + 10 * (byte / 16) + byte % 16 + c_in;
    assert(0 <= lo_sum <= 19);
    assert(0 <= hi_sum <= 19);
    assert(lo_adj == if half {
        lo_sum - 10
    } else {
        lo_sum
    });
    assert(hi_adj == if carry_out {
        hi_sum - 10
    } else {
        hi_sum
    });
    assert(0 <= lo_adj <= 9);
    assert(0 <= hi_adj <= 9);
    let r = spec_arith_operand(cpu, byte, cycles);
    assert(r.a == hi_adj * 16 + lo_adj);
    assert(r.a / 16 == hi_adj && r.a % 16 == lo_adj);
    let sr1 = with_carry(cpu.sr, carry_out);
    lemma_carry_of_with_carry(cpu.sr, carry_out);
    lemma_carry_of_with_zero(sr1, ((hi_sum % 16) * 16 + lo_sum % 16) as u8 == 0);
    let sr2 = with_zero(sr1, ((hi_sum % 16) * 16 + lo_sum % 16) as u8 == 0);
    lemma_carry_of_with_negative(sr2, ((hi_sum % 16) * 16 + lo_sum % 16) as u8 > 0x7f);
    let sr3 = with_negative(sr2, ((hi_sum % 16) * 16 + lo_sum % 16) as u8 > 0x7f);
    assert(carry_of(with_overflow(
        sr3,
        ((byte >= 0x80) == (cpu.a >= 0x80)) && ((((hi_sum % 16) * 16 + lo_sum % 16) as u8 >= 0x80)
            != (byte >= 0x80)),
    )) == carry_of(sr3)) by {
        lemma_carry_of_with_overflow(
            sr3,
            ((byte >= 0x80) == (cpu.a >= 0x80)) && ((((hi_sum % 16) * 16 + lo_sum % 16) as u8
                >= 0x80) != (byte >= 0x80)),
        );
    }
    assert(s == 10 * hi_sum + lo_sum - 10 * (if half {
        1int
    } else {
        0int
    }));
    assert(10 * (r.a / 16) + r.a % 16 == s - 100 * (if carry_out {
        1int
    } else {
        0int
    }));
    assert(carry_out == (s > 99));
    assert(s <= 199);
}

proof fn lemma_carry_of_with_overflow(sr: u8, f: bool)
    ensures
        carry_of(with_overflow(sr, f)) == carry_of(sr),
{
    assert(((if f {
        sr | 0x40u8
    } else {
        sr & 0xbfu8
    }) & 0x01) == sr & 0x01) by (bit_vector);
}

} // verus!
