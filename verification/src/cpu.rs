//! Processor state: the register file, the packed status byte with its
//! flag accessors, the interrupt latches, and the instruction dispatcher.

use crate::bus;
use crate::bus::{bus_view, bus_wf, read_hooked, read_val, SegView, Segment};
use crate::op;
use vstd::prelude::*;

verus! {

/// Carry flag mask.
pub const FLAG_C: u8 = 0x01;
/// Zero flag mask.
pub const FLAG_Z: u8 = 0x02;
/// Interrupt-disable flag mask.
pub const FLAG_I: u8 = 0x04;
/// Decimal-mode flag mask.
pub const FLAG_D: u8 = 0x08;
/// Break flag mask.
pub const FLAG_B: u8 = 0x10;
/// Reserved bit mask; architecturally reads as one.
pub const FLAG_R: u8 = 0x20;
/// Overflow flag mask.
pub const FLAG_V: u8 = 0x40;
/// Negative flag mask.
pub const FLAG_N: u8 = 0x80;

/// The registers of the CPU, the simulated clock rate, and the run state.
#[derive(Clone, Copy, Debug, PartialEq, Eq, Structural)]
pub struct CpuStatus {
    pub a: u8,
    pub x: u8,
    pub y: u8,
    pub pc: u16,
    pub sr: u8,
    pub sp: u8,
    pub last_op: u8,
    pub cycles_used: u8,
    pub reset: bool,
    pub debug_text: bool,
    pub clock_time: u64,
    pub running: bool,
    pub external_irq: bool,
    pub external_nmi: bool,
}

/// Carry bit of a status byte.
pub open spec fn carry_of(sr: u8) -> bool {
    sr & FLAG_C != 0
}

/// Zero bit of a status byte.
pub open spec fn zero_of(sr: u8) -> bool {
    sr & FLAG_Z != 0
}

/// Interrupt-disable bit of a status byte.
pub open spec fn interrupt_of(sr: u8) -> bool {
    sr & FLAG_I != 0
}

/// Decimal bit of a status byte.
pub open spec fn decimal_of(sr: u8) -> bool {
    sr & FLAG_D != 0
}

/// Break bit of a status byte.
pub open spec fn break_of(sr: u8) -> bool {
    sr & FLAG_B != 0
}

/// Overflow bit of a status byte.
pub open spec fn overflow_of(sr: u8) -> bool {
    sr & FLAG_V != 0
}

/// Negative bit of a status byte.
pub open spec fn negative_of(sr: u8) -> bool {
    sr & FLAG_N != 0
}

/// Reserved bit of a status byte; architecturally always one.
pub open spec fn reserved_of(sr: u8) -> bool {
    sr & FLAG_R != 0
}

/// The status byte with its carry bit forced to `flag`.
pub open spec fn with_carry(sr: u8, flag: bool) -> u8 {
    if flag { sr | FLAG_C } else { sr & 0xfe }
}

/// The status byte with its zero bit forced to `flag`.
pub open spec fn with_zero(sr: u8, flag: bool) -> u8 {
    if flag { sr | FLAG_Z } else { sr & 0xfd }
}

/// The status byte with its interrupt-disable bit forced to `flag`.
pub open spec fn with_interrupt(sr: u8, flag: bool) -> u8 {
    if flag { sr | FLAG_I } else { sr & 0xfb }
}

/// The status byte with its decimal bit forced to `flag`.
pub open spec fn with_decimal(sr: u8, flag: bool) -> u8 {
    if flag { sr | FLAG_D } else { sr & 0xf7 }
}

/// The status byte with its break bit forced to `flag`.
pub open spec fn with_break(sr: u8, flag: bool) -> u8 {
    if flag { sr | FLAG_B } else { sr & 0xef }
}

/// The status byte with its overflow bit forced to `flag`.
pub open spec fn with_overflow(sr: u8, flag: bool) -> u8 {
    if flag { sr | FLAG_V } else { sr & 0xbf }
}

/// The status byte with its negative bit forced to `flag`.
pub open spec fn with_negative(sr: u8, flag: bool) -> u8 {
    if flag { sr | FLAG_N } else { sr & 0x7f }
}

impl CpuStatus {
    /// Power-on state: registers cleared, interrupt-disable and the reserved
    /// bit set, PC at the reset vector, and the reset latch raised.
    /// `speed` is the simulated clock rate in Hz.
    pub fn new(speed: u64) -> (r: CpuStatus)
        requires
            speed >= 1,
        ensures
            r == (CpuStatus {
                a: 0,
                x: 0,
                y: 0,
                pc: 0xfffc,
                sr: 0b00100100,
                sp: 0,
                last_op: 0,
                cycles_used: 0,
                reset: true,
                debug_text: false,
                clock_time: (1000000000u64 / speed) as u64,
                running: true,
                external_irq: false,
                external_nmi: false,
            }),
    {
        CpuStatus {
            a: 0,
            x: 0,
            y: 0,
            pc: 0xfffc,
            sr: 0b00100100,
            sp: 0,
            last_op: 0,
            cycles_used: 0,
            reset: true,
            debug_text: false,
            clock_time: 1000000000 / speed,
            running: true,
            external_irq: false,
            external_nmi: false,
        }
    }

    pub fn carry_flag(&mut self) -> (r: bool)
        ensures
            *final(self) == *old(self),
            r == carry_of(old(self).sr),
    {
        0 != (self.sr & FLAG_C)
    }

    pub fn set_carry(&mut self, flag: bool)
        ensures
            *final(self) == (CpuStatus { sr: with_carry(old(self).sr, flag), ..*old(self) }),
    {
        if flag {
            self.sr = self.sr | FLAG_C;
        } else {
            self.sr = self.sr & 0xfe;
        }
    }

    pub fn zero_flag(&mut self) -> (r: bool)
        ensures
            *final(self) == *old(self),
            r == zero_of(old(self).sr),
    {
        0 != (self.sr & FLAG_Z)
    }

    pub fn set_zero(&mut self, flag: bool)
        ensures
            *final(self) == (CpuStatus { sr: with_zero(old(self).sr, flag), ..*old(self) }),
    {
        if flag {
            self.sr = self.sr | FLAG_Z;
        } else {
            self.sr = self.sr & 0xfd;
        }
    }

    pub fn interrupt_flag(&mut self) -> (r: bool)
        ensures
            *final(self) == *old(self),
            r == interrupt_of(old(self).sr),
    {
        0 != (self.sr & FLAG_I)
    }

    pub fn set_interrupt(&mut self, flag: bool)
        ensures
            *final(self) == (CpuStatus { sr: with_interrupt(old(self).sr, flag), ..*old(self) }),
    {
        if flag {
            self.sr = self.sr | FLAG_I;
        } else {
            self.sr = self.sr & 0xfb;
        }
    }

    pub fn decimal_flag(&mut self) -> (r: bool)
        ensures
            *final(self) == *old(self),
            r == decimal_of(old(self).sr),
    {
        0 != (self.sr & FLAG_D)
    }

    pub fn set_decimal(&mut self, flag: bool)
        ensures
            *final(self) == (CpuStatus { sr: with_decimal(old(self).sr, flag), ..*old(self) }),
    {
        if flag {
            self.sr = self.sr | FLAG_D;
        } else {
            self.sr = self.sr & 0xf7;
        }
    }

    pub fn break_flag(&mut self) -> (r: bool)
        ensures
            *final(self) == *old(self),
            r == break_of(old(self).sr),
    {
        0 != (self.sr & FLAG_B)
    }

    pub fn set_break(&mut self, flag: bool)
        ensures
            *final(self) == (CpuStatus { sr: with_break(old(self).sr, flag), ..*old(self) }),
    {
        if flag {
            self.sr = self.sr | FLAG_B;
        } else {
            self.sr = self.sr & 0xef;
        }
    }

    pub fn overflow_flag(&mut self) -> (r: bool)
        ensures
            *final(self) == *old(self),
            r == overflow_of(old(self).sr),
    {
        0 != (self.sr & FLAG_V)
    }

    pub fn set_overflow(&mut self, flag: bool)
        ensures
            *final(self) == (CpuStatus { sr: with_overflow(old(self).sr, flag), ..*old(self) }),
    {
        if flag {
            self.sr = self.sr | FLAG_V;
        } else {
            self.sr = self.sr & 0xbf;
        }
    }

    pub fn negative_flag(&mut self) -> (r: bool)
        ensures
            *final(self) == *old(self),
            r == negative_of(old(self).sr),
    {
        0 != (self.sr & FLAG_N)
    }

    pub fn set_negative(&mut self, flag: bool)
        ensures
            *final(self) == (CpuStatus { sr: with_negative(old(self).sr, flag), ..*old(self) }),
    {
        if flag {
            self.sr = self.sr | FLAG_N;
        } else {
            self.sr = self.sr & 0x7f;
        }
    }

    /// Raise the interrupt-request latch. The latch is level-style: the
    /// dispatcher observes it only while the interrupt-disable flag is
    /// clear, and clears it on dispatch.
    pub fn irq(&mut self)
        ensures
            *final(self) == (CpuStatus { external_irq: true, ..*old(self) }),
    {
        self.external_irq = true;
    }

    /// Raise the edge-triggered non-maskable-interrupt latch.
    pub fn nmi(&mut self)
        ensures
            *final(self) == (CpuStatus { external_nmi: true, ..*old(self) }),
    {
        self.external_nmi = true;
    }
}

/// Why the interpreter halted; both kinds carry the offending opcode.
#[derive(Clone, Copy, Debug, PartialEq, Eq, Structural)]
pub enum CpuError {
    /// One of the JAM/HLT/KIL opcodes that lock a real NMOS 6502.
    Jam(u8),
    /// An opcode outside the implemented set.
    Unknown(u8),
}

/// An addressing-mode tag. The payload on the indexed modes is the
/// `wrap_check` flag: reads pay one extra cycle on a page cross, while
/// stores and read-modify-write forms always pay the worst case.
#[derive(Clone, Copy, Debug, PartialEq, Eq, Structural)]
pub enum Mode {
    Implied,
    Accumulator,
    Immediate,
    ZeroPage,
    ZeroPageX,
    ZeroPageY,
    Absolute,
    AbsoluteX(bool),
    AbsoluteY(bool),
    Indirect,
    IndirectX,
    IndirectY(bool),
}

/// A micro-operation tag.
#[derive(Clone, Copy, Debug, PartialEq, Eq, Structural)]
pub enum Op {
    Adc,
    And,
    Asl,
    Bit,
    Bpl,
    Bmi,
    Bvc,
    Bvs,
    Bcc,
    Bcs,
    Bne,
    Beq,
    Brk,
    Clc,
    Cld,
    Cli,
    Clv,
    Cmp,
    Cpx,
    Cpy,
    Dec,
    Dex,
    Dey,
    Eor,
    Inc,
    Inx,
    Iny,
    Jmp,
    Jsr,
    Lda,
    Ldx,
    Ldy,
    Lsr,
    Nop,
    Ora,
    Pha,
    Php,
    Pla,
    Plp,
    Rol,
    Ror,
    Rti,
    Rts,
    Sbc,
    Sec,
    Sed,
    Sei,
    Sta,
    Stx,
    Sty,
    Tax,
    Tay,
    Tsx,
    Txa,
    Txs,
    Tya,
}

/// One row of the dispatch table.
#[derive(Clone, Copy, Debug, PartialEq, Eq, Structural)]
pub enum Decoded {
    /// A legal instruction: operation, addressing mode, base cycle count.
    Instr(Op, Mode, u8),
    /// A bus-locking opcode; execution halts.
    Jam,
    /// An unimplemented opcode; execution halts.
    Unknown,
}

/// The dispatch table: every opcode byte maps to a legal instruction, to
/// the JAM family, or to the unrecognized row.
pub open spec fn spec_decode(opcode: u8) -> Decoded {
    match opcode {
        0x69 => Decoded::Instr(Op::Adc, Mode::Immediate, 2),
        0x65 => Decoded::Instr(Op::Adc, Mode::ZeroPage, 3),
        0x75 => Decoded::Instr(Op::Adc, Mode::ZeroPageX, 4),
        0x6d => Decoded::Instr(Op::Adc, Mode::Absolute, 4),
        0x7d => Decoded::Instr(Op::Adc, Mode::AbsoluteX(true), 4),
        0x79 => Decoded::Instr(Op::Adc, Mode::AbsoluteY(true), 4),
        0x61 => Decoded::Instr(Op::Adc, Mode::IndirectX, 6),
        0x71 => Decoded::Instr(Op::Adc, Mode::IndirectY(true), 5),
        0x29 => Decoded::Instr(Op::And, Mode::Immediate, 2),
        0x25 => Decoded::Instr(Op::And, Mode::ZeroPage, 3),
        0x35 => Decoded::Instr(Op::And, Mode::ZeroPageX, 4),
        0x2d => Decoded::Instr(Op::And, Mode::Absolute, 4),
        0x3d => Decoded::Instr(Op::And, Mode::AbsoluteX(true), 4),
        0x39 => Decoded::Instr(Op::And, Mode::AbsoluteY(true), 4),
        0x21 => Decoded::Instr(Op::And, Mode::IndirectX, 6),
        0x31 => Decoded::Instr(Op::And, Mode::IndirectY(true), 5),
        0x0a => Decoded::Instr(Op::Asl, Mode::Accumulator, 2),
        0x06 => Decoded::Instr(Op::Asl, Mode::ZeroPage, 5),
        0x16 => Decoded::Instr(Op::Asl, Mode::ZeroPageX, 6),
        0x0e => Decoded::Instr(Op::Asl, Mode::Absolute, 6),
        0x1e => Decoded::Instr(Op::Asl, Mode::AbsoluteX(false), 7),
        0x24 => Decoded::Instr(Op::Bit, Mode::ZeroPage, 3),
        0x2c => Decoded::Instr(Op::Bit, Mode::Absolute, 4),
        0x10 => Decoded::Instr(Op::Bpl, Mode::Implied, 2),
        0x30 => Decoded::Instr(Op::Bmi, Mode::Implied, 2),
        0x50 => Decoded::Instr(Op::Bvc, Mode::Implied, 2),
        0x70 => Decoded::Instr(Op::Bvs, Mode::Implied, 2),
        0x90 => Decoded::Instr(Op::Bcc, Mode::Implied, 2),
        0xb0 => Decoded::Instr(Op::Bcs, Mode::Implied, 2),
        0xd0 => Decoded::Instr(Op::Bne, Mode::Implied, 2),
        0xf0 => Decoded::Instr(Op::Beq, Mode::Implied, 2),
        0x00 => Decoded::Instr(Op::Brk, Mode::Implied, 7),
        0x18 => Decoded::Instr(Op::Clc, Mode::Implied, 2),
        0xd8 => Decoded::Instr(Op::Cld, Mode::Implied, 2),
        0x58 => Decoded::Instr(Op::Cli, Mode::Implied, 2),
        0xb8 => Decoded::Instr(Op::Clv, Mode::Implied, 2),
        0xc9 => Decoded::Instr(Op::Cmp, Mode::Immediate, 2),
        0xc5 => Decoded::Instr(Op::Cmp, Mode::ZeroPage, 3),
        0xd5 => Decoded::Instr(Op::Cmp, Mode::ZeroPageX, 4),
        0xcd => Decoded::Instr(Op::Cmp, Mode::Absolute, 4),
        0xdd => Decoded::Instr(Op::Cmp, Mode::AbsoluteX(true), 4),
        0xd9 => Decoded::Instr(Op::Cmp, Mode::AbsoluteY(true), 4),
        0xc1 => Decoded::Instr(Op::Cmp, Mode::IndirectX, 6),
        0xd1 => Decoded::Instr(Op::Cmp, Mode::IndirectY(true), 5),
        0xe0 => Decoded::Instr(Op::Cpx, Mode::Immediate, 2),
        0xe4 => Decoded::Instr(Op::Cpx, Mode::ZeroPage, 3),
        0xec => Decoded::Instr(Op::Cpx, Mode::Absolute, 4),
        0xc0 => Decoded::Instr(Op::Cpy, Mode::Immediate, 2),
        0xc4 => Decoded::Instr(Op::Cpy, Mode::ZeroPage, 3),
        0xcc => Decoded::Instr(Op::Cpy, Mode::Absolute, 4),
        0xc6 => Decoded::Instr(Op::Dec, Mode::ZeroPage, 5),
        0xd6 => Decoded::Instr(Op::Dec, Mode::ZeroPageX, 6),
        0xce => Decoded::Instr(Op::Dec, Mode::Absolute, 6),
        0xde => Decoded::Instr(Op::Dec, Mode::AbsoluteX(false), 7),
        0xca => Decoded::Instr(Op::Dex, Mode::Implied, 2),
        0x88 => Decoded::Instr(Op::Dey, Mode::Implied, 2),
        0x49 => Decoded::Instr(Op::Eor, Mode::Immediate, 2),
        0x45 => Decoded::Instr(Op::Eor, Mode::ZeroPage, 3),
        0x55 => Decoded::Instr(Op::Eor, Mode::ZeroPageX, 4),
        0x4d => Decoded::Instr(Op::Eor, Mode::Absolute, 4),
        0x5d => Decoded::Instr(Op::Eor, Mode::AbsoluteX(true), 4),
        0x59 => Decoded::Instr(Op::Eor, Mode::AbsoluteY(true), 4),
        0x41 => Decoded::Instr(Op::Eor, Mode::IndirectX, 4),
        0x51 => Decoded::Instr(Op::Eor, Mode::IndirectY(true), 4),
        0x02 | 0x12 | 0x22 | 0x32 | 0x42 | 0x52 | 0x62 | 0x72 | 0x92 | 0xb2 | 0xd2 | 0xf2 => Decoded::Jam,
        0xe6 => Decoded::Instr(Op::Inc, Mode::ZeroPage, 5),
        0xf6 => Decoded::Instr(Op::Inc, Mode::ZeroPageX, 6),
        0xee => Decoded::Instr(Op::Inc, Mode::Absolute, 6),
        0xfe => Decoded::Instr(Op::Inc, Mode::AbsoluteX(false), 7),
        0xe8 => Decoded::Instr(Op::Inx, Mode::Implied, 2),
        0xc8 => Decoded::Instr(Op::Iny, Mode::Implied, 2),
        0x4c => Decoded::Instr(Op::Jmp, Mode::Absolute, 3),
        0x6c => Decoded::Instr(Op::Jmp, Mode::Indirect, 5),
        0x20 => Decoded::Instr(Op::Jsr, Mode::Absolute, 6),
        0xa9 => Decoded::Instr(Op::Lda, Mode::Immediate, 2),
        0xa5 => Decoded::Instr(Op::Lda, Mode::ZeroPage, 3),
        0xb5 => Decoded::Instr(Op::Lda, Mode::ZeroPageX, 4),
        0xad => Decoded::Instr(Op::Lda, Mode::Absolute, 4),
        0xbd => Decoded::Instr(Op::Lda, Mode::AbsoluteX(true), 4),
        0xb9 => Decoded::Instr(Op::Lda, Mode::AbsoluteY(true), 4),
        0xa1 => Decoded::Instr(Op::Lda, Mode::IndirectX, 6),
        0xb1 => Decoded::Instr(Op::Lda, Mode::IndirectY(true), 5),
        0xa2 => Decoded::Instr(Op::Ldx, Mode::Immediate, 2),
        0xa6 => Decoded::Instr(Op::Ldx, Mode::ZeroPage, 3),
        0xb6 => Decoded::Instr(Op::Ldx, Mode::ZeroPageY, 4),
        0xae => Decoded::Instr(Op::Ldx, Mode::Absolute, 4),
        0xbe => Decoded::Instr(Op::Ldx, Mode::AbsoluteY(true), 4),
        0xa0 => Decoded::Instr(Op::Ldy, Mode::Immediate, 2),
        0xa4 => Decoded::Instr(Op::Ldy, Mode::ZeroPage, 3),
        0xb4 => Decoded::Instr(Op::Ldy, Mode::ZeroPageX, 4),
        0xac => Decoded::Instr(Op::Ldy, Mode::Absolute, 4),
        0xbc => Decoded::Instr(Op::Ldy, Mode::AbsoluteX(true), 4),
        0x4a => Decoded::Instr(Op::Lsr, Mode::Accumulator, 2),
        0x46 => Decoded::Instr(Op::Lsr, Mode::ZeroPage, 5),
        0x56 => Decoded::Instr(Op::Lsr, Mode::ZeroPageX, 6),
        0x4e => Decoded::Instr(Op::Lsr, Mode::Absolute, 6),
        0x5e => Decoded::Instr(Op::Lsr, Mode::AbsoluteX(false), 7),
        0x09 => Decoded::Instr(Op::Ora, Mode::Immediate, 2),
        0x05 => Decoded::Instr(Op::Ora, Mode::ZeroPage, 3),
        0x15 => Decoded::Instr(Op::Ora, Mode::ZeroPageX, 4),
        0x0d => Decoded::Instr(Op::Ora, Mode::Absolute, 4),
        0x1d => Decoded::Instr(Op::Ora, Mode::AbsoluteX(true), 4),
        0x19 => Decoded::Instr(Op::Ora, Mode::AbsoluteY(true), 4),
        0x01 => Decoded::Instr(Op::Ora, Mode::IndirectX, 4),
        0x11 => Decoded::Instr(Op::Ora, Mode::IndirectY(true), 4),
        0xea => Decoded::Instr(Op::Nop, Mode::Implied, 2),
        0x2a => Decoded::Instr(Op::Rol, Mode::Accumulator, 2),
        0x26 => Decoded::Instr(Op::Rol, Mode::ZeroPage, 5),
        0x36 => Decoded::Instr(Op::Rol, Mode::ZeroPageX, 6),
        0x2e => Decoded::Instr(Op::Rol, Mode::Absolute, 6),
        0x3e => Decoded::Instr(Op::Rol, Mode::AbsoluteX(false), 7),
        0x6a => Decoded::Instr(Op::Ror, Mode::Accumulator, 2),
        0x66 => Decoded::Instr(Op::Ror, Mode::ZeroPage, 5),
        0x76 => Decoded::Instr(Op::Ror, Mode::ZeroPageX, 6),
        0x6e => Decoded::Instr(Op::Ror, Mode::Absolute, 6),
        0x7e => Decoded::Instr(Op::Ror, Mode::AbsoluteX(false), 7),
        0x40 => Decoded::Instr(Op::Rti, Mode::Implied, 6),
        0x60 => Decoded::Instr(Op::Rts, Mode::Implied, 6),
        0xe9 => Decoded::Instr(Op::Sbc, Mode::Immediate, 2),
        0xe5 => Decoded::Instr(Op::Sbc, Mode::ZeroPage, 3),
        0xf5 => Decoded::Instr(Op::Sbc, Mode::ZeroPageX, 4),
        0xed => Decoded::Instr(Op::Sbc, Mode::Absolute, 4),
        0xfd => Decoded::Instr(Op::Sbc, Mode::AbsoluteX(true), 4),
        0xf9 => Decoded::Instr(Op::Sbc, Mode::AbsoluteY(true), 4),
        0xe1 => Decoded::Instr(Op::Sbc, Mode::IndirectX, 6),
        0xf1 => Decoded::Instr(Op::Sbc, Mode::IndirectY(true), 5),
        0x9a => Decoded::Instr(Op::Txs, Mode::Implied, 2),
        0xba => Decoded::Instr(Op::Tsx, Mode::Implied, 2),
        0x48 => Decoded::Instr(Op::Pha, Mode::Implied, 3),
        0x68 => Decoded::Instr(Op::Pla, Mode::Implied, 4),
        0x08 => Decoded::Instr(Op::Php, Mode::Implied, 3),
        0x28 => Decoded::Instr(Op::Plp, Mode::Implied, 4),
        0x38 => Decoded::Instr(Op::Sec, Mode::Implied, 2),
        0xf8 => Decoded::Instr(Op::Sed, Mode::Implied, 2),
        0x78 => Decoded::Instr(Op::Sei, Mode::Implied, 2),
        0x85 => Decoded::Instr(Op::Sta, Mode::ZeroPage, 3),
        0x95 => Decoded::Instr(Op::Sta, Mode::ZeroPageX, 4),
        0x8d => Decoded::Instr(Op::Sta, Mode::Absolute, 4),
        0x9d => Decoded::Instr(Op::Sta, Mode::AbsoluteX(false), 5),
        0x99 => Decoded::Instr(Op::Sta, Mode::AbsoluteY(false), 5),
        0x81 => Decoded::Instr(Op::Sta, Mode::IndirectX, 6),
        0x91 => Decoded::Instr(Op::Sta, Mode::IndirectY(false), 6),
        0x86 => Decoded::Instr(Op::Stx, Mode::ZeroPage, 3),
        0x96 => Decoded::Instr(Op::Stx, Mode::ZeroPageY, 4),
        0x8e => Decoded::Instr(Op::Stx, Mode::Absolute, 4),
        0x84 => Decoded::Instr(Op::Sty, Mode::ZeroPage, 3),
        0x94 => Decoded::Instr(Op::Sty, Mode::ZeroPageX, 4),
        0x8c => Decoded::Instr(Op::Sty, Mode::Absolute, 4),
        0xaa => Decoded::Instr(Op::Tax, Mode::Implied, 2),
        0xa8 => Decoded::Instr(Op::Tay, Mode::Implied, 2),
        0x8a => Decoded::Instr(Op::Txa, Mode::Implied, 2),
        0x98 => Decoded::Instr(Op::Tya, Mode::Implied, 2),
        _ => Decoded::Unknown,
    }
}

/// Look up an opcode in the dispatch table.
pub fn decode(opcode: u8) -> (d: Decoded)
    ensures
        d == spec_decode(opcode),
{
    match opcode {
        0x69 => Decoded::Instr(Op::Adc, Mode::Immediate, 2),
        0x65 => Decoded::Instr(Op::Adc, Mode::ZeroPage, 3),
        0x75 => Decoded::Instr(Op::Adc, Mode::ZeroPageX, 4),
        0x6d => Decoded::Instr(Op::Adc, Mode::Absolute, 4),
        0x7d => Decoded::Instr(Op::Adc, Mode::AbsoluteX(true), 4),
        0x79 => Decoded::Instr(Op::Adc, Mode::AbsoluteY(true), 4),
        0x61 => Decoded::Instr(Op::Adc, Mode::IndirectX, 6),
        0x71 => Decoded::Instr(Op::Adc, Mode::IndirectY(true), 5),
        0x29 => Decoded::Instr(Op::And, Mode::Immediate, 2),
        0x25 => Decoded::Instr(Op::And, Mode::ZeroPage, 3),
        0x35 => Decoded::Instr(Op::And, Mode::ZeroPageX, 4),
        0x2d => Decoded::Instr(Op::And, Mode::Absolute, 4),
        0x3d => Decoded::Instr(Op::And, Mode::AbsoluteX(true), 4),
        0x39 => Decoded::Instr(Op::And, Mode::AbsoluteY(true), 4),
        0x21 => Decoded::Instr(Op::And, Mode::IndirectX, 6),
        0x31 => Decoded::Instr(Op::And, Mode::IndirectY(true), 5),
        0x0a => Decoded::Instr(Op::Asl, Mode::Accumulator, 2),
        0x06 => Decoded::Instr(Op::Asl, Mode::ZeroPage, 5),
        0x16 => Decoded::Instr(Op::Asl, Mode::ZeroPageX, 6),
        0x0e => Decoded::Instr(Op::Asl, Mode::Absolute, 6),
        0x1e => Decoded::Instr(Op::Asl, Mode::AbsoluteX(false), 7),
        0x24 => Decoded::Instr(Op::Bit, Mode::ZeroPage, 3),
        0x2c => Decoded::Instr(Op::Bit, Mode::Absolute, 4),
        0x10 => Decoded::Instr(Op::Bpl, Mode::Implied, 2),
        0x30 => Decoded::Instr(Op::Bmi, Mode::Implied, 2),
        0x50 => Decoded::Instr(Op::Bvc, Mode::Implied, 2),
        0x70 => Decoded::Instr(Op::Bvs, Mode::Implied, 2),
        0x90 => Decoded::Instr(Op::Bcc, Mode::Implied, 2),
        0xb0 => Decoded::Instr(Op::Bcs, Mode::Implied, 2),
        0xd0 => Decoded::Instr(Op::Bne, Mode::Implied, 2),
        0xf0 => Decoded::Instr(Op::Beq, Mode::Implied, 2),
        0x00 => Decoded::Instr(Op::Brk, Mode::Implied, 7),
        0x18 => Decoded::Instr(Op::Clc, Mode::Implied, 2),
        0xd8 => Decoded::Instr(Op::Cld, Mode::Implied, 2),
        0x58 => Decoded::Instr(Op::Cli, Mode::Implied, 2),
        0xb8 => Decoded::Instr(Op::Clv, Mode::Implied, 2),
        0xc9 => Decoded::Instr(Op::Cmp, Mode::Immediate, 2),
        0xc5 => Decoded::Instr(Op::Cmp, Mode::ZeroPage, 3),
        0xd5 => Decoded::Instr(Op::Cmp, Mode::ZeroPageX, 4),
        0xcd => Decoded::Instr(Op::Cmp, Mode::Absolute, 4),
        0xdd => Decoded::Instr(Op::Cmp, Mode::AbsoluteX(true), 4),
        0xd9 => Decoded::Instr(Op::Cmp, Mode::AbsoluteY(true), 4),
        0xc1 => Decoded::Instr(Op::Cmp, Mode::IndirectX, 6),
        0xd1 => Decoded::Instr(Op::Cmp, Mode::IndirectY(true), 5),
        0xe0 => Decoded::Instr(Op::Cpx, Mode::Immediate, 2),
        0xe4 => Decoded::Instr(Op::Cpx, Mode::ZeroPage, 3),
        0xec => Decoded::Instr(Op::Cpx, Mode::Absolute, 4),
        0xc0 => Decoded::Instr(Op::Cpy, Mode::Immediate, 2),
        0xc4 => Decoded::Instr(Op::Cpy, Mode::ZeroPage, 3),
        0xcc => Decoded::Instr(Op::Cpy, Mode::Absolute, 4),
        0xc6 => Decoded::Instr(Op::Dec, Mode::ZeroPage, 5),
        0xd6 => Decoded::Instr(Op::Dec, Mode::ZeroPageX, 6),
        0xce => Decoded::Instr(Op::Dec, Mode::Absolute, 6),
        0xde => Decoded::Instr(Op::Dec, Mode::AbsoluteX(false), 7),
        0xca => Decoded::Instr(Op::Dex, Mode::Implied, 2),
        0x88 => Decoded::Instr(Op::Dey, Mode::Implied, 2),
        0x49 => Decoded::Instr(Op::Eor, Mode::Immediate, 2),
        0x45 => Decoded::Instr(Op::Eor, Mode::ZeroPage, 3),
        0x55 => Decoded::Instr(Op::Eor, Mode::ZeroPageX, 4),
        0x4d => Decoded::Instr(Op::Eor, Mode::Absolute, 4),
        0x5d => Decoded::Instr(Op::Eor, Mode::AbsoluteX(true), 4),
        0x59 => Decoded::Instr(Op::Eor, Mode::AbsoluteY(true), 4),
        0x41 => Decoded::Instr(Op::Eor, Mode::IndirectX, 4),
        0x51 => Decoded::Instr(Op::Eor, Mode::IndirectY(true), 4),
        0x02 | 0x12 | 0x22 | 0x32 | 0x42 | 0x52 | 0x62 | 0x72 | 0x92 | 0xb2 | 0xd2 | 0xf2 => Decoded::Jam,
        0xe6 => Decoded::Instr(Op::Inc, Mode::ZeroPage, 5),
        0xf6 => Decoded::Instr(Op::Inc, Mode::ZeroPageX, 6),
        0xee => Decoded::Instr(Op::Inc, Mode::Absolute, 6),
        0xfe => Decoded::Instr(Op::Inc, Mode::AbsoluteX(false), 7),
        0xe8 => Decoded::Instr(Op::Inx, Mode::Implied, 2),
        0xc8 => Decoded::Instr(Op::Iny, Mode::Implied, 2),
        0x4c => Decoded::Instr(Op::Jmp, Mode::Absolute, 3),
        0x6c => Decoded::Instr(Op::Jmp, Mode::Indirect, 5),
        0x20 => Decoded::Instr(Op::Jsr, Mode::Absolute, 6),
        0xa9 => Decoded::Instr(Op::Lda, Mode::Immediate, 2),
        0xa5 => Decoded::Instr(Op::Lda, Mode::ZeroPage, 3),
        0xb5 => Decoded::Instr(Op::Lda, Mode::ZeroPageX, 4),
        0xad => Decoded::Instr(Op::Lda, Mode::Absolute, 4),
        0xbd => Decoded::Instr(Op::Lda, Mode::AbsoluteX(true), 4),
        0xb9 => Decoded::Instr(Op::Lda, Mode::AbsoluteY(true), 4),
        0xa1 => Decoded::Instr(Op::Lda, Mode::IndirectX, 6),
        0xb1 => Decoded::Instr(Op::Lda, Mode::IndirectY(true), 5),
        0xa2 => Decoded::Instr(Op::Ldx, Mode::Immediate, 2),
        0xa6 => Decoded::Instr(Op::Ldx, Mode::ZeroPage, 3),
        0xb6 => Decoded::Instr(Op::Ldx, Mode::ZeroPageY, 4),
        0xae => Decoded::Instr(Op::Ldx, Mode::Absolute, 4),
        0xbe => Decoded::Instr(Op::Ldx, Mode::AbsoluteY(true), 4),
        0xa0 => Decoded::Instr(Op::Ldy, Mode::Immediate, 2),
        0xa4 => Decoded::Instr(Op::Ldy, Mode::ZeroPage, 3),
        0xb4 => Decoded::Instr(Op::Ldy, Mode::ZeroPageX, 4),
        0xac => Decoded::Instr(Op::Ldy, Mode::Absolute, 4),
        0xbc => Decoded::Instr(Op::Ldy, Mode::AbsoluteX(true), 4),
        0x4a => Decoded::Instr(Op::Lsr, Mode::Accumulator, 2),
        0x46 => Decoded::Instr(Op::Lsr, Mode::ZeroPage, 5),
        0x56 => Decoded::Instr(Op::Lsr, Mode::ZeroPageX, 6),
        0x4e => Decoded::Instr(Op::Lsr, Mode::Absolute, 6),
        0x5e => Decoded::Instr(Op::Lsr, Mode::AbsoluteX(false), 7),
        0x09 => Decoded::Instr(Op::Ora, Mode::Immediate, 2),
        0x05 => Decoded::Instr(Op::Ora, Mode::ZeroPage, 3),
        0x15 => Decoded::Instr(Op::Ora, Mode::ZeroPageX, 4),
        0x0d => Decoded::Instr(Op::Ora, Mode::Absolute, 4),
        0x1d => Decoded::Instr(Op::Ora, Mode::AbsoluteX(true), 4),
        0x19 => Decoded::Instr(Op::Ora, Mode::AbsoluteY(true), 4),
        0x01 => Decoded::Instr(Op::Ora, Mode::IndirectX, 4),
        0x11 => Decoded::Instr(Op::Ora, Mode::IndirectY(true), 4),
        0xea => Decoded::Instr(Op::Nop, Mode::Implied, 2),
        0x2a => Decoded::Instr(Op::Rol, Mode::Accumulator, 2),
        0x26 => Decoded::Instr(Op::Rol, Mode::ZeroPage, 5),
        0x36 => Decoded::Instr(Op::Rol, Mode::ZeroPageX, 6),
        0x2e => Decoded::Instr(Op::Rol, Mode::Absolute, 6),
        0x3e => Decoded::Instr(Op::Rol, Mode::AbsoluteX(false), 7),
        0x6a => Decoded::Instr(Op::Ror, Mode::Accumulator, 2),
        0x66 => Decoded::Instr(Op::Ror, Mode::ZeroPage, 5),
        0x76 => Decoded::Instr(Op::Ror, Mode::ZeroPageX, 6),
        0x6e => Decoded::Instr(Op::Ror, Mode::Absolute, 6),
        0x7e => Decoded::Instr(Op::Ror, Mode::AbsoluteX(false), 7),
        0x40 => Decoded::Instr(Op::Rti, Mode::Implied, 6),
        0x60 => Decoded::Instr(Op::Rts, Mode::Implied, 6),
        0xe9 => Decoded::Instr(Op::Sbc, Mode::Immediate, 2),
        0xe5 => Decoded::Instr(Op::Sbc, Mode::ZeroPage, 3),
        0xf5 => Decoded::Instr(Op::Sbc, Mode::ZeroPageX, 4),
        0xed => Decoded::Instr(Op::Sbc, Mode::Absolute, 4),
        0xfd => Decoded::Instr(Op::Sbc, Mode::AbsoluteX(true), 4),
        0xf9 => Decoded::Instr(Op::Sbc, Mode::AbsoluteY(true), 4),
        0xe1 => Decoded::Instr(Op::Sbc, Mode::IndirectX, 6),
        0xf1 => Decoded::Instr(Op::Sbc, Mode::IndirectY(true), 5),
        0x9a => Decoded::Instr(Op::Txs, Mode::Implied, 2),
        0xba => Decoded::Instr(Op::Tsx, Mode::Implied, 2),
        0x48 => Decoded::Instr(Op::Pha, Mode::Implied, 3),
        0x68 => Decoded::Instr(Op::Pla, Mode::Implied, 4),
        0x08 => Decoded::Instr(Op::Php, Mode::Implied, 3),
        0x28 => Decoded::Instr(Op::Plp, Mode::Implied, 4),
        0x38 => Decoded::Instr(Op::Sec, Mode::Implied, 2),
        0xf8 => Decoded::Instr(Op::Sed, Mode::Implied, 2),
        0x78 => Decoded::Instr(Op::Sei, Mode::Implied, 2),
        0x85 => Decoded::Instr(Op::Sta, Mode::ZeroPage, 3),
        0x95 => Decoded::Instr(Op::Sta, Mode::ZeroPageX, 4),
        0x8d => Decoded::Instr(Op::Sta, Mode::Absolute, 4),
        0x9d => Decoded::Instr(Op::Sta, Mode::AbsoluteX(false), 5),
        0x99 => Decoded::Instr(Op::Sta, Mode::AbsoluteY(false), 5),
        0x81 => Decoded::Instr(Op::Sta, Mode::IndirectX, 6),
        0x91 => Decoded::Instr(Op::Sta, Mode::IndirectY(false), 6),
        0x86 => Decoded::Instr(Op::Stx, Mode::ZeroPage, 3),
        0x96 => Decoded::Instr(Op::Stx, Mode::ZeroPageY, 4),
        0x8e => Decoded::Instr(Op::Stx, Mode::Absolute, 4),
        0x84 => Decoded::Instr(Op::Sty, Mode::ZeroPage, 3),
        0x94 => Decoded::Instr(Op::Sty, Mode::ZeroPageX, 4),
        0x8c => Decoded::Instr(Op::Sty, Mode::Absolute, 4),
        0xaa => Decoded::Instr(Op::Tax, Mode::Implied, 2),
        0xa8 => Decoded::Instr(Op::Tay, Mode::Implied, 2),
        0x8a => Decoded::Instr(Op::Txa, Mode::Implied, 2),
        0x98 => Decoded::Instr(Op::Tya, Mode::Implied, 2),
        _ => Decoded::Unknown,
    }
}

/// The effective address carried by a mode result; addressed operations are
/// only ever paired with addressed modes.
pub open spec fn ea_of(addr: Option<u16>) -> u16 {
    match addr {
        Some(v) => v,
        None => 0,
    }
}

/// Effective-address computation for one addressing mode: the operand bytes
/// are fetched, the PC advances past them, and the indexed modes may charge
/// the page-cross cycle.
pub open spec fn spec_ea(mode: Mode, cpu: CpuStatus, m: Seq<SegView>) -> (Option<u16>, CpuStatus, Seq<SegView>) {
    match mode {
        Mode::Implied => (None, cpu, m),
        Mode::Accumulator => (None, cpu, m),
        Mode::Immediate => (Some(cpu.pc), CpuStatus { pc: cpu.pc.wrapping_add(1), ..cpu }, m),
        Mode::ZeroPage => {
            let (ea, c, mm) = bus::spec_zp(cpu, m);
            (Some(ea), c, mm)
        },
        Mode::ZeroPageX => {
            let (ea, c, mm) = bus::spec_zp_x(cpu, m);
            (Some(ea), c, mm)
        },
        Mode::ZeroPageY => {
            let (ea, c, mm) = bus::spec_zp_y(cpu, m);
            (Some(ea), c, mm)
        },
        Mode::Absolute => {
            let (ea, c, mm) = bus::spec_absolute(cpu, m);
            (Some(ea), c, mm)
        },
        Mode::AbsoluteX(w) => {
            let (ea, c, mm) = bus::spec_absolute_x(cpu, m, w);
            (Some(ea), c, mm)
        },
        Mode::AbsoluteY(w) => {
            let (ea, c, mm) = bus::spec_absolute_y(cpu, m, w);
            (Some(ea), c, mm)
        },
        Mode::Indirect => {
            let (ea, c, mm) = bus::spec_indirect(cpu, m);
            (Some(ea), c, mm)
        },
        Mode::IndirectX => {
            let (ea, c, mm) = bus::spec_indirect_x(cpu, m);
            (Some(ea), c, mm)
        },
        Mode::IndirectY(w) => {
            let (ea, c, mm) = bus::spec_indirect_y(cpu, m, w);
            (Some(ea), c, mm)
        },
    }
}

/// One micro-operation applied after effective-address computation.
pub open spec fn spec_exec_op(operation: Op, cycles: u8, addr: Option<u16>, cpu: CpuStatus, m: Seq<SegView>) -> (CpuStatus, Seq<SegView>) {
    match operation {
        Op::Adc => op::spec_adc(cpu, m, cycles, ea_of(addr)),
        Op::And => op::spec_and(cpu, m, cycles, ea_of(addr)),
        Op::Asl => op::spec_asl(cpu, m, cycles, addr),
        Op::Bit => op::spec_bit(cpu, m, cycles, ea_of(addr)),
        Op::Bpl => op::spec_branch(cpu, m, !negative_of(cpu.sr)),
        Op::Bmi => op::spec_branch(cpu, m, negative_of(cpu.sr)),
        Op::Bvc => op::spec_branch(cpu, m, !overflow_of(cpu.sr)),
        Op::Bvs => op::spec_branch(cpu, m, overflow_of(cpu.sr)),
        Op::Bcc => op::spec_branch(cpu, m, !carry_of(cpu.sr)),
        Op::Bcs => op::spec_branch(cpu, m, carry_of(cpu.sr)),
        Op::Bne => op::spec_branch(cpu, m, !zero_of(cpu.sr)),
        Op::Beq => op::spec_branch(cpu, m, zero_of(cpu.sr)),
        Op::Brk => op::spec_brk(cpu, m, cycles),
        Op::Clc => (
            CpuStatus { sr: with_carry(cpu.sr, false), cycles_used: cpu.cycles_used.wrapping_add(cycles), ..cpu },
            m,
        ),
        Op::Cld => (
            CpuStatus { sr: with_decimal(cpu.sr, false), cycles_used: cpu.cycles_used.wrapping_add(cycles), ..cpu },
            m,
        ),
        Op::Cli => (
            CpuStatus { sr: with_interrupt(cpu.sr, false), cycles_used: cpu.cycles_used.wrapping_add(cycles), ..cpu },
            m,
        ),
        Op::Clv => (
            CpuStatus { sr: with_overflow(cpu.sr, false), cycles_used: cpu.cycles_used.wrapping_add(cycles), ..cpu },
            m,
        ),
        Op::Cmp => op::spec_cmp(cpu, m, cycles, ea_of(addr)),
        Op::Cpx => op::spec_cpx(cpu, m, cycles, ea_of(addr)),
        Op::Cpy => op::spec_cpy(cpu, m, cycles, ea_of(addr)),
        Op::Dec => op::spec_dec(cpu, m, cycles, ea_of(addr)),
        Op::Dex => {
            let x = cpu.x.wrapping_sub(1);
            (CpuStatus { x, sr: op::with_nz(cpu.sr, x), cycles_used: cpu.cycles_used.wrapping_add(cycles), ..cpu }, m)
        },
        Op::Dey => {
            let y = cpu.y.wrapping_sub(1);
            (CpuStatus { y, sr: op::with_nz(cpu.sr, y), cycles_used: cpu.cycles_used.wrapping_add(cycles), ..cpu }, m)
        },
        Op::Eor => op::spec_eor(cpu, m, cycles, ea_of(addr)),
        Op::Inc => op::spec_inc(cpu, m, cycles, ea_of(addr)),
        Op::Inx => {
            let x = cpu.x.wrapping_add(1);
            (CpuStatus { x, sr: op::with_nz(cpu.sr, x), cycles_used: cpu.cycles_used.wrapping_add(cycles), ..cpu }, m)
        },
        Op::Iny => {
            let y = cpu.y.wrapping_add(1);
            (CpuStatus { y, sr: op::with_nz(cpu.sr, y), cycles_used: cpu.cycles_used.wrapping_add(cycles), ..cpu }, m)
        },
        Op::Jmp => (op::spec_jmp(cpu, cycles, ea_of(addr)), m),
        Op::Jsr => op::spec_jsr(cpu, m, cycles, ea_of(addr)),
        Op::Lda => op::spec_lda(cpu, m, cycles, ea_of(addr)),
        Op::Ldx => op::spec_ldx(cpu, m, cycles, ea_of(addr)),
        Op::Ldy => op::spec_ldy(cpu, m, cycles, ea_of(addr)),
        Op::Lsr => op::spec_lsr(cpu, m, cycles, addr),
        Op::Nop => (CpuStatus { cycles_used: cpu.cycles_used.wrapping_add(cycles), ..cpu }, m),
        Op::Ora => op::spec_ora(cpu, m, cycles, ea_of(addr)),
        Op::Pha => {
            let (c1, m1) = bus::spec_push(cpu, m, cpu.a);
            (CpuStatus { cycles_used: cpu.cycles_used.wrapping_add(cycles), ..c1 }, m1)
        },
        Op::Php => {
            let (c1, m1) = bus::spec_push(cpu, m, cpu.sr | 0x30);
            (CpuStatus { cycles_used: cpu.cycles_used.wrapping_add(cycles), ..c1 }, m1)
        },
        Op::Pla => {
            let (v, c1) = bus::spec_pull(cpu, m);
            (CpuStatus { a: v, sr: op::with_nz(cpu.sr, v), cycles_used: cpu.cycles_used.wrapping_add(cycles), ..c1 }, m)
        },
        Op::Plp => {
            let (v, c1) = bus::spec_pull(cpu, m);
            (
                CpuStatus {
                    sr: (cpu.sr & 0x30) | (v & 0xcf),
                    cycles_used: cpu.cycles_used.wrapping_add(cycles),
                    ..c1
                },
                m,
            )
        },
        Op::Rol => op::spec_rol(cpu, m, cycles, addr),
        Op::Ror => op::spec_ror(cpu, m, cycles, addr),
        Op::Rti => (op::spec_rti(cpu, m, cycles), m),
        Op::Rts => (op::spec_rts(cpu, m, cycles), m),
        Op::Sbc => op::spec_sbc(cpu, m, cycles, ea_of(addr)),
        Op::Sec => (
            CpuStatus { sr: with_carry(cpu.sr, true), cycles_used: cpu.cycles_used.wrapping_add(cycles), ..cpu },
            m,
        ),
        Op::Sed => (
            CpuStatus { sr: with_decimal(cpu.sr, true), cycles_used: cpu.cycles_used.wrapping_add(cycles), ..cpu },
            m,
        ),
        Op::Sei => (
            CpuStatus { sr: with_interrupt(cpu.sr, true), cycles_used: cpu.cycles_used.wrapping_add(cycles), ..cpu },
            m,
        ),
        Op::Sta => op::spec_sta(cpu, m, cycles, ea_of(addr)),
        Op::Stx => op::spec_stx(cpu, m, cycles, ea_of(addr)),
        Op::Sty => op::spec_sty(cpu, m, cycles, ea_of(addr)),
        Op::Tax => (op::spec_transfer(cpu, 'a', 'x'), m),
        Op::Tay => (op::spec_transfer(cpu, 'a', 'y'), m),
        Op::Tsx => (op::spec_transfer(cpu, 's', 'x'), m),
        Op::Txa => (op::spec_transfer(cpu, 'x', 'a'), m),
        Op::Txs => (op::spec_transfer(cpu, 'x', 's'), m),
        Op::Tya => (op::spec_transfer(cpu, 'y', 'a'), m),
    }
}

/// The interrupt phase at the top of a step. A raised reset latch wins:
/// the PC loads from the reset vector, I sets, seven cycles accrue, and the
/// latch clears. Then a pending NMI, or a pending IRQ while I is clear,
/// pushes the PC and the status byte (B forced clear, reserved forced set),
/// sets I, enters through its vector, and clears its latch; an NMI clears
/// both latches.
pub open spec fn spec_interrupts(cpu: CpuStatus, m: Seq<SegView>) -> (CpuStatus, Seq<SegView>) {
    let reset_done = if cpu.reset {
        let (vector, mv) = bus::spec_vector(m, 0xfffc);
        (
            CpuStatus {
                pc: vector,
                sr: with_interrupt(cpu.sr, true),
                cycles_used: cpu.cycles_used.wrapping_add(7),
                reset: false,
                ..cpu
            },
            mv,
        )
    } else {
        (cpu, m)
    };
    let c1 = reset_done.0;
    let m1 = reset_done.1;
    if c1.external_nmi {
        let (ca, ma) = bus::spec_push(c1, m1, (c1.pc as int / 256) as u8);
        let (cb, mb) = bus::spec_push(ca, ma, (c1.pc as int % 256) as u8);
        let (cc, mc) = bus::spec_push(cb, mb, with_break(c1.sr, false) | FLAG_R);
        let (vector, md) = bus::spec_vector(mc, 0xfffa);
        (
            CpuStatus {
                pc: vector,
                sr: with_interrupt(c1.sr, true),
                cycles_used: c1.cycles_used.wrapping_add(7),
                external_nmi: false,
                external_irq: false,
                ..cc
            },
            md,
        )
    } else if c1.external_irq && !interrupt_of(c1.sr) {
        let (ca, ma) = bus::spec_push(c1, m1, (c1.pc as int / 256) as u8);
        let (cb, mb) = bus::spec_push(ca, ma, (c1.pc as int % 256) as u8);
        let (cc, mc) = bus::spec_push(cb, mb, with_break(c1.sr, false) | FLAG_R);
        let (vector, md) = bus::spec_vector(mc, 0xfffe);
        (
            CpuStatus {
                pc: vector,
                sr: with_interrupt(c1.sr, true),
                cycles_used: c1.cycles_used.wrapping_add(7),
                external_irq: false,
                ..cc
            },
            md,
        )
    } else {
        (c1, m1)
    }
}

/// One full instruction step: clear the cycle counter, dispatch interrupts,
/// fetch and decode the opcode, compute the effective address, run the
/// micro-operation, and report the cycles consumed — or the opcode that
/// halted execution.
pub open spec fn spec_step(cpu: CpuStatus, m: Seq<SegView>) -> (CpuStatus, Seq<SegView>, Result<u8, CpuError>) {
    let (c1, m1) = spec_interrupts(CpuStatus { cycles_used: 0, ..cpu }, m);
    let opcode = read_val(m1, c1.pc);
    let m2 = read_hooked(m1, c1.pc);
    let c2 = CpuStatus { last_op: opcode, pc: c1.pc.wrapping_add(1), ..c1 };
    match spec_decode(opcode) {
        Decoded::Jam => (c2, m2, Err(CpuError::Jam(opcode))),
        Decoded::Unknown => (c2, m2, Err(CpuError::Unknown(opcode))),
        Decoded::Instr(operation, mode, cycles) => {
            let (addr, c3, m3) = spec_ea(mode, c2, m2);
            let (c4, m4) = spec_exec_op(operation, cycles, addr, c3, m3);
            (c4, m4, Ok(c4.cycles_used))
        },
    }
}

/// Run one decoded micro-operation.
fn run_op(memory: &mut Vec<Segment>, reg: &mut CpuStatus, operation: Op, cycles: u8, addr: Option<u16>)
    requires
        bus_wf(bus_view(*old(memory))),
    ensures
        (*final(reg), bus_view(*final(memory))) == spec_exec_op(
            operation,
            cycles,
            addr,
            *old(reg),
            bus_view(*old(memory)),
        ),
        bus_wf(bus_view(*final(memory))),
{
    let ea: u16 = match addr {
        Some(v) => v,
        None => 0,
    };
    match operation {
        Op::Adc => op::adc(memory, reg, cycles, ea),
        Op::And => op::and(memory, reg, cycles, ea),
        Op::Asl => op::asl(memory, reg, cycles, addr),
        Op::Bit => op::bit(memory, reg, cycles, ea),
        Op::Bpl => {
            let flag = !reg.negative_flag();
            op::branch(memory, reg, flag);
        },
        Op::Bmi => {
            let flag = reg.negative_flag();
            op::branch(memory, reg, flag);
        },
        Op::Bvc => {
            let flag = !reg.overflow_flag();
            op::branch(memory, reg, flag);
        },
        Op::Bvs => {
            let flag = reg.overflow_flag();
            op::branch(memory, reg, flag);
        },
        Op::Bcc => {
            let flag = !reg.carry_flag();
            op::branch(memory, reg, flag);
        },
        Op::Bcs => {
            let flag = reg.carry_flag();
            op::branch(memory, reg, flag);
        },
        Op::Bne => {
            let flag = !reg.zero_flag();
            op::branch(memory, reg, flag);
        },
        Op::Beq => {
            let flag = reg.zero_flag();
            op::branch(memory, reg, flag);
        },
        Op::Brk => op::brk(memory, reg, cycles),
        Op::Clc => {
            reg.set_carry(false);
            reg.cycles_used = reg.cycles_used.wrapping_add(cycles);
        },
        Op::Cld => {
            reg.set_decimal(false);
            reg.cycles_used = reg.cycles_used.wrapping_add(cycles);
        },
        Op::Cli => {
            reg.set_interrupt(false);
            reg.cycles_used = reg.cycles_used.wrapping_add(cycles);
        },
        Op::Clv => {
            reg.set_overflow(false);
            reg.cycles_used = reg.cycles_used.wrapping_add(cycles);
        },
        Op::Cmp => op::cmp(memory, reg, cycles, ea),
        Op::Cpx => op::cpx(memory, reg, cycles, ea),
        Op::Cpy => op::cpy(memory, reg, cycles, ea),
        Op::Dec => op::dec(memory, reg, cycles, ea),
        Op::Dex => {
            reg.x = reg.x.wrapping_sub(1);
            let v = reg.x;
            reg.set_negative(v > 0x7f);
            reg.set_zero(v == 0);
            reg.cycles_used = reg.cycles_used.wrapping_add(cycles);
        },
        Op::Dey => {
            reg.y = reg.y.wrapping_sub(1);
            let v = reg.y;
            reg.set_negative(v > 0x7f);
            reg.set_zero(v == 0);
            reg.cycles_used = reg.cycles_used.wrapping_add(cycles);
        },
        Op::Eor => op::eor(memory, reg, cycles, ea),
        Op::Inc => op::inc(memory, reg, cycles, ea),
        Op::Inx => {
            reg.x = reg.x.wrapping_add(1);
            let v = reg.x;
            reg.set_negative(v > 0x7f);
            reg.set_zero(v == 0);
            reg.cycles_used = reg.cycles_used.wrapping_add(cycles);
        },
        Op::Iny => {
            reg.y = reg.y.wrapping_add(1);
            let v = reg.y;
            reg.set_negative(v > 0x7f);
            reg.set_zero(v == 0);
            reg.cycles_used = reg.cycles_used.wrapping_add(cycles);
        },
        Op::Jmp => op::jmp(reg, cycles, ea),
        Op::Jsr => op::jsr(memory, reg, cycles, ea),
        Op::Lda => op::lda(memory, reg, cycles, ea),
        Op::Ldx => op::ldx(memory, reg, cycles, ea),
        Op::Ldy => op::ldy(memory, reg, cycles, ea),
        Op::Lsr => op::lsr(memory, reg, cycles, addr),
        Op::Nop => {
            reg.cycles_used = reg.cycles_used.wrapping_add(cycles);
        },
        Op::Ora => op::ora(memory, reg, cycles, ea),
        Op::Pha => {
            let v = reg.a;
            bus::push_stack(memory, reg, v);
            reg.cycles_used = reg.cycles_used.wrapping_add(cycles);
        },
        Op::Php => {
            let v = reg.sr | 0x30;
            bus::push_stack(memory, reg, v);
            reg.cycles_used = reg.cycles_used.wrapping_add(cycles);
        },
        Op::Pla => {
            let v = bus::pull_stack(memory, reg);
            reg.a = v;
            reg.set_negative(v > 0x7f);
            reg.set_zero(v == 0);
            reg.cycles_used = reg.cycles_used.wrapping_add(cycles);
        },
        Op::Plp => {
            let v = bus::pull_stack(memory, reg);
            reg.sr = (reg.sr & 0x30) | (v & 0xcf);
            reg.cycles_used = reg.cycles_used.wrapping_add(cycles);
        },
        Op::Rol => op::rol(memory, reg, cycles, addr),
        Op::Ror => op::ror(memory, reg, cycles, addr),
        Op::Rti => op::rti(memory, reg, cycles),
        Op::Rts => op::rts(memory, reg, cycles),
        Op::Sbc => op::sbc(memory, reg, cycles, ea),
        Op::Sec => {
            reg.set_carry(true);
            reg.cycles_used = reg.cycles_used.wrapping_add(cycles);
        },
        Op::Sed => {
            reg.set_decimal(true);
            reg.cycles_used = reg.cycles_used.wrapping_add(cycles);
        },
        Op::Sei => {
            reg.set_interrupt(true);
            reg.cycles_used = reg.cycles_used.wrapping_add(cycles);
        },
        Op::Sta => op::sta(memory, reg, cycles, ea),
        Op::Stx => op::stx(memory, reg, cycles, ea),
        Op::Sty => op::sty(memory, reg, cycles, ea),
        Op::Tax => op::transfer(reg, 'a', 'x'),
        Op::Tay => op::transfer(reg, 'a', 'y'),
        Op::Tsx => op::transfer(reg, 's', 'x'),
        Op::Txa => op::transfer(reg, 'x', 'a'),
        Op::Txs => op::transfer(reg, 'x', 's'),
        Op::Tya => op::transfer(reg, 'y', 'a'),
    }
}

impl CpuStatus {
    /// Run one instruction: dispatch any pending reset or interrupt, then
    /// fetch, decode and execute. Returns the cycles the step consumed, or
    /// the offending opcode when execution halts.
    pub fn execute(&mut self, memory: &mut Vec<Segment>) -> (r: Result<u8, CpuError>)
        requires
            bus_wf(bus_view(*old(memory))),
        ensures
            ({
                let (c, m, res) = spec_step(*old(self), bus_view(*old(memory)));
                *final(self) == c && bus_view(*final(memory)) == m && r == res
            }),
            bus_wf(bus_view(*final(memory))),
    {
        self.cycles_used = 0;

        if self.reset {
            let lo = bus::read(memory, 0xfffc);
            let hi = bus::read(memory, 0xfffd);
            self.pc = (hi as u16) * 256 + lo as u16;
            self.set_interrupt(true);
            self.cycles_used = self.cycles_used.wrapping_add(7);
            self.reset = false;
        }

        if self.external_nmi {
            let pc = self.pc;
            let sr = self.sr;
            bus::push_stack(memory, self, (pc / 256) as u8);
            bus::push_stack(memory, self, (pc % 256) as u8);
            bus::push_stack(memory, self, (sr & 0xef) | FLAG_R);
            let lo = bus::read(memory, 0xfffa);
            let hi = bus::read(memory, 0xfffb);
            self.pc = (hi as u16) * 256 + lo as u16;
            self.set_interrupt(true);
            self.cycles_used = self.cycles_used.wrapping_add(7);
            self.external_nmi = false;
            self.external_irq = false;
        } else if self.external_irq && !self.interrupt_flag() {
            let pc = self.pc;
            let sr = self.sr;
            bus::push_stack(memory, self, (pc / 256) as u8);
            bus::push_stack(memory, self, (pc % 256) as u8);
            bus::push_stack(memory, self, (sr & 0xef) | FLAG_R);
            let lo = bus::read(memory, 0xfffe);
            let hi = bus::read(memory, 0xffff);
            self.pc = (hi as u16) * 256 + lo as u16;
            self.set_interrupt(true);
            self.cycles_used = self.cycles_used.wrapping_add(7);
            self.external_irq = false;
        }

        let opcode = bus::read(memory, self.pc);
        self.last_op = opcode;
        self.pc = self.pc.wrapping_add(1);

        match decode(opcode) {
            Decoded::Jam => Err(CpuError::Jam(opcode)),
            Decoded::Unknown => Err(CpuError::Unknown(opcode)),
            Decoded::Instr(operation, mode, cycles) => {
                let addr: Option<u16> = match mode {
                    Mode::Implied => None,
                    Mode::Accumulator => None,
                    Mode::Immediate => {
                        let at = self.pc;
                        self.pc = self.pc.wrapping_add(1);
                        Some(at)
                    },
                    Mode::ZeroPage => Some(bus::zp(memory, self)),
                    Mode::ZeroPageX => Some(bus::zp_x(memory, self)),
                    Mode::ZeroPageY => Some(bus::zp_y(memory, self)),
                    Mode::Absolute => Some(bus::absolute(memory, self)),
                    Mode::AbsoluteX(w) => Some(bus::absolute_x(memory, self, w)),
                    Mode::AbsoluteY(w) => Some(bus::absolute_y(memory, self, w)),
                    Mode::Indirect => Some(bus::indirect(memory, self)),
                    Mode::IndirectX => Some(bus::indirect_x(memory, self)),
                    Mode::IndirectY(w) => Some(bus::indirect_y(memory, self, w)),
                };
                run_op(memory, self, operation, cycles, addr);
                Ok(self.cycles_used)
            },
        }
    }
}

} // verus!
