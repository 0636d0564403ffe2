//! Whole-instruction steps: reset, branches, jumps, interrupts, and the
//! halting opcodes.

use rust65::bus::{self, Segment};
use rust65::cpu::{CpuError, CpuStatus};

fn flat_ram() -> Vec<Segment> {
    vec![Segment::new(vec![0u8; 0x10000], 0, true, true)]
}

fn cpu_running() -> CpuStatus {
    let mut cpu = CpuStatus::new(1_000_000);
    cpu.reset = false;
    cpu
}

#[test]
fn power_on_state() {
    let cpu = CpuStatus::new(1_000_000);
    assert_eq!(cpu.a, 0);
    assert_eq!(cpu.x, 0);
    assert_eq!(cpu.y, 0);
    assert_eq!(cpu.sp, 0);
    assert_eq!(cpu.pc, 0xfffc);
    assert_eq!(cpu.sr, 0b00100100);
    assert!(cpu.reset);
    assert!(cpu.running);
    assert_eq!(cpu.clock_time, 1_000);
    assert_eq!(cpu.last_op, 0);
    assert_eq!(cpu.cycles_used, 0);
}

#[test]
fn reset_then_lda_immediate() {
    let mut mem = flat_ram();
    bus::write(&mut mem, 0x0200, 0xa9);
    bus::write(&mut mem, 0x0201, 0x42);
    bus::write(&mut mem, 0x0202, 0x00);
    bus::write(&mut mem, 0xfffc, 0x00);
    bus::write(&mut mem, 0xfffd, 0x02);
    let mut cpu = CpuStatus::new(1_000_000);
    let cycles = cpu.execute(&mut mem).unwrap();
    assert_eq!(cycles, 9);
    assert_eq!(cpu.pc, 0x0202);
    assert_eq!(cpu.a, 0x42);
    assert_eq!(cpu.sr & 0x80, 0);
    assert_eq!(cpu.sr & 0x02, 0);
}

#[test]
fn reset_sets_interrupt_disable_and_seven_cycles() {
    let mut mem = flat_ram();
    bus::write(&mut mem, 0xfffc, 0x00);
    bus::write(&mut mem, 0xfffd, 0x02);
    bus::write(&mut mem, 0x0200, 0xea);
    let mut cpu = CpuStatus::new(1_000_000);
    cpu.sr = 0b00100000;
    let cycles = cpu.execute(&mut mem).unwrap();
    assert_eq!(cycles, 7 + 2);
    assert!(!cpu.reset);
    assert_ne!(cpu.sr & 0x04, 0);
}

#[test]
fn branch_taken_with_page_cross() {
    let mut mem = flat_ram();
    bus::write(&mut mem, 0x02f0, 0xd0);
    bus::write(&mut mem, 0x02f1, 0x20);
    let mut cpu = cpu_running();
    cpu.sr = 0b00100100;
    cpu.pc = 0x02f0;
    let cycles = cpu.execute(&mut mem).unwrap();
    assert_eq!(cpu.pc, 0x0312);
    assert_eq!(cycles, 4);
}

#[test]
fn branch_taken_same_page() {
    let mut mem = flat_ram();
    bus::write(&mut mem, 0x0200, 0xd0);
    bus::write(&mut mem, 0x0201, 0x10);
    let mut cpu = cpu_running();
    cpu.sr = 0b00100100;
    cpu.pc = 0x0200;
    let cycles = cpu.execute(&mut mem).unwrap();
    assert_eq!(cpu.pc, 0x0212);
    assert_eq!(cycles, 3);
}

#[test]
fn branch_not_taken() {
    let mut mem = flat_ram();
    bus::write(&mut mem, 0x0200, 0xf0);
    bus::write(&mut mem, 0x0201, 0x10);
    let mut cpu = cpu_running();
    cpu.sr = 0b00100100;
    cpu.pc = 0x0200;
    let cycles = cpu.execute(&mut mem).unwrap();
    assert_eq!(cpu.pc, 0x0202);
    assert_eq!(cycles, 2);
}

#[test]
fn branch_backwards_negative_offset() {
    let mut mem = flat_ram();
    bus::write(&mut mem, 0x0210, 0xd0);
    bus::write(&mut mem, 0x0211, 0xfb);
    let mut cpu = cpu_running();
    cpu.sr = 0b00100100;
    cpu.pc = 0x0210;
    cpu.execute(&mut mem).unwrap();
    assert_eq!(cpu.pc, 0x020d);
}

#[test]
fn indirect_jmp_page_boundary_bug() {
    let mut mem = flat_ram();
    bus::write(&mut mem, 0x0200, 0x6c);
    bus::write(&mut mem, 0x0201, 0xff);
    bus::write(&mut mem, 0x0202, 0x30);
    bus::write(&mut mem, 0x30ff, 0x80);
    bus::write(&mut mem, 0x3000, 0x50);
    let mut cpu = cpu_running();
    cpu.pc = 0x0200;
    let cycles = cpu.execute(&mut mem).unwrap();
    assert_eq!(cpu.pc, 0x5080);
    assert_eq!(cycles, 5);
}

#[test]
fn jsr_rts_round_trip() {
    let mut mem = flat_ram();
    bus::write(&mut mem, 0x0200, 0x20);
    bus::write(&mut mem, 0x0201, 0x10);
    bus::write(&mut mem, 0x0202, 0x03);
    bus::write(&mut mem, 0x0310, 0x60);
    let mut cpu = cpu_running();
    cpu.pc = 0x0200;
    cpu.sp = 0xfd;
    cpu.execute(&mut mem).unwrap();
    assert_eq!(cpu.pc, 0x0310);
    assert_eq!(bus::peek(&mem, 0x01fd), 0x02);
    assert_eq!(bus::peek(&mem, 0x01fc), 0x02);
    assert_eq!(cpu.sp, 0xfb);
    cpu.execute(&mut mem).unwrap();
    assert_eq!(cpu.pc, 0x0203);
    assert_eq!(cpu.sp, 0xfd);
}

#[test]
fn bcd_adc_scenario() {
    let mut mem = flat_ram();
    bus::write(&mut mem, 0x0200, 0x69);
    bus::write(&mut mem, 0x0201, 0x27);
    let mut cpu = cpu_running();
    cpu.pc = 0x0200;
    cpu.set_decimal(true);
    cpu.set_carry(false);
    cpu.a = 0x15;
    cpu.execute(&mut mem).unwrap();
    assert_eq!(cpu.a, 0x42);
    assert_eq!(cpu.sr & 0x01, 0);
    assert_eq!(cpu.sr & 0x02, 0);

    let mut cpu2 = cpu_running();
    bus::write(&mut mem, 0x0201, 0x15);
    cpu2.pc = 0x0200;
    cpu2.set_decimal(true);
    cpu2.set_carry(false);
    cpu2.a = 0x89;
    cpu2.execute(&mut mem).unwrap();
    assert_eq!(cpu2.a, 0x04);
    assert_eq!(cpu2.sr & 0x01, 1);
}

#[test]
fn jam_opcode_halts() {
    let mut mem = flat_ram();
    bus::write(&mut mem, 0x0200, 0x02);
    let mut cpu = cpu_running();
    cpu.pc = 0x0200;
    let r = cpu.execute(&mut mem);
    assert_eq!(r, Err(CpuError::Jam(0x02)));
    assert_eq!(cpu.last_op, 0x02);
}

#[test]
fn unknown_opcode_halts() {
    let mut mem = flat_ram();
    bus::write(&mut mem, 0x0200, 0xff);
    let mut cpu = cpu_running();
    cpu.pc = 0x0200;
    let r = cpu.execute(&mut mem);
    assert_eq!(r, Err(CpuError::Unknown(0xff)));
}

#[test]
fn nop_changes_nothing_but_pc() {
    let mut mem = flat_ram();
    bus::write(&mut mem, 0x0200, 0xea);
    let mut cpu = cpu_running();
    cpu.pc = 0x0200;
    cpu.a = 0x12;
    cpu.x = 0x34;
    cpu.y = 0x56;
    cpu.sp = 0x78;
    cpu.sr = 0b10100101;
    let before = cpu;
    let cycles = cpu.execute(&mut mem).unwrap();
    assert_eq!(cycles, 2);
    assert_eq!(cpu.a, before.a);
    assert_eq!(cpu.x, before.x);
    assert_eq!(cpu.y, before.y);
    assert_eq!(cpu.sp, before.sp);
    assert_eq!(cpu.sr, before.sr);
    assert_eq!(cpu.pc, 0x0201);
}

#[test]
fn nmi_dispatch_pushes_state_and_vectors() {
    let mut mem = flat_ram();
    bus::write(&mut mem, 0xfffa, 0x00);
    bus::write(&mut mem, 0xfffb, 0x40);
    bus::write(&mut mem, 0x4000, 0xea);
    let mut cpu = cpu_running();
    cpu.pc = 0x1234;
    cpu.sp = 0xff;
    cpu.sr = 0b10110101;
    cpu.nmi();
    let cycles = cpu.execute(&mut mem).unwrap();
    assert_eq!(cycles, 7 + 2);
    assert_eq!(cpu.pc, 0x4001);
    assert_eq!(bus::peek(&mem, 0x01ff), 0x12);
    assert_eq!(bus::peek(&mem, 0x01fe), 0x34);
    // the pushed status byte has B forced clear and the reserved bit forced set
    assert_eq!(bus::peek(&mem, 0x01fd), 0b10100101 | 0x20);
    assert_ne!(cpu.sr & 0x04, 0);
    assert!(!cpu.external_nmi);
}

#[test]
fn irq_gated_by_interrupt_flag() {
    let mut mem = flat_ram();
    bus::write(&mut mem, 0x0200, 0xea);
    let mut cpu = cpu_running();
    cpu.pc = 0x0200;
    cpu.set_interrupt(true);
    cpu.irq();
    let cycles = cpu.execute(&mut mem).unwrap();
    // no dispatch while I is set; the latch stays asserted
    assert_eq!(cycles, 2);
    assert_eq!(cpu.pc, 0x0201);
    assert!(cpu.external_irq);
}

#[test]
fn irq_dispatch_when_interrupt_clear() {
    let mut mem = flat_ram();
    bus::write(&mut mem, 0xfffe, 0x00);
    bus::write(&mut mem, 0xffff, 0x40);
    bus::write(&mut mem, 0x4000, 0xea);
    let mut cpu = cpu_running();
    cpu.pc = 0x0300;
    cpu.sp = 0xff;
    cpu.set_interrupt(false);
    cpu.irq();
    let cycles = cpu.execute(&mut mem).unwrap();
    assert_eq!(cycles, 9);
    assert_eq!(cpu.pc, 0x4001);
    assert!(!cpu.external_irq);
    assert_ne!(cpu.sr & 0x04, 0);
}

#[test]
fn brk_pushes_and_takes_irq_vector() {
    let mut mem = flat_ram();
    bus::write(&mut mem, 0x0200, 0x00);
    bus::write(&mut mem, 0xfffe, 0x00);
    bus::write(&mut mem, 0xffff, 0x50);
    let mut cpu = cpu_running();
    cpu.pc = 0x0200;
    cpu.sp = 0xff;
    cpu.sr = 0b00100100;
    let cycles = cpu.execute(&mut mem).unwrap();
    assert_eq!(cycles, 7);
    assert_eq!(cpu.pc, 0x5000);
    // the pushed return address is PC + 2 (one padding byte after BRK)
    assert_eq!(bus::peek(&mem, 0x01ff), 0x02);
    assert_eq!(bus::peek(&mem, 0x01fe), 0x02);
    // the pushed status byte carries B and the reserved bit
    assert_eq!(bus::peek(&mem, 0x01fd), 0b00110100);
    // B and I are set in the live register afterwards
    assert_ne!(cpu.sr & 0x10, 0);
    assert_ne!(cpu.sr & 0x04, 0);
}

#[test]
fn rti_restores_status_and_pc() {
    let mut mem = flat_ram();
    bus::write(&mut mem, 0x0200, 0x40);
    let mut cpu = cpu_running();
    cpu.pc = 0x0200;
    cpu.sp = 0xfc;
    cpu.sr = 0b00110100;
    bus::write(&mut mem, 0x01fd, 0b11001111);
    bus::write(&mut mem, 0x01fe, 0x34);
    bus::write(&mut mem, 0x01ff, 0x12);
    let cycles = cpu.execute(&mut mem).unwrap();
    assert_eq!(cycles, 6);
    assert_eq!(cpu.pc, 0x1234);
    // bits 4 and 5 keep their prior values; the rest come from the stack
    assert_eq!(cpu.sr, 0b11111111);
    assert_eq!(cpu.sp, 0xff);
}

#[test]
fn php_plp_restores_status() {
    let mut mem = flat_ram();
    bus::write(&mut mem, 0x0200, 0x08);
    bus::write(&mut mem, 0x0201, 0x28);
    let mut cpu = cpu_running();
    cpu.pc = 0x0200;
    cpu.sp = 0xff;
    cpu.sr = 0b11100011;
    cpu.execute(&mut mem).unwrap();
    assert_eq!(bus::peek(&mem, 0x01ff), 0b11110011);
    cpu.sr = 0b00100000;
    cpu.execute(&mut mem).unwrap();
    // PLP keeps the prior bits 4 and 5 and pulls the rest
    assert_eq!(cpu.sr, 0b11100011);
    assert_eq!(cpu.sp, 0xff);
}

#[test]
fn pha_pla_round_trip_and_stack_bytes() {
    let mut mem = flat_ram();
    bus::write(&mut mem, 0x0200, 0x48);
    bus::write(&mut mem, 0x0201, 0x48);
    bus::write(&mut mem, 0x0202, 0x48);
    bus::write(&mut mem, 0x0203, 0x68);
    bus::write(&mut mem, 0x0204, 0x68);
    bus::write(&mut mem, 0x0205, 0x68);
    let mut cpu = cpu_running();
    cpu.pc = 0x0200;
    cpu.sp = 0xfd;
    cpu.a = 0x7e;
    cpu.execute(&mut mem).unwrap();
    cpu.execute(&mut mem).unwrap();
    cpu.execute(&mut mem).unwrap();
    assert_eq!(cpu.sp, 0xfa);
    assert_eq!(bus::peek(&mem, 0x01fd), 0x7e);
    assert_eq!(bus::peek(&mem, 0x01fc), 0x7e);
    assert_eq!(bus::peek(&mem, 0x01fb), 0x7e);
    cpu.execute(&mut mem).unwrap();
    cpu.execute(&mut mem).unwrap();
    cpu.execute(&mut mem).unwrap();
    assert_eq!(cpu.sp, 0xfd);
    assert_eq!(cpu.a, 0x7e);
}

#[test]
fn stack_pointer_wraps_in_eight_bits() {
    let mut mem = flat_ram();
    let mut cpu = cpu_running();
    cpu.sp = 0x00;
    bus::push_stack(&mut mem, &mut cpu, 0x5a);
    assert_eq!(cpu.sp, 0xff);
    assert_eq!(bus::peek(&mem, 0x0100), 0x5a);
    let back = bus::pull_stack(&mut mem, &mut cpu);
    assert_eq!(back, 0x5a);
    assert_eq!(cpu.sp, 0x00);
}

#[test]
fn rol_nine_times_restores_byte_and_carry() {
    for &start in &[0x01u8, 0x80, 0xa5, 0x00, 0xff] {
        let mut mem = flat_ram();
        for i in 0..9u16 {
            bus::write(&mut mem, 0x0200 + i, 0x2a);
        }
        let mut cpu = cpu_running();
        cpu.pc = 0x0200;
        cpu.a = start;
        cpu.set_carry(false);
        for _ in 0..9 {
            cpu.execute(&mut mem).unwrap();
        }
        assert_eq!(cpu.a, start);
        assert_eq!(cpu.sr & 0x01, 0);
    }
}

#[test]
fn rol_eight_times_shifts_nonzero_byte() {
    // eight rotations through the nine-bit carry loop do not restore a
    // nonzero byte: 0x01 ends as 0x00 with the carry holding its last bit
    let mut mem = flat_ram();
    for i in 0..8u16 {
        bus::write(&mut mem, 0x0200 + i, 0x2a);
    }
    let mut cpu = cpu_running();
    cpu.pc = 0x0200;
    cpu.a = 0x01;
    cpu.set_carry(false);
    for _ in 0..8 {
        cpu.execute(&mut mem).unwrap();
    }
    assert_eq!(cpu.a, 0x00);
    assert_eq!(cpu.sr & 0x01, 1);
}
