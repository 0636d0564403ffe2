//! The micro-operations, the addressing modes, the segmented bus with its
//! peripheral hooks, and the flat memory image.

use rust65::bus::{self, Segment};
use rust65::cpu::CpuStatus;
use rust65::mem;
use rust65::op;

fn flat_ram() -> Vec<Segment> {
    vec![Segment::new(vec![0u8; 0x10000], 0, true, true)]
}

fn cpu_running() -> CpuStatus {
    let mut cpu = CpuStatus::new(1_000_000);
    cpu.reset = false;
    cpu
}

#[test]
fn segment_new_sets_bounds_and_enables() {
    let s = Segment::new(vec![0u8; 0x2000], 0xe000, false, true);
    assert_eq!(s.start_addr, 0xe000);
    assert_eq!(s.end_addr, 0x10000);
    assert!(s.read_enabled);
    assert!(!s.write_enabled);
}

#[test]
fn unmapped_read_returns_floating_byte() {
    let mut mem = vec![Segment::new(vec![0u8; 0x100], 0, true, true)];
    assert_eq!(bus::read(&mut mem, 0x5000), 0xaa);
}

#[test]
fn earlier_segment_wins_and_enables_gate_access() {
    let mut mem = vec![
        Segment::new(vec![0u8; 4], 0xd010, false, true),
        Segment::new(vec![0u8; 4], 0xd010, true, false),
    ];
    // a write lands in the write-enabled overlay, not the read-only one
    bus::write(&mut mem, 0xd011, 0x7b);
    assert_eq!(bus::peek(&mem, 0xd011), 0x00);
    assert_eq!(bus::peek_output(&mem, 0xd011), 0x7b);
}

#[test]
fn write_to_read_only_segment_is_discarded() {
    let mut mem = vec![Segment::new(vec![0u8; 0x100], 0, false, true)];
    bus::write(&mut mem, 0x0010, 0x99);
    assert_eq!(bus::peek(&mem, 0x0010), 0x00);
}

#[test]
fn keyboard_read_hook_acknowledges_key() {
    let mut mem = vec![Segment::new(vec![0u8; 4], 0xd010, false, true)];
    bus::poke_register(&mut mem, 0xd010, 0xc1);
    bus::poke_register(&mut mem, 0xd011, 0x80);
    let key = bus::read(&mut mem, 0xd010);
    assert_eq!(key, 0xc1);
    // reading KBD clears bit 7 of KBDCR
    assert_eq!(bus::peek(&mem, 0xd011), 0x00);
}

#[test]
fn display_write_hook_raises_pending_bit() {
    let mut mem = vec![
        Segment::new(vec![0u8; 4], 0xd010, false, true),
        Segment::new(vec![0u8; 4], 0xd010, true, false),
    ];
    bus::write(&mut mem, 0xd012, 0xc1);
    assert_eq!(bus::peek_output(&mem, 0xd012), 0xc1);
    // writing DSP raises bit 7 of DSPCR on the read side
    assert_eq!(bus::peek(&mem, 0xd013), 0x80);
}

#[test]
fn zero_page_and_absolute_fetch_operands() {
    let mut mem = flat_ram();
    bus::write(&mut mem, 0x0200, 0x44);
    bus::write(&mut mem, 0x0201, 0x34);
    bus::write(&mut mem, 0x0202, 0x12);
    let mut cpu = cpu_running();
    cpu.pc = 0x0200;
    let ea = bus::zp(&mut mem, &mut cpu);
    assert_eq!(ea, 0x0044);
    assert_eq!(cpu.pc, 0x0201);
    let ea2 = bus::absolute(&mut mem, &mut cpu);
    assert_eq!(ea2, 0x1234);
    assert_eq!(cpu.pc, 0x0203);
}

#[test]
fn peek_output_misses_float_too() {
    let mem = vec![Segment::new(vec![0u8; 0x100], 0, true, true)];
    assert_eq!(bus::peek_output(&mem, 0x5000), 0xaa);
}

#[test]
fn zero_page_indexed_wraps_in_zero_page() {
    let mut mem = flat_ram();
    bus::write(&mut mem, 0x0200, 0xf0);
    let mut cpu = cpu_running();
    cpu.pc = 0x0200;
    cpu.x = 0x20;
    let ea = bus::zp_x(&mut mem, &mut cpu);
    assert_eq!(ea, 0x0010);
    assert_eq!(cpu.pc, 0x0201);
}

#[test]
fn zero_page_y_indexed_wraps() {
    let mut mem = flat_ram();
    bus::write(&mut mem, 0x0200, 0xff);
    let mut cpu = cpu_running();
    cpu.pc = 0x0200;
    cpu.y = 0x02;
    let ea = bus::zp_y(&mut mem, &mut cpu);
    assert_eq!(ea, 0x0001);
}

#[test]
fn absolute_x_pays_cycle_on_page_cross_only() {
    let mut mem = flat_ram();
    bus::write(&mut mem, 0x0200, 0xf0);
    bus::write(&mut mem, 0x0201, 0x20);
    let mut cpu = cpu_running();
    cpu.pc = 0x0200;
    cpu.x = 0x20;
    cpu.cycles_used = 0;
    let ea = bus::absolute_x(&mut mem, &mut cpu, true);
    assert_eq!(ea, 0x2110);
    assert_eq!(cpu.cycles_used, 1);

    let mut cpu2 = cpu_running();
    cpu2.pc = 0x0200;
    cpu2.x = 0x05;
    cpu2.cycles_used = 0;
    let ea2 = bus::absolute_x(&mut mem, &mut cpu2, true);
    assert_eq!(ea2, 0x20f5);
    assert_eq!(cpu2.cycles_used, 0);

    // wrap_check suppressed: the cross costs nothing
    let mut cpu3 = cpu_running();
    cpu3.pc = 0x0200;
    cpu3.x = 0x20;
    cpu3.cycles_used = 0;
    bus::absolute_x(&mut mem, &mut cpu3, false);
    assert_eq!(cpu3.cycles_used, 0);
}

#[test]
fn absolute_y_pays_cycle_on_page_cross_only() {
    let mut mem = flat_ram();
    bus::write(&mut mem, 0x0200, 0xff);
    bus::write(&mut mem, 0x0201, 0xff);
    let mut cpu = cpu_running();
    cpu.pc = 0x0200;
    cpu.y = 0x01;
    cpu.cycles_used = 0;
    // 16-bit wrap: 0xffff + 1 = 0x0000, which is also a page cross
    let ea = bus::absolute_y(&mut mem, &mut cpu, true);
    assert_eq!(ea, 0x0000);
    assert_eq!(cpu.cycles_used, 1);
}

#[test]
fn indirect_x_pointer_wraps_in_zero_page() {
    let mut mem = flat_ram();
    bus::write(&mut mem, 0x0200, 0xfe);
    bus::write(&mut mem, 0x00ff, 0x34);
    bus::write(&mut mem, 0x0000, 0x12);
    let mut cpu = cpu_running();
    cpu.pc = 0x0200;
    cpu.x = 0x01;
    let ea = bus::indirect_x(&mut mem, &mut cpu);
    assert_eq!(ea, 0x1234);
}

#[test]
fn indirect_y_adds_y_and_counts_cross() {
    let mut mem = flat_ram();
    bus::write(&mut mem, 0x0200, 0x40);
    bus::write(&mut mem, 0x0040, 0xf0);
    bus::write(&mut mem, 0x0041, 0x20);
    let mut cpu = cpu_running();
    cpu.pc = 0x0200;
    cpu.y = 0x20;
    cpu.cycles_used = 0;
    let ea = bus::indirect_y(&mut mem, &mut cpu, true);
    assert_eq!(ea, 0x2110);
    assert_eq!(cpu.cycles_used, 1);
}

#[test]
fn adc_binary_sets_carry_zero_overflow() {
    let mut mem = flat_ram();
    bus::write(&mut mem, 0x0040, 0x01);
    let mut cpu = cpu_running();
    cpu.a = 0xff;
    cpu.set_carry(false);
    op::adc(&mut mem, &mut cpu, 2, 0x0040);
    assert_eq!(cpu.a, 0x00);
    assert_eq!(cpu.sr & 0x01, 1);
    assert_ne!(cpu.sr & 0x02, 0);

    // 0x50 + 0x50 overflows into the sign bit
    bus::write(&mut mem, 0x0040, 0x50);
    let mut cpu2 = cpu_running();
    cpu2.a = 0x50;
    cpu2.set_carry(false);
    op::adc(&mut mem, &mut cpu2, 2, 0x0040);
    assert_eq!(cpu2.a, 0xa0);
    assert_ne!(cpu2.sr & 0x40, 0);
    assert_ne!(cpu2.sr & 0x80, 0);
}

#[test]
fn adc_binary_commutes_in_a_result() {
    let mut mem = flat_ram();
    for &(a, b, c) in &[(0x12u8, 0x34u8, false), (0xff, 0x01, true), (0x80, 0x80, false)] {
        bus::write(&mut mem, 0x0040, b);
        let mut one = cpu_running();
        one.a = a;
        one.set_carry(c);
        op::adc(&mut mem, &mut one, 2, 0x0040);
        bus::write(&mut mem, 0x0040, a);
        let mut two = cpu_running();
        two.a = b;
        two.set_carry(c);
        op::adc(&mut mem, &mut two, 2, 0x0040);
        assert_eq!(one.a, two.a);
    }
}

#[test]
fn sbc_binary_subtracts_with_borrow() {
    let mut mem = flat_ram();
    bus::write(&mut mem, 0x0040, 0x10);
    let mut cpu = cpu_running();
    cpu.a = 0x50;
    cpu.set_carry(true);
    op::sbc(&mut mem, &mut cpu, 2, 0x0040);
    assert_eq!(cpu.a, 0x40);
    assert_eq!(cpu.sr & 0x01, 1);
}

#[test]
fn bcd_adc_sum_of_valid_operands() {
    let mut mem = flat_ram();
    bus::write(&mut mem, 0x0040, 0x38);
    let mut cpu = cpu_running();
    cpu.set_decimal(true);
    cpu.set_carry(false);
    cpu.a = 0x24;
    op::adc(&mut mem, &mut cpu, 2, 0x0040);
    // 24 + 38 = 62 decimal
    assert_eq!(cpu.a, 0x62);
    assert_eq!(cpu.sr & 0x01, 0);

    // 51 + 51 = 102: carry set, low two digits kept
    bus::write(&mut mem, 0x0040, 0x51);
    let mut cpu2 = cpu_running();
    cpu2.set_decimal(true);
    cpu2.set_carry(false);
    cpu2.a = 0x51;
    op::adc(&mut mem, &mut cpu2, 2, 0x0040);
    assert_eq!(cpu2.a, 0x02);
    assert_eq!(cpu2.sr & 0x01, 1);
}

#[test]
fn cmp_sets_carry_zero_negative() {
    let mut mem = flat_ram();
    bus::write(&mut mem, 0x0040, 0x30);
    let mut cpu = cpu_running();
    cpu.a = 0x30;
    op::cmp(&mut mem, &mut cpu, 2, 0x0040);
    assert_eq!(cpu.sr & 0x01, 1);
    assert_ne!(cpu.sr & 0x02, 0);
    assert_eq!(cpu.sr & 0x80, 0);

    let mut cpu2 = cpu_running();
    cpu2.a = 0x20;
    op::cmp(&mut mem, &mut cpu2, 2, 0x0040);
    assert_eq!(cpu2.sr & 0x01, 0);
    assert_eq!(cpu2.sr & 0x02, 0);
    assert_ne!(cpu2.sr & 0x80, 0);
}

#[test]
fn cpx_cpy_compare_index_registers() {
    let mut mem = flat_ram();
    bus::write(&mut mem, 0x0040, 0x10);
    let mut cpu = cpu_running();
    cpu.x = 0x20;
    cpu.y = 0x05;
    op::cpx(&mut mem, &mut cpu, 2, 0x0040);
    assert_eq!(cpu.sr & 0x01, 1);
    op::cpy(&mut mem, &mut cpu, 2, 0x0040);
    assert_eq!(cpu.sr & 0x01, 0);
}

#[test]
fn logic_ops_update_accumulator_and_flags() {
    let mut mem = flat_ram();
    bus::write(&mut mem, 0x0040, 0x0f);
    let mut cpu = cpu_running();
    cpu.a = 0xf0;
    op::and(&mut mem, &mut cpu, 2, 0x0040);
    assert_eq!(cpu.a, 0x00);
    assert_ne!(cpu.sr & 0x02, 0);
    cpu.a = 0xf0;
    op::ora(&mut mem, &mut cpu, 2, 0x0040);
    assert_eq!(cpu.a, 0xff);
    assert_ne!(cpu.sr & 0x80, 0);
    op::eor(&mut mem, &mut cpu, 2, 0x0040);
    assert_eq!(cpu.a, 0xf0);
}

#[test]
fn bit_reads_flags_from_memory() {
    let mut mem = flat_ram();
    bus::write(&mut mem, 0x0040, 0b11000000);
    let mut cpu = cpu_running();
    cpu.a = 0b00111111;
    op::bit(&mut mem, &mut cpu, 3, 0x0040);
    assert_ne!(cpu.sr & 0x80, 0);
    assert_ne!(cpu.sr & 0x40, 0);
    assert_ne!(cpu.sr & 0x02, 0);
    assert_eq!(cpu.a, 0b00111111);
}

#[test]
fn shifts_move_bits_through_carry() {
    let mut mem = flat_ram();
    let mut cpu = cpu_running();
    cpu.a = 0x81;
    op::asl(&mut mem, &mut cpu, 2, None);
    assert_eq!(cpu.a, 0x02);
    assert_eq!(cpu.sr & 0x01, 1);
    op::lsr(&mut mem, &mut cpu, 2, None);
    assert_eq!(cpu.a, 0x01);
    assert_eq!(cpu.sr & 0x01, 0);
    assert_eq!(cpu.sr & 0x80, 0);
}

#[test]
fn asl_lsr_round_trip_on_even_low_byte() {
    let mut mem = flat_ram();
    let mut cpu = cpu_running();
    cpu.a = 0x24;
    cpu.set_carry(false);
    op::asl(&mut mem, &mut cpu, 2, None);
    assert_eq!(cpu.sr & 0x01, 0);
    op::lsr(&mut mem, &mut cpu, 2, None);
    assert_eq!(cpu.a, 0x24);
    assert_eq!(cpu.sr & 0x01, 0);
}

#[test]
fn rotates_use_carry_in_and_out() {
    let mut mem = flat_ram();
    let mut cpu = cpu_running();
    cpu.a = 0x80;
    cpu.set_carry(true);
    op::rol(&mut mem, &mut cpu, 2, None);
    assert_eq!(cpu.a, 0x01);
    assert_eq!(cpu.sr & 0x01, 1);
    let mut cpu2 = cpu_running();
    cpu2.a = 0x01;
    cpu2.set_carry(true);
    op::ror(&mut mem, &mut cpu2, 2, None);
    assert_eq!(cpu2.a, 0x80);
    assert_eq!(cpu2.sr & 0x01, 1);
}

#[test]
fn shift_on_memory_operand_writes_back() {
    let mut mem = flat_ram();
    bus::write(&mut mem, 0x0040, 0x41);
    let mut cpu = cpu_running();
    op::asl(&mut mem, &mut cpu, 6, Some(0x0040));
    assert_eq!(bus::peek(&mem, 0x0040), 0x82);
    assert_eq!(cpu.sr & 0x01, 0);
}

#[test]
fn inc_dec_wrap_and_set_flags() {
    let mut mem = flat_ram();
    bus::write(&mut mem, 0x0040, 0xff);
    let mut cpu = cpu_running();
    op::inc(&mut mem, &mut cpu, 5, 0x0040);
    assert_eq!(bus::peek(&mem, 0x0040), 0x00);
    assert_ne!(cpu.sr & 0x02, 0);
    op::dec(&mut mem, &mut cpu, 5, 0x0040);
    assert_eq!(bus::peek(&mem, 0x0040), 0xff);
    assert_ne!(cpu.sr & 0x80, 0);
}

#[test]
fn loads_and_stores_move_registers() {
    let mut mem = flat_ram();
    bus::write(&mut mem, 0x0040, 0x80);
    let mut cpu = cpu_running();
    op::lda(&mut mem, &mut cpu, 3, 0x0040);
    assert_eq!(cpu.a, 0x80);
    assert_ne!(cpu.sr & 0x80, 0);
    op::ldx(&mut mem, &mut cpu, 3, 0x0040);
    op::ldy(&mut mem, &mut cpu, 3, 0x0040);
    assert_eq!(cpu.x, 0x80);
    assert_eq!(cpu.y, 0x80);
    cpu.a = 0x11;
    cpu.x = 0x22;
    cpu.y = 0x33;
    op::sta(&mut mem, &mut cpu, 3, 0x0050);
    op::stx(&mut mem, &mut cpu, 3, 0x0051);
    op::sty(&mut mem, &mut cpu, 3, 0x0052);
    assert_eq!(bus::peek(&mem, 0x0050), 0x11);
    assert_eq!(bus::peek(&mem, 0x0051), 0x22);
    assert_eq!(bus::peek(&mem, 0x0052), 0x33);
    assert_eq!(cpu.sr & 0x80, 0x80);
}

#[test]
fn transfer_moves_values_and_txs_keeps_flags() {
    let mut cpu = cpu_running();
    cpu.x = 0x00;
    cpu.a = 0x99;
    op::transfer(&mut cpu, 'a', 'x');
    assert_eq!(cpu.x, 0x99);
    assert_ne!(cpu.sr & 0x80, 0);

    let mut cpu2 = cpu_running();
    cpu2.x = 0x00;
    cpu2.sr = 0b00100100;
    op::transfer(&mut cpu2, 'x', 's');
    // a transfer into the stack pointer updates no flags
    assert_eq!(cpu2.sp, 0x00);
    assert_eq!(cpu2.sr, 0b00100100);

    let mut cpu3 = cpu_running();
    cpu3.sp = 0x45;
    op::transfer(&mut cpu3, 's', 'x');
    assert_eq!(cpu3.x, 0x45);
}

#[test]
fn flat_memory_reads_and_protects_rom() {
    let mut image = [0u8; 0xffff];
    mem::write(&mut image, 0x1234, 0x56);
    assert_eq!(mem::read(&image, 0x1234), 0x56);
    mem::write(&mut image, 0xe000, 0x99);
    assert_eq!(mem::read(&image, 0xe000), 0x00);
}
