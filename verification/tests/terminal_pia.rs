//! The PIA bridge and the terminal scroll policy, ending in an Apple-1
//! style echo loop run end to end.

use rust65::bus::{self, Segment};
use rust65::cpu::CpuStatus;
use rust65::terminal;

fn apple1_memory(rom: Vec<u8>) -> Vec<Segment> {
    vec![
        Segment::new(vec![0u8; 0x8000], 0, true, true),
        Segment::new(rom, 0xe000, false, true),
        Segment::new(vec![0u8; 4], 0xd010, false, true),
        Segment::new(vec![0u8; 4], 0xd010, true, false),
    ]
}

#[test]
fn pia_moves_display_byte_to_buffer() {
    let mut mem = apple1_memory(vec![0u8; 0x2000]);
    let mut buf: Vec<u8> = Vec::new();
    let mut input: Option<char> = None;
    bus::write(&mut mem, 0xd012, b'H' | 0x80);
    assert_eq!(bus::peek(&mem, 0xd013), 0x80);
    let printed = terminal::pia(&mut mem, &mut buf, &mut input);
    assert!(printed);
    assert_eq!(buf, vec![b'H']);
    // the handshake bit clears once the byte is taken
    assert_eq!(bus::peek(&mem, 0xd013), 0x00);
}

#[test]
fn pia_translates_carriage_return_and_drops_null() {
    let mut mem = apple1_memory(vec![0u8; 0x2000]);
    let mut buf: Vec<u8> = Vec::new();
    let mut input: Option<char> = None;
    bus::write(&mut mem, 0xd012, 0x0d | 0x80);
    terminal::pia(&mut mem, &mut buf, &mut input);
    assert_eq!(buf, vec![0x0a]);

    bus::write(&mut mem, 0xd012, 0x80);
    let printed = terminal::pia(&mut mem, &mut buf, &mut input);
    // a null is dropped, though the handshake still completes
    assert!(printed);
    assert_eq!(buf, vec![0x0a]);
    assert_eq!(bus::peek(&mem, 0xd013), 0x00);
}

#[test]
fn pia_idle_tick_prints_nothing() {
    let mut mem = apple1_memory(vec![0u8; 0x2000]);
    let mut buf: Vec<u8> = Vec::new();
    let mut input: Option<char> = None;
    let printed = terminal::pia(&mut mem, &mut buf, &mut input);
    assert!(!printed);
    assert!(buf.is_empty());
}

#[test]
fn pia_posts_upper_cased_key_with_high_bit() {
    let mut mem = apple1_memory(vec![0u8; 0x2000]);
    let mut buf: Vec<u8> = Vec::new();
    let mut input: Option<char> = Some('z');
    terminal::pia(&mut mem, &mut buf, &mut input);
    assert_eq!(input, None);
    assert_eq!(bus::peek(&mem, 0xd010), b'Z' | 0x80);
    assert_eq!(bus::peek(&mem, 0xd011), 0x80);
}

#[test]
fn pia_keeps_non_letter_keys() {
    let mut mem = apple1_memory(vec![0u8; 0x2000]);
    let mut buf: Vec<u8> = Vec::new();
    let mut input: Option<char> = Some('3');
    terminal::pia(&mut mem, &mut buf, &mut input);
    assert_eq!(bus::peek(&mem, 0xd010), b'3' | 0x80);
}

#[test]
fn scroll_leaves_short_buffer_alone() {
    let mut buf: Vec<u8> = b"HELLO\nWORLD\n".to_vec();
    let before = buf.clone();
    terminal::scroll(&mut buf);
    assert_eq!(buf, before);
}

#[test]
fn scroll_drops_first_line_when_full() {
    let mut buf: Vec<u8> = Vec::new();
    for _ in 0..24 {
        buf.extend_from_slice(b"LINE\n");
    }
    terminal::scroll(&mut buf);
    let expected: Vec<u8> = buf.clone();
    assert_eq!(expected.len(), 23 * 5);
    assert_eq!(&buf[..5], b"LINE\n");
}

#[test]
fn scroll_caps_at_forty_without_newline() {
    // 24 full rows of forty characters, no newline anywhere
    let mut buf: Vec<u8> = vec![b'X'; 40 * 24];
    terminal::scroll(&mut buf);
    assert_eq!(buf.len(), 40 * 24 - 40);
}

#[test]
fn scroll_counts_wrapped_rows() {
    // 23 wrapped rows plus one newline row reach the threshold
    let mut buf: Vec<u8> = vec![b'X'; 40 * 23];
    buf.push(0x0a);
    terminal::scroll(&mut buf);
    assert_eq!(buf.len(), 40 * 23 + 1 - 40);
}

#[test]
fn pia_echo_through_woz_style_monitor_loop() {
    // an Apple-1 style polling loop in ROM:
    //   wait: LDA $D011 ; BPL wait ; LDA $D010 ; STA $D012 ; JMP wait
    let mut rom = vec![0u8; 0x2000];
    let program: [u8; 14] = [
        0xad, 0x11, 0xd0, // LDA $D011
        0x10, 0xfb, //       BPL wait
        0xad, 0x10, 0xd0, // LDA $D010
        0x8d, 0x12, 0xd0, // STA $D012
        0x4c, 0x00, 0xe0, // JMP wait
    ];
    rom[..14].copy_from_slice(&program);
    rom[0x1ffc] = 0x00;
    rom[0x1ffd] = 0xe0;
    let mut mem = apple1_memory(rom);
    let mut buf: Vec<u8> = Vec::new();
    let mut input: Option<char> = Some('a');
    let mut cpu = CpuStatus::new(1_000_000);

    let mut key_was_pending = false;
    for _ in 0..64 {
        cpu.execute(&mut mem).unwrap();
        if bus::peek(&mem, 0xd011) & 0x80 != 0 {
            key_was_pending = true;
        }
        terminal::pia(&mut mem, &mut buf, &mut input);
    }

    // the injected 'a' was upper-cased and echoed to the terminal
    assert_eq!(buf, vec![b'A']);
    // the ready bit was raised, and reading $D010 acknowledged it
    assert!(key_was_pending);
    assert_eq!(bus::peek(&mem, 0xd011) & 0x80, 0);
}
