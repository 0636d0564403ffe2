//! The PIA bridge: one tick moves at most one character out of the display
//! register into the terminal buffer and one host key into the keyboard
//! register, driving the handshake bits both ways. The scroll policy keeps
//! the buffer inside a 40-column by 24-row viewport.

use crate::bus;
use crate::bus::{
    bus_view, bus_wf, low7, output_val, read_val, reg_store, with_high_bit, SegView, Segment, DSP,
    DSPCR, KBD, KBDCR,
};
use vstd::prelude::*;

verus! {

/// Rows the buffer occupies from position `i` on, with `col` characters
/// already on the current row: a row ends at each newline and whenever the
/// column count reaches forty.
pub open spec fn rows_from(buf: Seq<u8>, i: int, col: int) -> int
    decreases buf.len() - i,
{
    if i < 0 || i >= buf.len() {
        0
    } else if buf[i] == 0x0a || col >= 39 {
        1 + rows_from(buf, i + 1, 0)
    } else {
        rows_from(buf, i + 1, col + 1)
    }
}

/// Rows the whole buffer occupies.
pub open spec fn rows_used(buf: Seq<u8>) -> int {
    rows_from(buf, 0, 0)
}

/// How many head bytes a scroll pass consumes, scanning from `i`: up to and
/// including the first newline, but never more than forty.
pub open spec fn scroll_pops(buf: Seq<u8>, i: int) -> int
    decreases 40 - i,
{
    if i < 0 || i >= 40 {
        40
    } else if i < buf.len() && buf[i] == 0x0a {
        i + 1
    } else {
        scroll_pops(buf, i + 1)
    }
}

/// The buffer after the scroll policy: when twenty-four or more rows are
/// used, the head of the buffer is dropped up to and including the first
/// newline, or after forty bytes if no newline comes first.
pub open spec fn spec_scroll(buf: Seq<u8>) -> Seq<u8> {
    if rows_used(buf) >= 24 {
        let pops = scroll_pops(buf, 0);
        let dropped = if pops <= buf.len() {
            pops
        } else {
            buf.len() as int
        };
        buf.skip(dropped)
    } else {
        buf
    }
}

/// Keep the viewport bounded: when the display is about to fill, delete the
/// whole first line, finishing at a wrap or newline.
pub fn scroll(buf: &mut Vec<u8>)
    ensures
        final(buf)@ == spec_scroll(old(buf)@),
{
    let ghost orig = buf@;
    let mut rows_done: usize = 0;
    let mut characters_in_row: usize = 0;
    let mut i: usize = 0;
    while i < buf.len()
        invariant
            0 <= i <= buf@.len(),
            0 <= characters_in_row <= 39,
            rows_done <= i,
            buf@ == orig,
            rows_used(orig) == rows_done + rows_from(orig, i as int, characters_in_row as int),
        decreases buf@.len() - i,
    {
        if buf[i] == 0x0a || characters_in_row >= 39 {
            rows_done = rows_done + 1;
            characters_in_row = 0;
        } else {
            characters_in_row = characters_in_row + 1;
        }
        i = i + 1;
    }

    if rows_done >= 24 {
        let mut scan: usize = 0;
        let mut pops: usize = 40;
        let mut looking = true;
        while looking && scan < 40
            invariant
                0 <= scan <= 40,
                buf@ == orig,
                looking ==> pops == 40 && scroll_pops(orig, 0) == scroll_pops(orig, scan as int),
                !looking ==> pops == scroll_pops(orig, 0),
                pops <= 40,
            decreases 40 - scan,
        {
            if scan < buf.len() && buf[scan] == 0x0a {
                pops = scan + 1;
                looking = false;
            }
            scan = scan + 1;
        }

        let dropped: usize = if pops <= buf.len() {
            pops
        } else {
            buf.len()
        };
        let mut j: usize = 0;
        while j < dropped
            invariant
                0 <= j <= dropped,
                dropped <= orig.len(),
                buf@ == orig.skip(j as int),
            decreases dropped - j,
        {
            buf.remove(0);
            j = j + 1;
            assert(buf@ =~= orig.skip(j as int));
        }
    }
}

/// The byte a host key posts to the keyboard register: ASCII lower case is
/// folded to upper case, other characters keep their low byte.
pub open spec fn upper_byte(c: char) -> u8 {
    let u = c as u32;
    if 97 <= u <= 122 {
        (u - 32) as u8
    } else {
        (u % 256) as u8
    }
}

/// One PIA tick. The display side runs first: a pending character (bit 7 of
/// the display control register set) is taken from the display data
/// register, its high bit masked off; a null is dropped, a carriage return
/// becomes a line feed, anything else is appended; the scroll policy runs,
/// and the handshake bit clears. The keyboard side then posts a pending host
/// character, upper-cased with bit 7 set, and raises the keyboard-ready bit.
pub open spec fn spec_pia(m: Seq<SegView>, buf: Seq<u8>, input: Option<char>) -> (Seq<SegView>, Seq<u8>, bool) {
    let printed = read_val(m, DSPCR) >= 0x80;
    let m1 = if printed {
        reg_store(m, DSPCR, low7(read_val(m, DSPCR)))
    } else {
        m
    };
    let buf1 = if printed {
        let out = low7(output_val(m, DSP));
        if out == 0 {
            buf
        } else if out == 0x0d {
            spec_scroll(buf.push(0x0a))
        } else {
            spec_scroll(buf.push(out))
        }
    } else {
        buf
    };
    match input {
        Some(c) => {
            let ma = reg_store(m1, KBD, with_high_bit(upper_byte(c)));
            let mb = reg_store(ma, KBDCR, with_high_bit(read_val(ma, KBDCR)));
            (mb, buf1, printed)
        },
        None => (m1, buf1, printed),
    }
}

/// Service the peripheral interface adapter once; reports whether a
/// character was moved to the terminal this tick.
pub fn pia(memory: &mut Vec<Segment>, buf: &mut Vec<u8>, input: &mut Option<char>) -> (printed: bool)
    requires
        bus_wf(bus_view(*old(memory))),
    ensures
        (bus_view(*final(memory)), final(buf)@, printed) == spec_pia(
            bus_view(*old(memory)),
            old(buf)@,
            *old(input),
        ),
        *final(input) is None,
        bus_wf(bus_view(*final(memory))),
{
    let mut printed = false;

    let status = bus::peek(memory, DSPCR);
    if status >= 0x80 {
        let out_char = bus::peek_output(memory, DSP) % 128;
        if out_char != 0 {
            if out_char == 0x0d {
                buf.push(0x0a);
            } else {
                buf.push(out_char);
            }
            scroll(buf);
        }
        bus::poke_register(memory, DSPCR, status % 128);
        printed = true;
    }

    match *input {
        Some(c) => {
            let u = c as u32;
            let folded: u8 = if u >= 97 && u <= 122 {
                (u - 32) as u8
            } else {
                (u % 256) as u8
            };
            let key: u8 = if folded < 128 {
                folded + 128
            } else {
                folded
            };
            bus::poke_register(memory, KBD, key);
            let kbd_status = bus::peek(memory, KBDCR);
            let raised: u8 = if kbd_status < 128 {
                kbd_status + 128
            } else {
                kbd_status
            };
            bus::poke_register(memory, KBDCR, raised);
            *input = None;
        },
        None => {},
    }

    printed
}

} // verus!
