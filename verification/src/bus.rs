//! The system bus: an ordered list of segments, each a byte array with its
//! own read and write enables. Overlapping segments are legal; the earliest
//! matching segment wins. Reads and writes at the four PIA register
//! addresses trigger the handshake side effects of the Apple 1 peripheral
//! interface adapter.

use crate::cpu::CpuStatus;
use vstd::prelude::*;

verus! {

/// Keyboard data register address.
pub const KBD: u16 = 0xd010;
/// Keyboard control register address; bit 7 means a key is ready.
pub const KBDCR: u16 = 0xd011;
/// Display data register address.
pub const DSP: u16 = 0xd012;
/// Display control register address; bit 7 means a character is pending.
pub const DSPCR: u16 = 0xd013;

/// One contiguous region of the address space. `end_addr` is exclusive and
/// is held as a `u32` so that a segment may run to the top of the 16-bit
/// address space.
pub struct Segment {
    pub data: Vec<u8>,
    pub start_addr: u16,
    pub end_addr: u32,
    pub write_enabled: bool,
    pub read_enabled: bool,
}

/// The mathematical image of one segment.
pub ghost struct SegView {
    pub data: Seq<u8>,
    pub start: int,
    pub end: int,
    pub write_enabled: bool,
    pub read_enabled: bool,
}

impl View for Segment {
    type V = SegView;

    open spec fn view(&self) -> SegView {
        SegView {
            data: self.data@,
            start: self.start_addr as int,
            end: self.end_addr as int,
            write_enabled: self.write_enabled,
            read_enabled: self.read_enabled,
        }
    }
}

/// The mathematical image of a whole bus.
pub open spec fn bus_view(m: Vec<Segment>) -> Seq<SegView> {
    Seq::new(m@.len(), |i: int| m@[i]@)
}

/// A segment is well formed when its exclusive end matches its byte count
/// and it stays inside the 16-bit address space.
pub open spec fn seg_wf(s: SegView) -> bool {
    &&& s.end == s.start + s.data.len()
    &&& 0 <= s.start
    &&& s.end <= 0x10000
}

pub open spec fn bus_wf(m: Seq<SegView>) -> bool {
    forall|i: int| 0 <= i < m.len() ==> seg_wf(#[trigger] m[i])
}

/// Does `addr` fall inside segment `s`?
pub open spec fn in_seg(s: SegView, addr: u16) -> bool {
    s.start <= addr < s.end
}

/// Index of the first read-enabled segment containing `addr`, scanning from `i`.
pub open spec fn read_hit_from(m: Seq<SegView>, addr: u16, i: int) -> Option<int>
    decreases m.len() - i,
{
    if i < 0 || i >= m.len() {
        None
    } else if in_seg(m[i], addr) && m[i].read_enabled {
        Some(i)
    } else {
        read_hit_from(m, addr, i + 1)
    }
}

/// Index of the first read-enabled segment containing `addr`.
pub open spec fn read_hit(m: Seq<SegView>, addr: u16) -> Option<int> {
    read_hit_from(m, addr, 0)
}

/// Index of the first write-enabled segment containing `addr`, scanning from `i`.
pub open spec fn write_hit_from(m: Seq<SegView>, addr: u16, i: int) -> Option<int>
    decreases m.len() - i,
{
    if i < 0 || i >= m.len() {
        None
    } else if in_seg(m[i], addr) && m[i].write_enabled {
        Some(i)
    } else {
        write_hit_from(m, addr, i + 1)
    }
}

/// Index of the first write-enabled segment containing `addr`.
pub open spec fn write_hit(m: Seq<SegView>, addr: u16) -> Option<int> {
    write_hit_from(m, addr, 0)
}

/// The byte segment `s` holds for `addr`.
pub open spec fn seg_byte(s: SegView, addr: u16) -> u8 {
    s.data[addr - s.start]
}

/// The byte the processor sees at `addr`: the first read-enabled segment
/// answers; an unmapped read floats to `0xAA`.
pub open spec fn read_val(m: Seq<SegView>, addr: u16) -> u8 {
    match read_hit(m, addr) {
        Some(i) => seg_byte(m[i], addr),
        None => 0xAA,
    }
}

/// The byte latched on the write side at `addr` (what the processor last
/// stored there), or `0xAA` where no write-enabled segment matches.
pub open spec fn output_val(m: Seq<SegView>, addr: u16) -> u8 {
    match write_hit(m, addr) {
        Some(i) => seg_byte(m[i], addr),
        None => 0xAA,
    }
}

/// Segment `s` with the byte for `addr` replaced.
pub open spec fn seg_store(s: SegView, addr: u16, byte: u8) -> SegView {
    SegView { data: s.data.update(addr - s.start, byte), ..s }
}

/// Host-side store into the register byte the processor reads at `addr`;
/// a miss is dropped.
pub open spec fn reg_store(m: Seq<SegView>, addr: u16, byte: u8) -> Seq<SegView> {
    match read_hit(m, addr) {
        Some(i) => m.update(i, seg_store(m[i], addr, byte)),
        None => m,
    }
}

/// Processor-side store at `addr`: the first write-enabled segment takes the
/// byte; a miss is silently discarded. The PIA hook is not yet applied.
pub open spec fn plain_store(m: Seq<SegView>, addr: u16, byte: u8) -> Seq<SegView> {
    match write_hit(m, addr) {
        Some(i) => m.update(i, seg_store(m[i], addr, byte)),
        None => m,
    }
}

/// `b` with bit 7 cleared.
pub open spec fn low7(b: u8) -> u8 {
    (b % 128) as u8
}

/// `b` with bit 7 set.
pub open spec fn with_high_bit(b: u8) -> u8 {
    if b < 128 {
        (b + 128) as u8
    } else {
        b
    }
}

/// Side effect of a processor read from `addr`: reading the keyboard data
/// register acknowledges the key by clearing bit 7 of the keyboard control
/// register.
pub open spec fn read_hooked(m: Seq<SegView>, addr: u16) -> Seq<SegView> {
    if addr == KBD {
        reg_store(m, KBDCR, low7(read_val(m, KBDCR)))
    } else {
        m
    }
}

/// Side effect of a processor write to `addr`: writing the display data
/// register raises bit 7 of the display control register to signal a
/// pending character.
pub open spec fn write_hooked(m: Seq<SegView>, addr: u16) -> Seq<SegView> {
    if addr == DSP {
        reg_store(m, DSPCR, with_high_bit(read_val(m, DSPCR)))
    } else {
        m
    }
}

/// A full processor-side write: store, then the PIA hook.
pub open spec fn store_val(m: Seq<SegView>, addr: u16, byte: u8) -> Seq<SegView> {
    write_hooked(plain_store(m, addr, byte), addr)
}

/// The stack lives in page one: the byte for stack pointer `sp` sits at
/// `0x0100 + sp`.
pub open spec fn stack_addr(sp: u8) -> u16 {
    (0x0100 + sp) as u16
}

/// A push: the byte lands at `0x0100 + SP`, then SP decrements with 8-bit
/// wrap. Stack stores never touch the PIA addresses, so no hook fires.
pub open spec fn spec_push(cpu: CpuStatus, m: Seq<SegView>, data: u8) -> (CpuStatus, Seq<SegView>) {
    (
        CpuStatus { sp: cpu.sp.wrapping_sub(1), ..cpu },
        plain_store(m, stack_addr(cpu.sp), data),
    )
}

/// A pull: SP increments with 8-bit wrap, then the byte at `0x0100 + SP` is
/// read. The bus is unchanged.
pub open spec fn spec_pull(cpu: CpuStatus, m: Seq<SegView>) -> (u8, CpuStatus) {
    (
        read_val(m, stack_addr(cpu.sp.wrapping_add(1))),
        CpuStatus { sp: cpu.sp.wrapping_add(1), ..cpu },
    )
}

/// A little-endian vector fetch at `at`, with read hooks applied in order.
pub open spec fn spec_vector(m: Seq<SegView>, at: u16) -> (u16, Seq<SegView>) {
    let lo = read_val(m, at);
    let m1 = read_hooked(m, at);
    let hi = read_val(m1, at.wrapping_add(1));
    let m2 = read_hooked(m1, at.wrapping_add(1));
    ((hi * 256 + lo) as u16, m2)
}

/// What a read hit means: the segment found contains the address, is
/// read-enabled, and is the first such segment at or after `k`.
pub proof fn lemma_read_hit_from_props(m: Seq<SegView>, addr: u16, k: int)
    requires
        0 <= k <= m.len(),
    ensures
        match read_hit_from(m, addr, k) {
            Some(i) => {
                &&& k <= i < m.len()
                &&& in_seg(m[i], addr)
                &&& m[i].read_enabled
                &&& forall|j: int| k <= j < i ==> !(in_seg(#[trigger] m[j], addr) && m[j].read_enabled)
            },
            None => forall|j: int| k <= j < m.len() ==> !(in_seg(#[trigger] m[j], addr) && m[j].read_enabled),
        },
    decreases m.len() - k,
{
    if k < m.len() && !(in_seg(m[k], addr) && m[k].read_enabled) {
        lemma_read_hit_from_props(m, addr, k + 1);
    }
}

/// What a write hit means: the segment found contains the address, is
/// write-enabled, and is the first such segment at or after `k`.
pub proof fn lemma_write_hit_from_props(m: Seq<SegView>, addr: u16, k: int)
    requires
        0 <= k <= m.len(),
    ensures
        match write_hit_from(m, addr, k) {
            Some(i) => {
                &&& k <= i < m.len()
                &&& in_seg(m[i], addr)
                &&& m[i].write_enabled
                &&& forall|j: int| k <= j < i ==> !(in_seg(#[trigger] m[j], addr) && m[j].write_enabled)
            },
            None => forall|j: int| k <= j < m.len() ==> !(in_seg(#[trigger] m[j], addr) && m[j].write_enabled),
        },
    decreases m.len() - k,
{
    if k < m.len() && !(in_seg(m[k], addr) && m[k].write_enabled) {
        lemma_write_hit_from_props(m, addr, k + 1);
    }
}

/// Two bus images with the same segments in the same places, with the same
/// enables and sizes; only the stored bytes may differ.
pub open spec fn same_layout(m1: Seq<SegView>, m2: Seq<SegView>) -> bool {
    &&& m1.len() == m2.len()
    &&& forall|i: int|
        0 <= i < m1.len() ==> {
            &&& (#[trigger] m2[i]).start == m1[i].start
            &&& m2[i].end == m1[i].end
            &&& m2[i].read_enabled == m1[i].read_enabled
            &&& m2[i].write_enabled == m1[i].write_enabled
            &&& m2[i].data.len() == m1[i].data.len()
        }
}

/// Reads and writes at `addr` resolve to the same segment, so a stored byte
/// is read back. Ordinary RAM satisfies this everywhere it is mapped.
pub open spec fn rw_same(m: Seq<SegView>, addr: u16) -> bool {
    write_hit(m, addr) is Some && write_hit(m, addr) == read_hit(m, addr)
}

/// Hits depend on the layout alone.
pub proof fn lemma_same_layout_hits(m1: Seq<SegView>, m2: Seq<SegView>, addr: u16, k: int)
    requires
        same_layout(m1, m2),
        0 <= k <= m1.len(),
    ensures
        read_hit_from(m1, addr, k) == read_hit_from(m2, addr, k),
        write_hit_from(m1, addr, k) == write_hit_from(m2, addr, k),
    decreases m1.len() - k,
{
    if k < m1.len() {
        lemma_same_layout_hits(m1, m2, addr, k + 1);
    }
}

/// What one processor-side store does to every later read: the layout is
/// kept; reads elsewhere are untouched; where reads and writes resolve to
/// the same segment, the stored byte is read back; and any read returns
/// either the old byte or the stored one.
pub proof fn lemma_plain_store_effects(m: Seq<SegView>, addr: u16, byte: u8)
    requires
        bus_wf(m),
    ensures
        same_layout(m, plain_store(m, addr, byte)),
        bus_wf(plain_store(m, addr, byte)),
        forall|a2: u16| a2 != addr ==> read_val(plain_store(m, addr, byte), a2) == read_val(m, a2),
        rw_same(m, addr) ==> read_val(plain_store(m, addr, byte), addr) == byte,
        forall|a2: u16|
            read_val(plain_store(m, addr, byte), a2) == read_val(m, a2) || read_val(
                plain_store(m, addr, byte),
                a2,
            ) == byte,
{
    let m2 = plain_store(m, addr, byte);
    lemma_write_hit_from_props(m, addr, 0);
    match write_hit(m, addr) {
        None => {
            assert(m2 == m);
        },
        Some(i) => {
            assert(same_layout(m, m2));
            assert(bus_wf(m2));
            assert forall|a2: u16| true implies {
                &&& (a2 != addr ==> read_val(m2, a2) == read_val(m, a2))
                &&& (read_val(m2, a2) == read_val(m, a2) || read_val(m2, a2) == byte)
            } by {
                lemma_same_layout_hits(m, m2, a2, 0);
                lemma_read_hit_from_props(m, a2, 0);
                match read_hit(m, a2) {
                    None => {},
                    Some(ir) => {
                        if ir == i && a2 != addr {
                            assert(a2 - m[i].start != addr - m[i].start);
                        }
                    },
                }
            }
            if rw_same(m, addr) {
                lemma_same_layout_hits(m, m2, addr, 0);
                lemma_read_hit_from_props(m, addr, 0);
            }
        },
    }
}

impl Segment {
    /// Build a segment from its backing bytes, start address and enables.
    pub fn new(i_data: Vec<u8>, i_start_addr: u16, i_write_enabled: bool, i_read_enabled: bool) -> (s: Segment)
        requires
            i_start_addr + i_data@.len() <= 0x10000,
        ensures
            s@ == (SegView {
                data: i_data@,
                start: i_start_addr as int,
                end: i_start_addr + i_data@.len(),
                write_enabled: i_write_enabled,
                read_enabled: i_read_enabled,
            }),
            seg_wf(s@),
    {
        let length = i_data.len();
        Segment {
            data: i_data,
            start_addr: i_start_addr,
            end_addr: i_start_addr as u32 + length as u32,
            write_enabled: i_write_enabled,
            read_enabled: i_read_enabled,
        }
    }
}

/// Find the first read-enabled segment containing `addr`.
fn seek_read(memspace: &Vec<Segment>, addr: u16) -> (r: Option<usize>)
    ensures
        match r {
            Some(i) => read_hit(bus_view(*memspace), addr) == Some(i as int) && i < memspace@.len(),
            None => read_hit(bus_view(*memspace), addr) is None,
        },
{
    let ghost v = bus_view(*memspace);
    let mut i: usize = 0;
    while i < memspace.len()
        invariant
            i <= memspace@.len(),
            read_hit(v, addr) == read_hit_from(v, addr, i as int),
        decreases memspace@.len() - i,
    {
        assert(v[i as int] == memspace@[i as int]@);
        if memspace[i].read_enabled && addr >= memspace[i].start_addr && (addr as u32) < memspace[i].end_addr {
            return Some(i);
        }
        i = i + 1;
    }
    None
}

/// Find the first write-enabled segment containing `addr`.
fn seek_write(memspace: &Vec<Segment>, addr: u16) -> (r: Option<usize>)
    ensures
        match r {
            Some(i) => write_hit(bus_view(*memspace), addr) == Some(i as int) && i < memspace@.len(),
            None => write_hit(bus_view(*memspace), addr) is None,
        },
{
    let ghost v = bus_view(*memspace);
    let mut i: usize = 0;
    while i < memspace.len()
        invariant
            i <= memspace@.len(),
            write_hit(v, addr) == write_hit_from(v, addr, i as int),
        decreases memspace@.len() - i,
    {
        assert(v[i as int] == memspace@[i as int]@);
        if memspace[i].write_enabled && addr >= memspace[i].start_addr && (addr as u32) < memspace[i].end_addr {
            return Some(i);
        }
        i = i + 1;
    }
    None
}

/// The byte the processor would read at `addr`, without any side effect.
pub fn peek(memspace: &Vec<Segment>, addr: u16) -> (r: u8)
    requires
        bus_wf(bus_view(*memspace)),
    ensures
        r == read_val(bus_view(*memspace), addr),
{
    proof {
        lemma_read_hit_from_props(bus_view(*memspace), addr, 0);
    }
    match seek_read(memspace, addr) {
        Some(i) => memspace[i].data[(addr - memspace[i].start_addr) as usize],
        None => 0xAA,
    }
}

/// The byte latched on the write side at `addr`, without any side effect.
pub fn peek_output(memspace: &Vec<Segment>, addr: u16) -> (r: u8)
    requires
        bus_wf(bus_view(*memspace)),
    ensures
        r == output_val(bus_view(*memspace), addr),
{
    proof {
        lemma_write_hit_from_props(bus_view(*memspace), addr, 0);
    }
    match seek_write(memspace, addr) {
        Some(i) => memspace[i].data[(addr - memspace[i].start_addr) as usize],
        None => 0xAA,
    }
}

/// Host-side store into the register byte the processor reads at `addr`.
/// The PIA uses this to post keyboard bytes and handshake bits; enables are
/// not consulted.
pub fn poke_register(memspace: &mut Vec<Segment>, addr: u16, byte: u8)
    requires
        bus_wf(bus_view(*old(memspace))),
    ensures
        bus_view(*final(memspace)) == reg_store(bus_view(*old(memspace)), addr, byte),
        bus_wf(bus_view(*final(memspace))),
{
    let ghost v = bus_view(*old(memspace));
    proof {
        lemma_read_hit_from_props(v, addr, 0);
    }
    match seek_read(memspace, addr) {
        Some(i) => {
            let start = memspace[i].start_addr;
            memspace[i].data[(addr - start) as usize] = byte;
            assert(bus_view(*memspace) =~~= reg_store(v, addr, byte));
        },
        None => {},
    }
}

/// Bus arbitration for reading a byte: the first read-enabled segment
/// containing `addr` answers; an unmapped read returns `0xAA`. Reading the
/// keyboard data register clears bit 7 of the keyboard control register.
pub fn read(memspace: &mut Vec<Segment>, addr: u16) -> (r: u8)
    requires
        bus_wf(bus_view(*old(memspace))),
    ensures
        r == read_val(bus_view(*old(memspace)), addr),
        bus_view(*final(memspace)) == read_hooked(bus_view(*old(memspace)), addr),
        bus_wf(bus_view(*final(memspace))),
{
    let r = peek(memspace, addr);
    if addr == KBD {
        let status = peek(memspace, KBDCR);
        poke_register(memspace, KBDCR, status % 128);
    }
    r
}

/// Bus arbitration for writing a byte: the first write-enabled segment
/// containing `addr` takes it; an unmapped write is silently discarded.
/// Writing the display data register sets bit 7 of the display control
/// register.
pub fn write(memspace: &mut Vec<Segment>, addr: u16, data: u8)
    requires
        bus_wf(bus_view(*old(memspace))),
    ensures
        bus_view(*final(memspace)) == store_val(bus_view(*old(memspace)), addr, data),
        bus_wf(bus_view(*final(memspace))),
{
    let ghost v = bus_view(*old(memspace));
    proof {
        lemma_write_hit_from_props(v, addr, 0);
    }
    match seek_write(memspace, addr) {
        Some(i) => {
            let start = memspace[i].start_addr;
            memspace[i].data[(addr - start) as usize] = data;
            assert(bus_view(*memspace) =~~= plain_store(v, addr, data));
        },
        None => {
            assert(bus_view(*memspace) =~~= plain_store(v, addr, data));
        },
    }
    if addr == DSP {
        let status = peek(memspace, DSPCR);
        if status < 128 {
            poke_register(memspace, DSPCR, status + 128);
        } else {
            poke_register(memspace, DSPCR, status);
        }
    }
}

/// Absolute mode: fetch a little-endian address after the opcode.
pub open spec fn spec_absolute(cpu: CpuStatus, m: Seq<SegView>) -> (u16, CpuStatus, Seq<SegView>) {
    let lo = read_val(m, cpu.pc);
    let m1 = read_hooked(m, cpu.pc);
    let pc1 = cpu.pc.wrapping_add(1);
    let hi = read_val(m1, pc1);
    let m2 = read_hooked(m1, pc1);
    ((hi * 256 + lo) as u16, CpuStatus { pc: pc1.wrapping_add(1), ..cpu }, m2)
}

/// Absolute,X mode: the fetched address plus X with 16-bit wrap; one extra
/// cycle when `wrap_check` is set and the sum crosses a page.
pub open spec fn spec_absolute_x(cpu: CpuStatus, m: Seq<SegView>, wrap_check: bool) -> (u16, CpuStatus, Seq<SegView>) {
    let (base, cpu1, m2) = spec_absolute(cpu, m);
    let ea = base.wrapping_add(cpu.x as u16);
    let cpu2 = if crate::page_of(base) != crate::page_of(ea) && wrap_check {
        CpuStatus { cycles_used: cpu1.cycles_used.wrapping_add(1), ..cpu1 }
    } else {
        cpu1
    };
    (ea, cpu2, m2)
}

/// Absolute,Y mode: as Absolute,X but indexed by Y.
pub open spec fn spec_absolute_y(cpu: CpuStatus, m: Seq<SegView>, wrap_check: bool) -> (u16, CpuStatus, Seq<SegView>) {
    let (base, cpu1, m2) = spec_absolute(cpu, m);
    let ea = base.wrapping_add(cpu.y as u16);
    let cpu2 = if crate::page_of(base) != crate::page_of(ea) && wrap_check {
        CpuStatus { cycles_used: cpu1.cycles_used.wrapping_add(1), ..cpu1 }
    } else {
        cpu1
    };
    (ea, cpu2, m2)
}

/// Zero-page mode: one operand byte names an address below `0x0100`.
pub open spec fn spec_zp(cpu: CpuStatus, m: Seq<SegView>) -> (u16, CpuStatus, Seq<SegView>) {
    let ea = read_val(m, cpu.pc) as u16;
    (ea, CpuStatus { pc: cpu.pc.wrapping_add(1), ..cpu }, read_hooked(m, cpu.pc))
}

/// Zero-page,X mode: the operand plus X, wrapping inside the zero page.
pub open spec fn spec_zp_x(cpu: CpuStatus, m: Seq<SegView>) -> (u16, CpuStatus, Seq<SegView>) {
    let ea = read_val(m, cpu.pc).wrapping_add(cpu.x) as u16;
    (ea, CpuStatus { pc: cpu.pc.wrapping_add(1), ..cpu }, read_hooked(m, cpu.pc))
}

/// Zero-page,Y mode: the operand plus Y, wrapping inside the zero page.
pub open spec fn spec_zp_y(cpu: CpuStatus, m: Seq<SegView>) -> (u16, CpuStatus, Seq<SegView>) {
    let ea = read_val(m, cpu.pc).wrapping_add(cpu.y) as u16;
    (ea, CpuStatus { pc: cpu.pc.wrapping_add(1), ..cpu }, read_hooked(m, cpu.pc))
}

/// Indirect mode (JMP only): fetch a pointer address, then read the target
/// through it. The pointer's high byte is fetched without carrying into the
/// pointer's own high byte, reproducing the NMOS page-boundary bug.
pub open spec fn spec_indirect(cpu: CpuStatus, m: Seq<SegView>) -> (u16, CpuStatus, Seq<SegView>) {
    let lo = read_val(m, cpu.pc);
    let m1 = read_hooked(m, cpu.pc);
    let pc1 = cpu.pc.wrapping_add(1);
    let hi = read_val(m1, pc1);
    let m2 = read_hooked(m1, pc1);
    let p_lo = (hi * 256 + lo) as u16;
    let p_hi = (hi * 256 + ((lo + 1) % 256)) as u16;
    let o_lo = read_val(m2, p_lo);
    let m3 = read_hooked(m2, p_lo);
    let o_hi = read_val(m3, p_hi);
    let m4 = read_hooked(m3, p_hi);
    ((o_hi * 256 + o_lo) as u16, CpuStatus { pc: pc1.wrapping_add(1), ..cpu }, m4)
}

/// Indirect,X mode: the operand plus X names a zero-page pointer; both
/// pointer bytes are read inside the zero page.
pub open spec fn spec_indirect_x(cpu: CpuStatus, m: Seq<SegView>) -> (u16, CpuStatus, Seq<SegView>) {
    let zp_addr = read_val(m, cpu.pc).wrapping_add(cpu.x);
    let m1 = read_hooked(m, cpu.pc);
    let lo = read_val(m1, zp_addr as u16);
    let m2 = read_hooked(m1, zp_addr as u16);
    let hi = read_val(m2, zp_addr.wrapping_add(1) as u16);
    let m3 = read_hooked(m2, zp_addr.wrapping_add(1) as u16);
    ((hi * 256 + lo) as u16, CpuStatus { pc: cpu.pc.wrapping_add(1), ..cpu }, m3)
}

/// Indirect,Y mode: the operand names a zero-page pointer; the target is the
/// pointer plus Y, with the page-cross penalty when `wrap_check` is set.
pub open spec fn spec_indirect_y(cpu: CpuStatus, m: Seq<SegView>, wrap_check: bool) -> (u16, CpuStatus, Seq<SegView>) {
    let zp_addr = read_val(m, cpu.pc);
    let m1 = read_hooked(m, cpu.pc);
    let lo = read_val(m1, zp_addr as u16);
    let m2 = read_hooked(m1, zp_addr as u16);
    let hi = read_val(m2, zp_addr.wrapping_add(1) as u16);
    let m3 = read_hooked(m2, zp_addr.wrapping_add(1) as u16);
    let base = (hi * 256 + lo) as u16;
    let ea = base.wrapping_add(cpu.y as u16);
    let cpu2 = if crate::page_of(base) != crate::page_of(ea) && wrap_check {
        CpuStatus { pc: cpu.pc.wrapping_add(1), cycles_used: cpu.cycles_used.wrapping_add(1), ..cpu }
    } else {
        CpuStatus { pc: cpu.pc.wrapping_add(1), ..cpu }
    };
    (ea, cpu2, m3)
}

/// Absolute addressing.
pub fn absolute(memspace: &mut Vec<Segment>, reg: &mut CpuStatus) -> (o_addr: u16)
    requires
        bus_wf(bus_view(*old(memspace))),
    ensures
        (o_addr, *final(reg), bus_view(*final(memspace))) == spec_absolute(
            *old(reg),
            bus_view(*old(memspace)),
        ),
        bus_wf(bus_view(*final(memspace))),
{
    let lo_byte = read(memspace, reg.pc);
    reg.pc = reg.pc.wrapping_add(1);
    let hi_byte = read(memspace, reg.pc);
    reg.pc = reg.pc.wrapping_add(1);
    (hi_byte as u16) * 256 + (lo_byte as u16)
}

/// Absolute addressing indexed by X.
pub fn absolute_x(memspace: &mut Vec<Segment>, reg: &mut CpuStatus, wrap_check: bool) -> (o_addr: u16)
    requires
        bus_wf(bus_view(*old(memspace))),
    ensures
        (o_addr, *final(reg), bus_view(*final(memspace))) == spec_absolute_x(
            *old(reg),
            bus_view(*old(memspace)),
            wrap_check,
        ),
        bus_wf(bus_view(*final(memspace))),
{
    let x = reg.x;
    let addr = absolute(memspace, reg);
    let o_addr = addr.wrapping_add(x as u16);
    if addr / 256 != o_addr / 256 && wrap_check {
        reg.cycles_used = reg.cycles_used.wrapping_add(1);
    }
    o_addr
}

/// Absolute addressing indexed by Y.
pub fn absolute_y(memspace: &mut Vec<Segment>, reg: &mut CpuStatus, wrap_check: bool) -> (o_addr: u16)
    requires
        bus_wf(bus_view(*old(memspace))),
    ensures
        (o_addr, *final(reg), bus_view(*final(memspace))) == spec_absolute_y(
            *old(reg),
            bus_view(*old(memspace)),
            wrap_check,
        ),
        bus_wf(bus_view(*final(memspace))),
{
    let y = reg.y;
    let addr = absolute(memspace, reg);
    let o_addr = addr.wrapping_add(y as u16);
    if addr / 256 != o_addr / 256 && wrap_check {
        reg.cycles_used = reg.cycles_used.wrapping_add(1);
    }
    o_addr
}

/// Zero-page addressing.
pub fn zp(memspace: &mut Vec<Segment>, reg: &mut CpuStatus) -> (o_addr: u16)
    requires
        bus_wf(bus_view(*old(memspace))),
    ensures
        (o_addr, *final(reg), bus_view(*final(memspace))) == spec_zp(
            *old(reg),
            bus_view(*old(memspace)),
        ),
        bus_wf(bus_view(*final(memspace))),
{
    let o_addr = read(memspace, reg.pc) as u16;
    reg.pc = reg.pc.wrapping_add(1);
    o_addr
}

/// Zero-page addressing indexed by X.
pub fn zp_x(memspace: &mut Vec<Segment>, reg: &mut CpuStatus) -> (o_addr: u16)
    requires
        bus_wf(bus_view(*old(memspace))),
    ensures
        (o_addr, *final(reg), bus_view(*final(memspace))) == spec_zp_x(
            *old(reg),
            bus_view(*old(memspace)),
        ),
        bus_wf(bus_view(*final(memspace))),
{
    let o_addr = read(memspace, reg.pc).wrapping_add(reg.x);
    reg.pc = reg.pc.wrapping_add(1);
    o_addr as u16
}

/// Zero-page addressing indexed by Y.
pub fn zp_y(memspace: &mut Vec<Segment>, reg: &mut CpuStatus) -> (o_addr: u16)
    requires
        bus_wf(bus_view(*old(memspace))),
    ensures
        (o_addr, *final(reg), bus_view(*final(memspace))) == spec_zp_y(
            *old(reg),
            bus_view(*old(memspace)),
        ),
        bus_wf(bus_view(*final(memspace))),
{
    let o_addr = read(memspace, reg.pc).wrapping_add(reg.y);
    reg.pc = reg.pc.wrapping_add(1);
    o_addr as u16
}

/// Indirect addressing, used only by JMP, with the NMOS page-boundary bug.
pub fn indirect(memspace: &mut Vec<Segment>, reg: &mut CpuStatus) -> (o_addr: u16)
    requires
        bus_wf(bus_view(*old(memspace))),
    ensures
        (o_addr, *final(reg), bus_view(*final(memspace))) == spec_indirect(
            *old(reg),
            bus_view(*old(memspace)),
        ),
        bus_wf(bus_view(*final(memspace))),
{
    let lo_byte = read(memspace, reg.pc);
    reg.pc = reg.pc.wrapping_add(1);
    let hi_byte = read(memspace, reg.pc);
    reg.pc = reg.pc.wrapping_add(1);

    let i_addr: u16 = (hi_byte as u16) * 256 + (lo_byte as u16);
    let i_addr2: u16 = (hi_byte as u16) * 256 + ((lo_byte as u16 + 1) % 256);

    let o_lo = read(memspace, i_addr);
    let o_hi = read(memspace, i_addr2);
    (o_hi as u16) * 256 + (o_lo as u16)
}

/// Indexed indirect addressing through a zero-page pointer at operand + X.
pub fn indirect_x(memspace: &mut Vec<Segment>, reg: &mut CpuStatus) -> (o_addr: u16)
    requires
        bus_wf(bus_view(*old(memspace))),
    ensures
        (o_addr, *final(reg), bus_view(*final(memspace))) == spec_indirect_x(
            *old(reg),
            bus_view(*old(memspace)),
        ),
        bus_wf(bus_view(*final(memspace))),
{
    let zp_addr = read(memspace, reg.pc).wrapping_add(reg.x);
    reg.pc = reg.pc.wrapping_add(1);
    let lo_byte = read(memspace, zp_addr as u16);
    let hi_byte = read(memspace, zp_addr.wrapping_add(1) as u16);
    (hi_byte as u16) * 256 + (lo_byte as u16)
}

/// Indirect indexed addressing: a zero-page pointer, then plus Y.
pub fn indirect_y(memspace: &mut Vec<Segment>, reg: &mut CpuStatus, wrap_check: bool) -> (o_addr: u16)
    requires
        bus_wf(bus_view(*old(memspace))),
    ensures
        (o_addr, *final(reg), bus_view(*final(memspace))) == spec_indirect_y(
            *old(reg),
            bus_view(*old(memspace)),
            wrap_check,
        ),
        bus_wf(bus_view(*final(memspace))),
{
    let zp_addr = read(memspace, reg.pc);
    reg.pc = reg.pc.wrapping_add(1);
    let lo_byte = read(memspace, zp_addr as u16);
    let hi_byte = read(memspace, zp_addr.wrapping_add(1) as u16);
    let i_addr: u16 = (hi_byte as u16) * 256 + (lo_byte as u16);
    let o_addr = i_addr.wrapping_add(reg.y as u16);
    if i_addr / 256 != o_addr / 256 && wrap_check {
        reg.cycles_used = reg.cycles_used.wrapping_add(1);
    }
    o_addr
}

/// Push a byte: store it at `0x0100 + SP`, then decrement SP with 8-bit wrap.
/// SP points at the next free slot.
pub fn push_stack(memory: &mut Vec<Segment>, reg: &mut CpuStatus, data: u8)
    requires
        bus_wf(bus_view(*old(memory))),
    ensures
        (*final(reg), bus_view(*final(memory))) == spec_push(*old(reg), bus_view(*old(memory)), data),
        bus_wf(bus_view(*final(memory))),
{
    let addr: u16 = 0x0100 + reg.sp as u16;
    write(memory, addr, data);
    reg.sp = reg.sp.wrapping_sub(1);
}

/// Pull a byte: increment SP with 8-bit wrap, then read `0x0100 + SP`.
pub fn pull_stack(memory: &mut Vec<Segment>, reg: &mut CpuStatus) -> (pulled: u8)
    requires
        bus_wf(bus_view(*old(memory))),
    ensures
        (pulled, *final(reg)) == spec_pull(*old(reg), bus_view(*old(memory))),
        bus_view(*final(memory)) == bus_view(*old(memory)),
{
    reg.sp = reg.sp.wrapping_add(1);
    let addr: u16 = 0x0100 + reg.sp as u16;
    read(memory, addr)
}

} // verus!
