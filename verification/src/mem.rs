//! A flat memory image with a write-protected ROM region in its top eight
//! kilobytes, for hosts that want a single address space instead of the
//! segmented bus.

use vstd::prelude::*;

verus! {

/// Read one byte of the flat image.
pub fn read(memspace: &[u8; 0xffff], addr: u16) -> (r: u8)
    requires
        addr < 0xffff,
    ensures
        r == memspace@[addr as int],
{
    memspace[addr as usize]
}

/// Write one byte of the flat image; the ROM region at `0xE000` and above
/// silently refuses the store.
pub fn write(memspace: &mut [u8; 0xffff], addr: u16, data: u8)
    ensures
        final(memspace)@ == if addr >= 0xe000 {
            old(memspace)@
        } else {
            old(memspace)@.update(addr as int, data)
        },
{
    if addr >= 0xe000 {
    } else {
        memspace[addr as usize] = data;
    }
}

} // verus!
