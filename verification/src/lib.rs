#![verifier::loop_isolation(false)]
//! A verified NMOS 6502 microcomputer core in the Apple 1 configuration:
//! a cycle-counting CPU interpreter, a segmented bus with memory-mapped
//! peripheral hooks, and the PIA bridge that couples bus traffic to a
//! character terminal.

pub mod bus;
pub mod cpu;
pub mod laws;
pub mod mem;
pub mod op;
pub mod terminal;

use vstd::prelude::*;

verus! {

/// The page of an address: two addresses share a page when their high bytes agree.
pub open spec fn page_of(addr: u16) -> int {
    addr as int / 256
}

} // verus!
