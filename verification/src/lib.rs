//! Zero-copy packet capture over the Linux TPACKET_V3 memory-mapped ring.
//!
//! The kernel delivers received frames into a shared ring of fixed-size
//! blocks; userspace walks the packet records of a block and returns the
//! block by flipping its status word.  This crate holds the verified core
//! of that protocol: the byte-exact kernel structure layouts, the packet
//! offset chain, the ring cursor state machine, and the socket-option
//! derivations.  The thin unverified shell that performs the actual
//! system calls lives outside the library and consults these functions
//! for every decision it takes.

use vstd::prelude::*;

pub mod rx;
pub mod socket;
pub mod tpacket3;

verus! {

/// Errors the library itself can detect; OS-level failures are reported by
/// the unverified shell that performs the system calls.
#[derive(Clone, Copy, Debug, PartialEq, Eq, Structural)]
pub enum RingError {
    /// An interface name does not fit an `ifreq` name buffer.
    IfNameTooLong,
    /// An interface name holds an interior nul byte.
    IfNameNul,
    /// A ring was assembled from a block vector whose length does not
    /// match the configured block count.
    BlockCountMismatch,
}

/// The identifier a process installs with `PACKET_FANOUT`: the low 16 bits
/// are the process id, the high 16 bits the fan-out mode.  All sockets of
/// one process that install the same identifier join one fan-out group.
pub fn fanout_id(pid: u32, fanout_method: u32) -> (r: u32)
    requires
        fanout_method < 0x10000,
    ensures
        r == (pid & 0xFFFF) | (fanout_method << 16u32),
{
    (pid & 0xFFFF) | (fanout_method << 16u32)
}

/// Fan-out id format: the identifier splits as documented — its high
/// 16 bits are the selected mode and its low 16 bits are the process
/// id's low 16 bits.
pub proof fn lemma_fanout_id_format(pid: u32, fanout_method: u32)
    requires
        fanout_method < 0x10000,
    ensures
        ((pid & 0xFFFF) | (fanout_method << 16u32)) >> 16u32 == fanout_method,
        ((pid & 0xFFFF) | (fanout_method << 16u32)) & 0xFFFF == pid & 0xFFFF,
{
    assert(fanout_method < 0x10000 ==> ((pid & 0xFFFF) | (fanout_method << 16u32)) >> 16u32
        == fanout_method) by (bit_vector);
    assert((((pid & 0xFFFF) | (fanout_method << 16u32)) & 0xFFFF) == (pid & 0xFFFF))
        by (bit_vector);
}

} // verus!
