//! Byte-exact model of the kernel's TPACKET_V3 structures.
//!
//! Each block of the ring begins with a block descriptor; each packet
//! record within a block begins with a `Tpacket3Hdr`.  The kernel writes
//! these structures into the shared memory in native byte order; the
//! parsing functions here read them field by field from a byte buffer,
//! little-endian, matching the layout of the C structures on the
//! supported targets.

use vstd::pervasive::VecAdditionalExecFns;
use vstd::prelude::*;

verus! {

/// Status word value: the block is owned by the kernel.
pub const TP_STATUS_KERNEL: u32 = 0;

/// Status word value (bit 0): the block has been released to userspace.
pub const TP_STATUS_USER: u32 = 1;

/// `PACKET_VERSION` value selecting the TPACKET_V3 ring ABI.
pub const TPACKET_V3: i32 = 2;

/// Feature-request bit asking the kernel to fill the RX hash of each packet.
pub const TP_FT_REQ_FILL_RXHASH: u32 = 1;

/// Byte offset of the `block_status` word within a block descriptor.
pub const TP_BLK_STATUS_OFFSET: usize = 8;

/// Byte length of the block descriptor at the head of each block.
pub const BLOCK_DESC_LEN: usize = 48;

/// Byte length of one packet record header.
pub const PACKET_HDR_LEN: usize = 48;

/// Ring statistics as returned by `PACKET_STATISTICS`.
#[derive(Clone, Debug)]
pub struct TpacketStatsV3 {
    pub tp_packets: u32,
    pub tp_drops: u32,
    pub tp_freeze_q_cnt: u32,
}

/// Ring allocation request handed to the kernel with `PACKET_RX_RING`.
///
/// `tp_frame_size * tp_frame_nr` must equal `tp_block_size * tp_block_nr`;
/// the frame count is derived, not user-supplied.
#[derive(Clone, Debug)]
pub struct TpacketReq3 {
    /// Block size of ring
    pub tp_block_size: u32,
    /// Number of blocks allocated for ring
    pub tp_block_nr: u32,
    /// Frame size of ring
    pub tp_frame_size: u32,
    /// Number of frames in ring
    pub tp_frame_nr: u32,
    /// Timeout in milliseconds before the kernel retires a partial block
    pub tp_retire_blk_tov: u32,
    /// Offset to private data area
    pub tp_sizeof_priv: u32,
    /// Feature word; bit 0 asks the kernel to fill RXHASH
    pub tp_feature_req_word: u32,
}

impl TpacketReq3 {
    /// The default request: 32 KiB blocks, 10 000 of them, 2 KiB frames,
    /// 100 ms retire timeout, RX hash filled.
    pub open spec fn spec_default() -> TpacketReq3 {
        TpacketReq3 {
            tp_block_size: 32768,
            tp_block_nr: 10000,
            tp_frame_size: 2048,
            tp_frame_nr: 160000,
            tp_retire_blk_tov: 100,
            tp_sizeof_priv: 0,
            tp_feature_req_word: TP_FT_REQ_FILL_RXHASH,
        }
    }
}

/// `req` with its block size replaced.
pub open spec fn spec_req_with_block_size(req: TpacketReq3, size: u32) -> TpacketReq3 {
    TpacketReq3 { tp_block_size: size, ..req }
}

/// `req` with its block count replaced.
pub open spec fn spec_req_with_block_nr(req: TpacketReq3, count: u32) -> TpacketReq3 {
    TpacketReq3 { tp_block_nr: count, ..req }
}

/// `req` with its frame size replaced.
pub open spec fn spec_req_with_frame_size(req: TpacketReq3, size: u32) -> TpacketReq3 {
    TpacketReq3 { tp_frame_size: size, ..req }
}

/// `req` with its retire timeout replaced.
pub open spec fn spec_req_with_timeout(req: TpacketReq3, ms: u32) -> TpacketReq3 {
    TpacketReq3 { tp_retire_blk_tov: ms, ..req }
}

impl Default for TpacketReq3 {
    /// 32 KiB blocks, 10 000 of them, 2 KiB frames, 100 ms retire
    /// timeout, RX hash filled.
    fn default() -> (r: TpacketReq3)
        ensures
            r == TpacketReq3::spec_default(),
    {
        TpacketReq3 {
            tp_block_size: 32768,
            tp_block_nr: 10000,
            tp_frame_size: 2048,
            tp_frame_nr: 160000,
            tp_retire_blk_tov: 100,
            tp_sizeof_priv: 0,
            tp_feature_req_word: TP_FT_REQ_FILL_RXHASH,
        }
    }
}

/// The descriptor at offset 0 of every block.
#[derive(Clone, Debug)]
pub struct TpacketBlockDesc {
    pub version: u32,
    pub offset_to_priv: u32,
    pub hdr: TpacketBDHeader,
}

/// The header inside a block descriptor; `block_status` is the word the
/// kernel and userspace use to exchange ownership of the block.
#[derive(Clone, Debug)]
pub struct TpacketBDHeader {
    pub block_status: u32,
    pub num_pkts: u32,
    pub offset_to_first_pkt: u32,
    pub blk_len: u32,
    pub seq_num: u64,
    pub ts_first_pkt: TpacketBDTS,
    pub ts_last_pkt: TpacketBDTS,
}

/// A second/nanosecond timestamp pair.
#[derive(Clone, Debug)]
pub struct TpacketBDTS {
    pub ts_sec: u32,
    pub ts_nsec: u32,
}

/// Per-packet record header.
#[derive(Clone, Debug)]
pub struct Tpacket3Hdr {
    /// Byte offset from this record to the next one in the block
    pub tp_next_offset: u32,
    pub tp_sec: u32,
    pub tp_nsec: u32,
    /// Captured length
    pub tp_snaplen: u32,
    /// Length on the wire
    pub tp_len: u32,
    pub tp_status: u32,
    /// Offset from the record start to the MAC header (the payload)
    pub tp_mac: u16,
    /// Offset from the record start to the network header
    pub tp_net: u16,
    pub hv1: TpacketHdrVariant1,
}

/// RX hash and VLAN tags of a packet record (filled if requested).
#[derive(Clone, Debug)]
pub struct TpacketHdrVariant1 {
    pub tp_rxhash: u32,
    pub tp_vlan_tci: u32,
    pub tp_vlan_tpid: u16,
}

/// The little-endian `u16` held at byte offset `i` of `data`.
pub open spec fn spec_u16_at(data: Seq<u8>, i: int) -> u16
    recommends
        0 <= i,
        i + 2 <= data.len(),
{
    (data[i] as u16 + data[i + 1] as u16 * 0x100) as u16
}

/// The little-endian `u32` held at byte offset `i` of `data`.
pub open spec fn spec_u32_at(data: Seq<u8>, i: int) -> u32
    recommends
        0 <= i,
        i + 4 <= data.len(),
{
    (data[i] as u32 + data[i + 1] as u32 * 0x100 + data[i + 2] as u32 * 0x10000 + data[i + 3]
        as u32 * 0x1000000) as u32
}

/// The little-endian `u64` held at byte offset `i` of `data`.
pub open spec fn spec_u64_at(data: Seq<u8>, i: int) -> u64
    recommends
        0 <= i,
        i + 8 <= data.len(),
{
    (spec_u32_at(data, i) as u64 + spec_u32_at(data, i + 4) as u64 * 0x100000000) as u64
}

/// Reads the little-endian `u16` at byte offset `i`.
pub fn u16_at(data: &[u8], i: usize) -> (r: u16)
    requires
        i + 2 <= data@.len(),
    ensures
        r == spec_u16_at(data@, i as int),
{
    let _n: usize = data.len();
    let b0 = *vstd::slice::slice_index_get(data, i);
    let b1 = *vstd::slice::slice_index_get(data, i + 1);
    b0 as u16 + b1 as u16 * 0x100
}

/// Reads the little-endian `u32` at byte offset `i`.
pub fn u32_at(data: &[u8], i: usize) -> (r: u32)
    requires
        i + 4 <= data@.len(),
    ensures
        r == spec_u32_at(data@, i as int),
{
    let _n: usize = data.len();
    let b0 = *vstd::slice::slice_index_get(data, i);
    let b1 = *vstd::slice::slice_index_get(data, i + 1);
    let b2 = *vstd::slice::slice_index_get(data, i + 2);
    let b3 = *vstd::slice::slice_index_get(data, i + 3);
    b0 as u32 + b1 as u32 * 0x100 + b2 as u32 * 0x10000 + b3 as u32 * 0x1000000
}

/// Reads the little-endian `u64` at byte offset `i`.
pub fn u64_at(data: &[u8], i: usize) -> (r: u64)
    requires
        i + 8 <= data@.len(),
    ensures
        r == spec_u64_at(data@, i as int),
{
    let _n: usize = data.len();
    let lo = u32_at(data, i);
    let hi = u32_at(data, i + 4);
    lo as u64 + hi as u64 * 0x100000000
}

/// Writes `v` little-endian into the four bytes at offset `i`, leaving
/// every other byte as it was.
pub fn store_u32_at(data: &mut Vec<u8>, i: usize, v: u32)
    requires
        i + 4 <= old(data)@.len(),
    ensures
        final(data)@.len() == old(data)@.len(),
        spec_u32_at(final(data)@, i as int) == v,
        forall|j: int|
            0 <= j < old(data)@.len() && !(i <= j < i + 4) ==> final(data)@[j] == old(data)@[j],
{
    let _n: usize = data.len();
    let b0: u8 = (v % 0x100) as u8;
    let b1: u8 = ((v / 0x100) % 0x100) as u8;
    let b2: u8 = ((v / 0x10000) % 0x100) as u8;
    let b3: u8 = (v / 0x1000000) as u8;
    data.set(i, b0);
    data.set(i + 1, b1);
    data.set(i + 2, b2);
    data.set(i + 3, b3);
    proof {
        assert(b0 + b1 * 0x100 + b2 * 0x10000 + b3 * 0x1000000 == v) by (nonlinear_arith)
            requires
                b0 == v % 0x100,
                b1 == (v / 0x100) % 0x100,
                b2 == (v / 0x10000) % 0x100,
                b3 == v / 0x1000000,
        ;
    }
}

/// The block descriptor encoded at byte offset 0 of a block's bytes.
pub open spec fn spec_block_desc(data: Seq<u8>) -> TpacketBlockDesc
    recommends
        BLOCK_DESC_LEN <= data.len(),
{
    TpacketBlockDesc {
        version: spec_u32_at(data, 0),
        offset_to_priv: spec_u32_at(data, 4),
        hdr: TpacketBDHeader {
            block_status: spec_u32_at(data, 8),
            num_pkts: spec_u32_at(data, 12),
            offset_to_first_pkt: spec_u32_at(data, 16),
            blk_len: spec_u32_at(data, 20),
            seq_num: spec_u64_at(data, 24),
            ts_first_pkt: TpacketBDTS {
                ts_sec: spec_u32_at(data, 32),
                ts_nsec: spec_u32_at(data, 36),
            },
            ts_last_pkt: TpacketBDTS {
                ts_sec: spec_u32_at(data, 40),
                ts_nsec: spec_u32_at(data, 44),
            },
        },
    }
}

/// Parses the block descriptor at the head of a block's bytes.
pub fn parse_block_desc(data: &[u8]) -> (r: TpacketBlockDesc)
    requires
        BLOCK_DESC_LEN <= data@.len(),
    ensures
        r == spec_block_desc(data@),
{
    TpacketBlockDesc {
        version: u32_at(data, 0),
        offset_to_priv: u32_at(data, 4),
        hdr: TpacketBDHeader {
            block_status: u32_at(data, 8),
            num_pkts: u32_at(data, 12),
            offset_to_first_pkt: u32_at(data, 16),
            blk_len: u32_at(data, 20),
            seq_num: u64_at(data, 24),
            ts_first_pkt: TpacketBDTS { ts_sec: u32_at(data, 32), ts_nsec: u32_at(data, 36) },
            ts_last_pkt: TpacketBDTS { ts_sec: u32_at(data, 40), ts_nsec: u32_at(data, 44) },
        },
    }
}

/// The packet record header encoded at byte offset `off` of a block's bytes.
pub open spec fn spec_packet_hdr(data: Seq<u8>, off: int) -> Tpacket3Hdr
    recommends
        0 <= off,
        off + PACKET_HDR_LEN <= data.len(),
{
    Tpacket3Hdr {
        tp_next_offset: spec_u32_at(data, off),
        tp_sec: spec_u32_at(data, off + 4),
        tp_nsec: spec_u32_at(data, off + 8),
        tp_snaplen: spec_u32_at(data, off + 12),
        tp_len: spec_u32_at(data, off + 16),
        tp_status: spec_u32_at(data, off + 20),
        tp_mac: spec_u16_at(data, off + 24),
        tp_net: spec_u16_at(data, off + 26),
        hv1: TpacketHdrVariant1 {
            tp_rxhash: spec_u32_at(data, off + 28),
            tp_vlan_tci: spec_u32_at(data, off + 32),
            tp_vlan_tpid: spec_u16_at(data, off + 36),
        },
    }
}

/// Parses the packet record header at byte offset `off`.
pub fn parse_packet_hdr(data: &[u8], off: usize) -> (r: Tpacket3Hdr)
    requires
        off + PACKET_HDR_LEN <= data@.len(),
    ensures
        r == spec_packet_hdr(data@, off as int),
{
    let _n: usize = data.len();
    Tpacket3Hdr {
        tp_next_offset: u32_at(data, off),
        tp_sec: u32_at(data, off + 4),
        tp_nsec: u32_at(data, off + 8),
        tp_snaplen: u32_at(data, off + 12),
        tp_len: u32_at(data, off + 16),
        tp_status: u32_at(data, off + 20),
        tp_mac: u16_at(data, off + 24),
        tp_net: u16_at(data, off + 26),
        hv1: TpacketHdrVariant1 {
            tp_rxhash: u32_at(data, off + 28),
            tp_vlan_tci: u32_at(data, off + 32),
            tp_vlan_tpid: u16_at(data, off + 36),
        },
    }
}

} // verus!
