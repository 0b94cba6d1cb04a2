//! The receive path: the ring of kernel-filled blocks, the cursor state
//! machine that hands blocks to the consumer, and the packet-record walk
//! within one block.
//!
//! The ring's memory is shared with the kernel in the running system; the
//! unverified shell maps it and reproduces every decision made here on
//! the mapped bytes.  Within the library a block is a plain byte buffer,
//! which is also exactly what a test feeds in.

use vstd::pervasive::VecAdditionalExecFns;
use vstd::prelude::*;
use vstd::slice::slice_subrange;

use crate::socket::FilterProgram;
use crate::tpacket3::{
    parse_block_desc, parse_packet_hdr, spec_block_desc, spec_packet_hdr, spec_u32_at,
    store_u32_at, Tpacket3Hdr, TpacketBDHeader, TpacketBlockDesc, TpacketReq3, BLOCK_DESC_LEN,
    PACKET_HDR_LEN, TP_BLK_STATUS_OFFSET, TP_STATUS_KERNEL, TP_STATUS_USER,
};
use crate::RingError;

verus! {

/// `setsockopt` option number requesting an RX ring.
pub const PACKET_RX_RING: i32 = 5;

/// `setsockopt` option number reading ring statistics.
pub const PACKET_STATISTICS: i32 = 6;

/// `setsockopt` option number selecting the ring ABI version.
pub const PACKET_VERSION: i32 = 10;

/// `setsockopt` option number installing a fan-out group.
pub const PACKET_FANOUT: i32 = 18;

/// Fan-out mode: hash of the flow, pinning each flow to one ring.
pub const PACKET_FANOUT_HASH: i32 = 0;

/// Fan-out mode: round-robin load balancing across the group.
pub const PACKET_FANOUT_LB: i32 = 1;

/// Fan-out mode: by the CPU the packet arrived on.
pub const PACKET_FANOUT_CPU: i32 = 2;

/// The largest offset the record walk accepts: record and payload
/// offsets must stay within the positive range of a 32-bit signed
/// integer.
pub const MAX_PKT_OFFSET: usize = 0x7FFFFFFF;

/// What must hold of the record at byte offset `off` of a block's record
/// area for it to be read: the offset is neither zero nor past the area,
/// the fixed header fits, the payload start is inside the area, and both
/// stay within the signed 32-bit range.
pub open spec fn spec_record_ok(data: Seq<u8>, off: int) -> bool {
    &&& 0 < off
    &&& off + PACKET_HDR_LEN <= data.len()
    &&& off + PACKET_HDR_LEN <= MAX_PKT_OFFSET
    &&& off + spec_packet_hdr(data, off).tp_mac <= data.len()
    &&& off + spec_packet_hdr(data, off).tp_mac <= MAX_PKT_OFFSET
}

/// The chain of `remaining` records starting at offset `off` is walkable:
/// each record in turn satisfies [`spec_record_ok`], each non-final one
/// leading to the next through its `tp_next_offset`.  The final record's
/// `tp_next_offset` is not followed.
pub open spec fn spec_chain_ok(data: Seq<u8>, off: int, remaining: nat) -> bool
    decreases remaining,
{
    remaining == 0 || (spec_record_ok(data, off) && (remaining == 1 || spec_chain_ok(
        data,
        off + spec_packet_hdr(data, off).tp_next_offset,
        (remaining - 1) as nat,
    )))
}

/// The byte offset of record `i` of the chain that starts at `first`:
/// each record stands `tp_next_offset` bytes after its predecessor.
pub open spec fn spec_offset_at(data: Seq<u8>, first: int, i: nat) -> int
    decreases i,
{
    if i == 0 {
        first
    } else {
        let prev = spec_offset_at(data, first, (i - 1) as nat);
        prev + spec_packet_hdr(data, prev).tp_next_offset
    }
}

/// Offset chaining, stated on its own: the offset of record `i + 1` is
/// the offset of record `i` plus that record's `tp_next_offset`.  Nothing
/// constrains where the final record's `tp_next_offset` would point.
pub proof fn lemma_offset_chaining(data: Seq<u8>, first: int, i: nat)
    ensures
        spec_offset_at(data, first, i + 1) == spec_offset_at(data, first, i) + spec_packet_hdr(
            data,
            spec_offset_at(data, first, i),
        ).tp_next_offset,
{
}

proof fn lemma_offset_at_shift(data: Seq<u8>, first: int, i: nat)
    requires
        i >= 1,
    ensures
        spec_offset_at(data, first, i) == spec_offset_at(
            data,
            first + spec_packet_hdr(data, first).tp_next_offset,
            (i - 1) as nat,
        ),
    decreases i,
{
    let next = first + spec_packet_hdr(data, first).tp_next_offset;
    assert(spec_offset_at(data, first, 0) == first);
    assert(spec_offset_at(data, next, 0) == next);
    if i == 1 {
        assert(spec_offset_at(data, first, 1) == next);
        assert(spec_offset_at(data, next, 0) == next);
    } else {
        lemma_offset_at_shift(data, first, (i - 1) as nat);
        let prev = spec_offset_at(data, first, (i - 1) as nat);
        assert(spec_offset_at(data, first, i) == prev + spec_packet_hdr(data, prev).tp_next_offset);
        assert(spec_offset_at(data, next, (i - 1) as nat) == spec_offset_at(
            data,
            next,
            (i - 2) as nat,
        ) + spec_packet_hdr(data, spec_offset_at(data, next, (i - 2) as nat)).tp_next_offset);
    }
}

/// A walkable chain has every one of its records in range: the header of
/// record `i` lies within the record area, and the payload that starts
/// `tp_mac` bytes into the record is a valid subslice of the area.
pub proof fn lemma_chain_records_ok(data: Seq<u8>, first: int, n: nat, i: nat)
    requires
        spec_chain_ok(data, first, n),
        i < n,
    ensures
        spec_record_ok(data, spec_offset_at(data, first, i)),
    decreases i,
{
    if i == 0 {
    } else {
        let next = first + spec_packet_hdr(data, first).tp_next_offset;
        lemma_offset_at_shift(data, first, i);
        lemma_chain_records_ok(data, next, (n - 1) as nat, (i - 1) as nat);
    }
}

/// Decides [`spec_chain_ok`] at run time: whether `count` packet
/// records starting at byte offset `first_offset` can be walked within
/// `area`.
pub fn chain_valid(area: &[u8], first_offset: u32, count: u32) -> (r: bool)
    ensures
        r == spec_chain_ok(area@, first_offset as int, count as nat),
{
    let n = count;
    if n == 0 {
        return true;
    }
    let ghost first = first_offset as int;
    let mut off: usize = first_offset as usize;
    let mut i: u32 = 0;
    while i < n
        invariant
            n == count,
            first == first_offset as int,
            0 <= i <= n,
            spec_chain_ok(area@, first, n as nat) <==> spec_chain_ok(
                area@,
                off as int,
                (n - i) as nat,
            ),
        decreases n - i,
    {
        if off == 0 {
            return false;
        }
        if area.len() < PACKET_HDR_LEN || off > area.len() - PACKET_HDR_LEN {
            return false;
        }
        if off > MAX_PKT_OFFSET - PACKET_HDR_LEN {
            return false;
        }
        let hdr = parse_packet_hdr(area, off);
        let mac = hdr.tp_mac as usize;
        if off + mac > area.len() {
            return false;
        }
        if off + mac > MAX_PKT_OFFSET {
            return false;
        }
        assert(spec_record_ok(area@, off as int));
        if i + 1 < n {
            let next64: u64 = off as u64 + hdr.tp_next_offset as u64;
            if next64 > MAX_PKT_OFFSET as u64 {
                proof {
                    let rem = (n - i) as nat;
                    let next = off + spec_packet_hdr(area@, off as int).tp_next_offset;
                    assert(!spec_record_ok(area@, next));
                    assert(rem >= 2);
                    assert(!spec_chain_ok(area@, next, (rem - 1) as nat));
                    assert(!spec_chain_ok(area@, off as int, rem));
                }
                return false;
            }
            off = next64 as usize;
        }
        i = i + 1;
    }
    true
}

/// A block's bytes carry a readable descriptor and its status word has
/// the `TP_STATUS_USER` bit: the kernel has released the block.
pub open spec fn spec_block_ready(d: Seq<u8>) -> bool {
    d.len() >= BLOCK_DESC_LEN && (spec_u32_at(d, TP_BLK_STATUS_OFFSET as int) & TP_STATUS_USER)
        != 0
}

/// One slot of the ring: the bytes of one kernel block.  In the running
/// system these bytes live in the shared mapping; here the slot owns
/// them, and handing a block out moves them to the consumer.
#[derive(Debug)]
pub struct RawBlock {
    data: Vec<u8>,
}

impl RawBlock {
    pub closed spec fn spec_data(&self) -> Seq<u8> {
        self.data@
    }

    pub fn new(data: Vec<u8>) -> (r: RawBlock)
        ensures
            r.spec_data() == data@,
    {
        RawBlock { data }
    }

    /// Whether the kernel has released this block to userspace.
    pub fn is_ready(&self) -> (r: bool)
        ensures
            r == spec_block_ready(self.spec_data()),
    {
        self.data.len() >= BLOCK_DESC_LEN && (crate::tpacket3::u32_at(
            self.data.as_slice(),
            TP_BLK_STATUS_OFFSET,
        ) & TP_STATUS_USER) != 0
    }
}

/// `d` with its `block_status` replaced by `status`.
pub open spec fn spec_desc_with_status(d: TpacketBlockDesc, status: u32) -> TpacketBlockDesc {
    TpacketBlockDesc {
        version: d.version,
        offset_to_priv: d.offset_to_priv,
        hdr: TpacketBDHeader {
            block_status: status,
            num_pkts: d.hdr.num_pkts,
            offset_to_first_pkt: d.hdr.offset_to_first_pkt,
            blk_len: d.hdr.blk_len,
            seq_num: d.hdr.seq_num,
            ts_first_pkt: d.hdr.ts_first_pkt,
            ts_last_pkt: d.hdr.ts_last_pkt,
        },
    }
}

/// One block held by the consumer: its bytes, the descriptor parsed from
/// them at hand-out time, and the ring slot it came from.
#[derive(Debug)]
pub struct Block {
    desc: TpacketBlockDesc,
    data: Vec<u8>,
    idx: u32,
}

impl Block {
    pub closed spec fn spec_desc(&self) -> TpacketBlockDesc {
        self.desc
    }

    pub closed spec fn spec_data(&self) -> Seq<u8> {
        self.data@
    }

    pub closed spec fn spec_idx(&self) -> u32 {
        self.idx
    }

    /// The status word as it stands in the block's bytes — what the
    /// kernel side of the exchange observes.
    pub open spec fn spec_status(&self) -> u32 {
        spec_u32_at(self.spec_data(), TP_BLK_STATUS_OFFSET as int)
    }

    /// The bytes are long enough to hold the descriptor.  Every block a
    /// ring hands out satisfies this.
    pub open spec fn wf(&self) -> bool {
        self.spec_data().len() >= BLOCK_DESC_LEN
    }

    /// The record area: the first `blk_len` bytes of the block, which is
    /// the span the packet walk may touch.
    pub open spec fn spec_record_area(&self) -> Seq<u8> {
        self.spec_data().subrange(0, self.spec_desc().hdr.blk_len as int)
    }

    /// The packet walk can run to exhaustion without leaving the record
    /// area: the block's stated length fits its bytes and the offset
    /// chain of its `num_pkts` records is walkable.
    pub open spec fn packets_wf(&self) -> bool {
        &&& self.wf()
        &&& self.spec_desc().hdr.blk_len <= self.spec_data().len()
        &&& (self.spec_desc().hdr.num_pkts > 0 ==> spec_chain_ok(
            self.spec_record_area(),
            self.spec_desc().hdr.offset_to_first_pkt as int,
            self.spec_desc().hdr.num_pkts as nat,
        ))
    }

    /// The block descriptor as parsed when the block was handed out.
    pub fn desc(&self) -> (r: &TpacketBlockDesc)
        ensures
            *r == self.spec_desc(),
    {
        &self.desc
    }

    /// Mutable access to the consumer's copy of the descriptor.  Writing
    /// through it does not reach the block's bytes; only [`Self::consume`]
    /// writes those.
    pub fn desc_mut(&mut self) -> (r: &mut TpacketBlockDesc)
        ensures
            *r == old(self).spec_desc(),
            *final(r) == final(self).spec_desc(),
            final(self).spec_data() == old(self).spec_data(),
            final(self).spec_idx() == old(self).spec_idx(),
    {
        &mut self.desc
    }

    /// The ring slot this block was handed out from.
    pub fn ring_index(&self) -> (r: u32)
        ensures
            r == self.spec_idx(),
    {
        self.idx
    }

    /// Marks the block consumed: writes `TP_STATUS_KERNEL` into the
    /// status word of the block's bytes, returning ownership to the
    /// kernel, and mirrors that into the descriptor copy.  Every other
    /// byte of the block is untouched.
    pub fn consume(&mut self)
        requires
            old(self).wf(),
        ensures
            final(self).wf(),
            final(self).spec_idx() == old(self).spec_idx(),
            final(self).spec_desc() == spec_desc_with_status(
                old(self).spec_desc(),
                TP_STATUS_KERNEL,
            ),
            final(self).spec_data().len() == old(self).spec_data().len(),
            final(self).spec_status() == TP_STATUS_KERNEL,
            forall|j: int|
                0 <= j < old(self).spec_data().len() && !(TP_BLK_STATUS_OFFSET <= j
                    < TP_BLK_STATUS_OFFSET + 4) ==> final(self).spec_data()[j] == old(
                    self,
                ).spec_data()[j],
    {
        self.desc.hdr.block_status = TP_STATUS_KERNEL;
        store_u32_at(&mut self.data, TP_BLK_STATUS_OFFSET, TP_STATUS_KERNEL);
    }

    /// Decides [`Self::packets_wf`] at run time by walking the offset
    /// chain once: whether the packet walk can run to exhaustion within
    /// the record area.
    pub fn packets_valid(&self) -> (r: bool)
        ensures
            r == self.packets_wf(),
    {
        if self.data.len() < BLOCK_DESC_LEN {
            return false;
        }
        let blk_len = self.desc.hdr.blk_len as usize;
        if blk_len > self.data.len() {
            return false;
        }
        let area = slice_subrange(self.data.as_slice(), 0, blk_len);
        if self.desc.hdr.num_pkts == 0 {
            return true;
        }
        chain_valid(area, self.desc.hdr.offset_to_first_pkt, self.desc.hdr.num_pkts)
    }

    /// A non-consuming walk over the block's packet records.
    pub fn raw_packets_iter<'a>(&'a self) -> (it: RawPacketIter<'a>)
        requires
            self.packets_wf(),
        ensures
            it.wf(),
            it.spec_raw_data() == self.spec_record_area(),
            it.spec_count() == self.spec_desc().hdr.num_pkts,
            it.spec_cur_idx() == 0,
            it.spec_next_offset() == self.spec_desc().hdr.offset_to_first_pkt,
            it.spec_pending() is None,
    {
        let blk_len = self.desc.hdr.blk_len as usize;
        RawPacketIter {
            raw_data: slice_subrange(self.data.as_slice(), 0, blk_len),
            next_offset: self.desc.hdr.offset_to_first_pkt as usize,
            cur_next_offset: None,
            cur_idx: 0,
            count: self.desc.hdr.num_pkts,
        }
    }

    /// All `num_pkts` packet records of the block, in kernel order:
    /// record `i` stands at the chain offset of index `i`, and its
    /// payload starts `tp_mac` bytes into the record.
    pub fn get_raw_packets<'a>(&'a self) -> (r: Vec<RawPacket<'a>>)
        requires
            self.packets_wf(),
        ensures
            r@.len() == self.spec_desc().hdr.num_pkts,
            forall|i: int|
                0 <= i < r@.len() ==> (#[trigger] r@[i]).spec_header() == spec_packet_hdr(
                    self.spec_record_area(),
                    spec_offset_at(
                        self.spec_record_area(),
                        self.spec_desc().hdr.offset_to_first_pkt as int,
                        i as nat,
                    ),
                ),
            forall|i: int|
                0 <= i < r@.len() ==> (#[trigger] r@[i]).spec_payload()
                    == self.spec_record_area().subrange(
                    spec_offset_at(
                        self.spec_record_area(),
                        self.spec_desc().hdr.offset_to_first_pkt as int,
                        i as nat,
                    ) + r@[i].spec_header().tp_mac,
                    self.spec_record_area().len() as int,
                ),
    {
        let ghost area = self.spec_record_area();
        let ghost first = self.spec_desc().hdr.offset_to_first_pkt as int;
        let mut it = self.raw_packets_iter();
        let mut out: Vec<RawPacket<'a>> = Vec::new();
        while it.cur_idx < it.count
            invariant
                it.wf(),
                it.spec_raw_data() == area,
                area == self.spec_record_area(),
                first == self.spec_desc().hdr.offset_to_first_pkt as int,
                it.spec_count() == self.spec_desc().hdr.num_pkts,
                out@.len() == it.spec_cur_idx(),
                it.spec_cur_idx() < it.spec_count() ==> it.spec_next_offset() == spec_offset_at(
                    area,
                    first,
                    it.spec_cur_idx() as nat,
                ),
                forall|i: int|
                    0 <= i < out@.len() ==> (#[trigger] out@[i]).spec_header() == spec_packet_hdr(
                        area,
                        spec_offset_at(area, first, i as nat),
                    ),
                forall|i: int|
                    0 <= i < out@.len() ==> (#[trigger] out@[i]).spec_payload() == area.subrange(
                        spec_offset_at(area, first, i as nat) + out@[i].spec_header().tp_mac,
                        area.len() as int,
                    ),
            decreases it.spec_count() - it.spec_cur_idx(),
        {
            let ghost k = it.spec_cur_idx();
            match it.next() {
                Some(p) => {
                    proof {
                        if k + 1 < it.spec_count() {
                            assert(spec_offset_at(area, first, (k + 1) as nat) == spec_offset_at(
                                area,
                                first,
                                k as nat,
                            ) + spec_packet_hdr(
                                area,
                                spec_offset_at(area, first, k as nat),
                            ).tp_next_offset);
                        }
                    }
                    out.push(p);
                },
                None => {
                    proof {
                        assert(false);
                    }
                },
            }
        }
        out
    }

    /// Converts the block into a walk that yields its packet records
    /// and, once finished, hands the block back marked consumed.
    pub fn into_raw_packets_iter(self) -> (it: RawPacketsConsumingIter)
        requires
            self.packets_wf(),
        ensures
            it.wf(),
            it.spec_block() == self,
            it.spec_count() == self.spec_desc().hdr.num_pkts,
            it.spec_cur_idx() == 0,
            it.spec_next_offset() == self.spec_desc().hdr.offset_to_first_pkt,
            it.spec_pending() is None,
    {
        let next_offset = self.desc.hdr.offset_to_first_pkt as usize;
        let count = self.desc.hdr.num_pkts;
        RawPacketsConsumingIter { block: self, next_offset, cur_next_offset: None, cur_idx: 0, count }
    }
}

/// The packet walk that owns its block.  In the running system the
/// shell drops one of these to return the block to the kernel; here the
/// walk ends with [`RawPacketsConsumingIter::into_block`], which marks
/// the block consumed, and the block goes back to the ring explicitly.
#[derive(Debug)]
pub struct RawPacketsConsumingIter {
    block: Block,
    next_offset: usize,
    cur_next_offset: Option<usize>,
    cur_idx: u32,
    count: u32,
}

impl RawPacketsConsumingIter {
    pub closed spec fn spec_block(&self) -> Block {
        self.block
    }

    pub closed spec fn spec_next_offset(&self) -> int {
        self.next_offset as int
    }

    pub closed spec fn spec_pending(&self) -> Option<usize> {
        self.cur_next_offset
    }

    pub closed spec fn spec_cur_idx(&self) -> int {
        self.cur_idx as int
    }

    pub closed spec fn spec_count(&self) -> int {
        self.count as int
    }

    /// The record area of the owned block.
    pub open spec fn spec_area(&self) -> Seq<u8> {
        self.spec_block().spec_record_area()
    }

    /// As [`RawPacketIter::wf`], over the owned block's record area.
    pub open spec fn wf(&self) -> bool {
        &&& self.spec_block().wf()
        &&& self.spec_block().spec_desc().hdr.blk_len <= self.spec_block().spec_data().len()
        &&& self.spec_cur_idx() <= self.spec_count()
        &&& (self.spec_cur_idx() < self.spec_count() ==> spec_chain_ok(
            self.spec_area(),
            self.spec_next_offset(),
            (self.spec_count() - self.spec_cur_idx()) as nat,
        ))
        &&& match self.spec_pending() {
            Some(no) => self.spec_cur_idx() < self.spec_count() && no == spec_step_offset(
                self.spec_area(),
                self.spec_next_offset(),
                self.spec_cur_idx() + 1 == self.spec_count(),
            ),
            None => true,
        }
    }

    /// The walk is complete: every record has been yielded.
    pub fn is_last(&self) -> (r: bool)
        ensures
            r == (self.spec_cur_idx() == self.spec_count()),
    {
        self.cur_idx == self.count
    }

    /// The owned block, for inspection while the walk is under way; its
    /// bytes — the status word included — stay as they were handed out
    /// until [`Self::into_block`] marks them consumed.
    pub fn block(&self) -> (r: &Block)
        ensures
            *r == self.spec_block(),
    {
        &self.block
    }

    /// Yields the record at the current position and advances past it;
    /// `None` once all `count` records have been yielded.  The block's
    /// bytes are not touched.
    pub fn next<'b>(&'b mut self) -> (r: Option<RawPacket<'b>>)
        requires
            old(self).wf(),
        ensures
            final(self).wf(),
            final(self).spec_block() == old(self).spec_block(),
            final(self).spec_count() == old(self).spec_count(),
            match r {
                Some(p) => {
                    &&& old(self).spec_cur_idx() < old(self).spec_count()
                    &&& p.spec_header() == spec_packet_hdr(
                        old(self).spec_area(),
                        old(self).spec_next_offset(),
                    )
                    &&& p.spec_payload() == old(self).spec_area().subrange(
                        old(self).spec_next_offset() + p.spec_header().tp_mac,
                        old(self).spec_area().len() as int,
                    )
                    &&& final(self).spec_cur_idx() == old(self).spec_cur_idx() + 1
                    &&& final(self).spec_next_offset() == spec_step_offset(
                        old(self).spec_area(),
                        old(self).spec_next_offset(),
                        old(self).spec_cur_idx() + 1 == old(self).spec_count(),
                    )
                    &&& final(self).spec_pending() is None
                },
                None => {
                    &&& old(self).spec_cur_idx() >= old(self).spec_count()
                    &&& final(self).spec_cur_idx() == old(self).spec_cur_idx()
                    &&& final(self).spec_next_offset() == old(self).spec_next_offset()
                },
            },
    {
        if self.cur_idx >= self.count {
            return None;
        }
        let ghost rem = (self.count - self.cur_idx) as nat;
        proof {
            assert(spec_chain_ok(self.spec_area(), self.next_offset as int, rem));
            assert(spec_record_ok(self.spec_area(), self.next_offset as int));
        }
        let blk_len = self.block.desc.hdr.blk_len as usize;
        let area = slice_subrange(self.block.data.as_slice(), 0, blk_len);
        let n: usize = area.len();
        let off = self.next_offset;
        let header = parse_packet_hdr(area, off);
        let is_final = self.cur_idx == self.count - 1;
        let next_offset: usize = if !is_final {
            proof {
                assert(spec_chain_ok(
                    area@,
                    off + spec_packet_hdr(area@, off as int).tp_next_offset,
                    (rem - 1) as nat,
                ));
                assert(spec_record_ok(
                    area@,
                    off + spec_packet_hdr(area@, off as int).tp_next_offset,
                ));
            }
            off + header.tp_next_offset as usize
        } else {
            n
        };
        let payload_offset = off + header.tp_mac as usize;
        let payload = slice_subrange(area, payload_offset, n);
        self.cur_next_offset = None;
        self.next_offset = next_offset;
        self.cur_idx = self.cur_idx + 1;
        Some(RawPacket { header, payload })
    }

    /// Ends the walk: marks the owned block consumed — its status word
    /// becomes `TP_STATUS_KERNEL` — and hands it back, ready to be
    /// returned to its ring slot.
    pub fn into_block(self) -> (b: Block)
        requires
            self.spec_block().wf(),
        ensures
            b.wf(),
            b.spec_idx() == self.spec_block().spec_idx(),
            b.spec_desc() == spec_desc_with_status(
                self.spec_block().spec_desc(),
                TP_STATUS_KERNEL,
            ),
            b.spec_status() == TP_STATUS_KERNEL,
            b.spec_data().len() == self.spec_block().spec_data().len(),
            forall|j: int|
                0 <= j < self.spec_block().spec_data().len() && !(TP_BLK_STATUS_OFFSET <= j
                    < TP_BLK_STATUS_OFFSET + 4) ==> b.spec_data()[j]
                    == self.spec_block().spec_data()[j],
    {
        let RawPacketsConsumingIter {
            block,
            next_offset: _,
            cur_next_offset: _,
            cur_idx: _,
            count: _,
        } = self;
        let mut b = block;
        b.consume();
        b
    }
}

/// The offset the walk moves to after the record at `off`: past the
/// final record it is the record area's length (a sentinel that is never
/// read); otherwise the record's `tp_next_offset` is added.
pub open spec fn spec_step_offset(data: Seq<u8>, off: int, is_final: bool) -> int {
    if is_final {
        data.len() as int
    } else {
        off + spec_packet_hdr(data, off).tp_next_offset
    }
}

/// One packet record: its parsed header and its payload, a borrowed
/// slice of the block running from the MAC header to the record area's
/// end.
#[derive(Debug)]
pub struct RawPacket<'a> {
    header: Tpacket3Hdr,
    payload: &'a [u8],
}

impl<'a> RawPacket<'a> {
    pub closed spec fn spec_header(&self) -> Tpacket3Hdr {
        self.header
    }

    pub closed spec fn spec_payload(&self) -> Seq<u8> {
        self.payload@
    }

    /// The record's fixed-size header.
    pub fn header(&self) -> (r: &Tpacket3Hdr)
        ensures
            *r == self.spec_header(),
    {
        &self.header
    }

    /// The raw packet bytes, starting at the MAC header.
    pub fn payload(&self) -> (r: &'a [u8])
        ensures
            r@ == self.spec_payload(),
    {
        self.payload
    }
}

/// A walk over the packet records of one block: the record area, the
/// offset of the record to read next, the stashed offset a pending read
/// computed, and how many records of `count` have been passed.
#[derive(Debug)]
pub struct RawPacketIter<'a> {
    raw_data: &'a [u8],
    next_offset: usize,
    cur_next_offset: Option<usize>,
    cur_idx: u32,
    count: u32,
}

impl<'a> RawPacketIter<'a> {
    pub closed spec fn spec_raw_data(&self) -> Seq<u8> {
        self.raw_data@
    }

    pub closed spec fn spec_next_offset(&self) -> int {
        self.next_offset as int
    }

    pub closed spec fn spec_pending(&self) -> Option<usize> {
        self.cur_next_offset
    }

    pub closed spec fn spec_cur_idx(&self) -> int {
        self.cur_idx as int
    }

    pub closed spec fn spec_count(&self) -> int {
        self.count as int
    }

    /// The walk can continue: the records still ahead form a walkable
    /// chain, and a stashed offset, if any, is the one the pending read
    /// computed.
    pub open spec fn wf(&self) -> bool {
        &&& self.spec_cur_idx() <= self.spec_count()
        &&& (self.spec_cur_idx() < self.spec_count() ==> spec_chain_ok(
            self.spec_raw_data(),
            self.spec_next_offset(),
            (self.spec_count() - self.spec_cur_idx()) as nat,
        ))
        &&& match self.spec_pending() {
            Some(no) => self.spec_cur_idx() < self.spec_count() && no == spec_step_offset(
                self.spec_raw_data(),
                self.spec_next_offset(),
                self.spec_cur_idx() + 1 == self.spec_count(),
            ),
            None => true,
        }
    }

    /// The walk is complete: every record has been yielded.
    pub fn is_last(&self) -> (r: bool)
        ensures
            r == (self.spec_cur_idx() == self.spec_count()),
    {
        self.cur_idx == self.count
    }

    /// Reads the record at the current position without advancing,
    /// stashing the offset the walk will move to.
    pub fn current(&mut self) -> (r: Option<RawPacket<'a>>)
        requires
            old(self).wf(),
        ensures
            final(self).wf(),
            final(self).spec_raw_data() == old(self).spec_raw_data(),
            final(self).spec_count() == old(self).spec_count(),
            final(self).spec_cur_idx() == old(self).spec_cur_idx(),
            final(self).spec_next_offset() == old(self).spec_next_offset(),
            old(self).spec_cur_idx() >= old(self).spec_count() ==> (r is None
                && final(self).spec_pending() == old(self).spec_pending()),
            old(self).spec_cur_idx() < old(self).spec_count() ==> match r {
                Some(p) => {
                    &&& p.spec_header() == spec_packet_hdr(
                        old(self).spec_raw_data(),
                        old(self).spec_next_offset(),
                    )
                    &&& p.spec_payload() == old(self).spec_raw_data().subrange(
                        old(self).spec_next_offset() + p.spec_header().tp_mac,
                        old(self).spec_raw_data().len() as int,
                    )
                    &&& match final(self).spec_pending() {
                        Some(no) => no == spec_step_offset(
                            old(self).spec_raw_data(),
                            old(self).spec_next_offset(),
                            old(self).spec_cur_idx() + 1 == old(self).spec_count(),
                        ),
                        None => false,
                    }
                },
                None => false,
            },
    {
        if self.cur_idx >= self.count {
            return None;
        }
        let ghost rem = (self.count - self.cur_idx) as nat;
        proof {
            assert(spec_chain_ok(self.raw_data@, self.next_offset as int, rem));
            assert(spec_record_ok(self.raw_data@, self.next_offset as int));
        }
        let n: usize = self.raw_data.len();
        let off = self.next_offset;
        let header = parse_packet_hdr(self.raw_data, off);
        let is_final = self.cur_idx == self.count - 1;
        let next_offset: usize = if !is_final {
            proof {
                assert(spec_chain_ok(
                    self.raw_data@,
                    off + spec_packet_hdr(self.raw_data@, off as int).tp_next_offset,
                    (rem - 1) as nat,
                ));
                assert(spec_record_ok(
                    self.raw_data@,
                    off + spec_packet_hdr(self.raw_data@, off as int).tp_next_offset,
                ));
            }
            off + header.tp_next_offset as usize
        } else {
            n
        };
        self.cur_next_offset = Some(next_offset);
        let payload_offset = off + header.tp_mac as usize;
        let payload = slice_subrange(self.raw_data, payload_offset, n);
        Some(RawPacket { header, payload })
    }

    /// Commits a pending read: moves to the stashed offset and counts
    /// the record as passed.
    pub fn flush_current(&mut self) -> (r: Option<()>)
        requires
            old(self).wf(),
        ensures
            final(self).wf(),
            final(self).spec_raw_data() == old(self).spec_raw_data(),
            final(self).spec_count() == old(self).spec_count(),
            final(self).spec_pending() is None,
            match old(self).spec_pending() {
                Some(no) => {
                    &&& r == Some(())
                    &&& final(self).spec_next_offset() == no
                    &&& final(self).spec_cur_idx() == old(self).spec_cur_idx() + 1
                },
                None => {
                    &&& r is None
                    &&& final(self).spec_next_offset() == old(self).spec_next_offset()
                    &&& final(self).spec_cur_idx() == old(self).spec_cur_idx()
                },
            },
    {
        match self.cur_next_offset {
            Some(no) => {
                proof {
                    let data = self.raw_data@;
                    let off = self.next_offset as int;
                    let rem = (self.count - self.cur_idx) as nat;
                    assert(spec_chain_ok(data, off, rem));
                    if self.cur_idx + 1 < self.count {
                        assert(spec_chain_ok(
                            data,
                            off + spec_packet_hdr(data, off).tp_next_offset,
                            (rem - 1) as nat,
                        ));
                    }
                }
                self.next_offset = no;
                self.cur_idx = self.cur_idx + 1;
                self.cur_next_offset = None;
                Some(())
            },
            None => None,
        }
    }

    /// Yields the record at the current position and advances past it;
    /// `None` once all `count` records have been yielded.
    pub fn next(&mut self) -> (r: Option<RawPacket<'a>>)
        requires
            old(self).wf(),
        ensures
            final(self).wf(),
            final(self).spec_raw_data() == old(self).spec_raw_data(),
            final(self).spec_count() == old(self).spec_count(),
            match r {
                Some(p) => {
                    &&& old(self).spec_cur_idx() < old(self).spec_count()
                    &&& p.spec_header() == spec_packet_hdr(
                        old(self).spec_raw_data(),
                        old(self).spec_next_offset(),
                    )
                    &&& p.spec_payload() == old(self).spec_raw_data().subrange(
                        old(self).spec_next_offset() + p.spec_header().tp_mac,
                        old(self).spec_raw_data().len() as int,
                    )
                    &&& final(self).spec_cur_idx() == old(self).spec_cur_idx() + 1
                    &&& final(self).spec_next_offset() == spec_step_offset(
                        old(self).spec_raw_data(),
                        old(self).spec_next_offset(),
                        old(self).spec_cur_idx() + 1 == old(self).spec_count(),
                    )
                    &&& final(self).spec_pending() is None
                },
                None => {
                    &&& old(self).spec_cur_idx() >= old(self).spec_count()
                    &&& final(self).spec_cur_idx() == old(self).spec_cur_idx()
                    &&& final(self).spec_next_offset() == old(self).spec_next_offset()
                },
            },
    {
        match self.current() {
            Some(res) => {
                self.flush_current();
                Some(res)
            },
            None => None,
        }
    }
}

/// A verified walk over `count` packet records laid out in `area` — the
/// record area of a block wherever it lives, the shared mapping
/// included.  `None` when the offset chain cannot be walked within
/// `area`: a block the kernel wrote never has such a chain, so a caller
/// on the shared mapping treats `None` as a fault of the block.
pub fn packet_iter_over<'a>(area: &'a [u8], first_offset: u32, count: u32) -> (r: Option<
    RawPacketIter<'a>,
>)
    ensures
        match r {
            Some(it) => {
                &&& it.wf()
                &&& it.spec_raw_data() == area@
                &&& it.spec_count() == count
                &&& it.spec_cur_idx() == 0
                &&& it.spec_next_offset() == first_offset
                &&& it.spec_pending() is None
            },
            None => count > 0 && !spec_chain_ok(area@, first_offset as int, count as nat),
        },
{
    if chain_valid(area, first_offset, count) {
        Some(
            RawPacketIter {
                raw_data: area,
                next_offset: first_offset as usize,
                cur_next_offset: None,
                cur_idx: 0,
                count,
            },
        )
    } else {
        None
    }
}

/// Settings to bring up one ring.
#[derive(Clone, Debug)]
pub struct RingSettings {
    /// Interface name
    pub if_name: String,
    /// `PACKET_FANOUT_HASH` pins flows to individual rings,
    /// `PACKET_FANOUT_LB` distributes them round-robin,
    /// `PACKET_FANOUT_CPU` follows the receiving CPU.
    pub fanout_method: i32,
    /// Ring allocation and behaviour, including the RX-hash feature bit
    pub ring_settings: TpacketReq3,
    /// Filter program to attach, if any
    pub bpf: Option<FilterProgram>,
}

impl Default for RingSettings {
    /// The default interface `"eth0"`, hash fan-out, default ring
    /// request, no filter.
    fn default() -> (r: RingSettings)
        ensures
            r.if_name@ == "eth0"@,
            r.fanout_method == PACKET_FANOUT_HASH,
            r.ring_settings == TpacketReq3::spec_default(),
            r.bpf is None,
    {
        RingSettings {
            if_name: "eth0".to_owned(),
            fanout_method: PACKET_FANOUT_HASH,
            ring_settings: TpacketReq3::default(),
            bpf: None,
        }
    }
}

/// Collects the tuning of one ring before it is built.  The builder
/// holds no socket: the shell opens one, drives the kernel-mandated
/// sequence, and draws every value it installs from here.
#[derive(Debug)]
pub struct RingBuilder {
    if_name: String,
    promiscuous: bool,
    fanout_method: i32,
    opts: TpacketReq3,
    bpf: Option<FilterProgram>,
}

impl RingBuilder {
    pub closed spec fn spec_if_name(&self) -> Seq<char> {
        self.if_name@
    }

    pub closed spec fn spec_promiscuous(&self) -> bool {
        self.promiscuous
    }

    pub closed spec fn spec_fanout_method(&self) -> i32 {
        self.fanout_method
    }

    pub closed spec fn spec_opts(&self) -> TpacketReq3 {
        self.opts
    }

    pub closed spec fn spec_bpf(&self) -> Option<FilterProgram> {
        self.bpf
    }

    /// A builder for `if_name` with the defaults: promiscuous on, hash
    /// fan-out, default ring request, no filter.  A name with an
    /// interior nul could never reach the C interfaces and is refused.
    pub fn new(if_name: &str) -> (r: Result<RingBuilder, RingError>)
        ensures
            match r {
                Ok(b) => {
                    &&& !crate::socket::spec_has_nul(if_name@)
                    &&& b.spec_if_name() == if_name@
                    &&& b.spec_promiscuous() == true
                    &&& b.spec_fanout_method() == PACKET_FANOUT_HASH
                    &&& b.spec_opts() == TpacketReq3::spec_default()
                    &&& b.spec_bpf() is None
                },
                Err(e) => e == RingError::IfNameNul && crate::socket::spec_has_nul(if_name@),
            },
    {
        if crate::socket::if_name_has_nul(if_name) {
            return Err(RingError::IfNameNul);
        }
        Ok(RingBuilder {
            if_name: if_name.to_owned(),
            promiscuous: true,
            fanout_method: PACKET_FANOUT_HASH,
            opts: TpacketReq3::default(),
            bpf: None,
        })
    }

    /// A builder carrying the given settings; promiscuous mode is on, as
    /// with [`Self::new`].
    pub fn from_settings(settings: RingSettings) -> (r: Result<RingBuilder, RingError>)
        ensures
            match r {
                Ok(b) => {
                    &&& !crate::socket::spec_has_nul(settings.if_name@)
                    &&& b.spec_if_name() == settings.if_name@
                    &&& b.spec_promiscuous() == true
                    &&& b.spec_fanout_method() == settings.fanout_method
                    &&& b.spec_opts() == settings.ring_settings
                    &&& b.spec_bpf() == settings.bpf
                },
                Err(e) => e == RingError::IfNameNul && crate::socket::spec_has_nul(
                    settings.if_name@,
                ),
            },
    {
        if crate::socket::if_name_has_nul(settings.if_name.as_str()) {
            return Err(RingError::IfNameNul);
        }
        Ok(RingBuilder {
            if_name: settings.if_name,
            promiscuous: true,
            fanout_method: settings.fanout_method,
            opts: settings.ring_settings,
            bpf: settings.bpf,
        })
    }

    /// Whether to put the interface into promiscuous mode during setup.
    pub fn promiscuous(self, flag: bool) -> (r: Self)
        ensures
            r.spec_promiscuous() == flag,
            r.spec_if_name() == self.spec_if_name(),
            r.spec_fanout_method() == self.spec_fanout_method(),
            r.spec_opts() == self.spec_opts(),
            r.spec_bpf() == self.spec_bpf(),
    {
        let mut b = self;
        b.promiscuous = flag;
        b
    }

    /// Selects the fan-out mode installed with `PACKET_FANOUT`.
    pub fn fanout_method(self, method: i32) -> (r: Self)
        ensures
            r.spec_fanout_method() == method,
            r.spec_if_name() == self.spec_if_name(),
            r.spec_promiscuous() == self.spec_promiscuous(),
            r.spec_opts() == self.spec_opts(),
            r.spec_bpf() == self.spec_bpf(),
    {
        let mut b = self;
        b.fanout_method = method;
        b
    }

    /// Sets the block size of the ring request.
    pub fn block_size(self, size: u32) -> (r: Self)
        ensures
            r.spec_opts() == crate::tpacket3::spec_req_with_block_size(self.spec_opts(), size),
            r.spec_if_name() == self.spec_if_name(),
            r.spec_promiscuous() == self.spec_promiscuous(),
            r.spec_fanout_method() == self.spec_fanout_method(),
            r.spec_bpf() == self.spec_bpf(),
    {
        let mut b = self;
        b.opts.tp_block_size = size;
        b
    }

    /// Sets the block count of the ring request.
    pub fn block_count(self, count: u32) -> (r: Self)
        ensures
            r.spec_opts() == crate::tpacket3::spec_req_with_block_nr(self.spec_opts(), count),
            r.spec_if_name() == self.spec_if_name(),
            r.spec_promiscuous() == self.spec_promiscuous(),
            r.spec_fanout_method() == self.spec_fanout_method(),
            r.spec_bpf() == self.spec_bpf(),
    {
        let mut b = self;
        b.opts.tp_block_nr = count;
        b
    }

    /// Sets the frame size of the ring request.
    pub fn frame_size(self, size: u32) -> (r: Self)
        ensures
            r.spec_opts() == crate::tpacket3::spec_req_with_frame_size(self.spec_opts(), size),
            r.spec_if_name() == self.spec_if_name(),
            r.spec_promiscuous() == self.spec_promiscuous(),
            r.spec_fanout_method() == self.spec_fanout_method(),
            r.spec_bpf() == self.spec_bpf(),
    {
        let mut b = self;
        b.opts.tp_frame_size = size;
        b
    }

    /// Sets the block-retire timeout, in milliseconds.
    pub fn timeout(self, ms: u32) -> (r: Self)
        ensures
            r.spec_opts() == crate::tpacket3::spec_req_with_timeout(self.spec_opts(), ms),
            r.spec_if_name() == self.spec_if_name(),
            r.spec_promiscuous() == self.spec_promiscuous(),
            r.spec_fanout_method() == self.spec_fanout_method(),
            r.spec_bpf() == self.spec_bpf(),
    {
        let mut b = self;
        b.opts.tp_retire_blk_tov = ms;
        b
    }

    /// Attaches an already-assembled filter program.
    pub fn filter(self, program: FilterProgram) -> (r: Self)
        ensures
            r.spec_bpf() == Some(program),
            r.spec_if_name() == self.spec_if_name(),
            r.spec_promiscuous() == self.spec_promiscuous(),
            r.spec_fanout_method() == self.spec_fanout_method(),
            r.spec_opts() == self.spec_opts(),
    {
        let mut b = self;
        b.bpf = Some(program);
        b
    }

    /// The configured interface name.
    pub fn if_name(&self) -> (r: &String)
        ensures
            r@ == self.spec_if_name(),
    {
        &self.if_name
    }

    /// Whether setup will put the interface into promiscuous mode.
    pub fn is_promiscuous(&self) -> (r: bool)
        ensures
            r == self.spec_promiscuous(),
    {
        self.promiscuous
    }

    /// The fan-out mode setup will install.
    pub fn fanout_mode(&self) -> (r: i32)
        ensures
            r == self.spec_fanout_method(),
    {
        self.fanout_method
    }

    /// The ring request as configured, frame count not yet derived.
    pub fn opts(&self) -> (r: &TpacketReq3)
        ensures
            *r == self.spec_opts(),
    {
        &self.opts
    }

    /// Takes the filter program out of the builder, as setup does when
    /// it attaches the filter.
    pub fn take_filter(&mut self) -> (r: Option<FilterProgram>)
        ensures
            r == old(self).spec_bpf(),
            final(self).spec_bpf() is None,
            final(self).spec_if_name() == old(self).spec_if_name(),
            final(self).spec_promiscuous() == old(self).spec_promiscuous(),
            final(self).spec_fanout_method() == old(self).spec_fanout_method(),
            final(self).spec_opts() == old(self).spec_opts(),
    {
        let r = self.bpf.take();
        r
    }

    /// The finalized request handed to `PACKET_RX_RING`: the configured
    /// request with its frame count derived, so that
    /// `tp_frame_size * tp_frame_nr == tp_block_size * tp_block_nr`
    /// holds whenever the division is exact.
    pub fn prepare_request(&self) -> (r: TpacketReq3)
        requires
            self.spec_opts().tp_frame_size > 0,
            self.spec_opts().tp_block_size * self.spec_opts().tp_block_nr <= u32::MAX,
        ensures
            r.tp_block_size == self.spec_opts().tp_block_size,
            r.tp_block_nr == self.spec_opts().tp_block_nr,
            r.tp_frame_size == self.spec_opts().tp_frame_size,
            r.tp_frame_nr == self.spec_opts().tp_block_size * self.spec_opts().tp_block_nr
                / (self.spec_opts().tp_frame_size as int),
            r.tp_retire_blk_tov == self.spec_opts().tp_retire_blk_tov,
            r.tp_sizeof_priv == self.spec_opts().tp_sizeof_priv,
            r.tp_feature_req_word == self.spec_opts().tp_feature_req_word,
    {
        TpacketReq3 {
            tp_block_size: self.opts.tp_block_size,
            tp_block_nr: self.opts.tp_block_nr,
            tp_frame_size: self.opts.tp_frame_size,
            tp_frame_nr: (self.opts.tp_block_size * self.opts.tp_block_nr)
                / self.opts.tp_frame_size,
            tp_retire_blk_tov: self.opts.tp_retire_blk_tov,
            tp_sizeof_priv: self.opts.tp_sizeof_priv,
            tp_feature_req_word: self.opts.tp_feature_req_word,
        }
    }

    /// The ring identity behind the derived frame count: whenever the
    /// frame size divides the ring's byte length exactly, the request
    /// of [`Self::prepare_request`] satisfies
    /// `tp_frame_size * tp_frame_nr == tp_block_size * tp_block_nr`.
    pub proof fn lemma_frame_tiling(block_size: u32, block_nr: u32, frame_size: u32)
        requires
            frame_size > 0,
            (block_size * block_nr) % (frame_size as int) == 0,
        ensures
            frame_size * ((block_size * block_nr) / (frame_size as int)) == block_size * block_nr,
    {
        vstd::arithmetic::div_mod::lemma_fundamental_div_mod(
            block_size * block_nr,
            frame_size as int,
        );
    }

    /// The byte length of the shared mapping: one block size times the
    /// block count.
    pub fn mmap_len(&self) -> (r: u64)
        ensures
            r == self.spec_opts().tp_block_size * self.spec_opts().tp_block_nr,
    {
        let a = self.opts.tp_block_size as u64;
        let b = self.opts.tp_block_nr as u64;
        proof {
            assert(a * b < 0x10000000000000000) by (nonlinear_arith)
                requires
                    a < 0x100000000,
                    b < 0x100000000,
            ;
        }
        a * b
    }
}

/// The ring of blocks with the consumer cursor.  In the running system
/// the kernel fills the slots; here a slot's bytes arrive through
/// [`Ring::init`] or [`Ring::set_block_data`], and the consumer takes
/// them out through [`Ring::check_current_block`] exactly as the shell
/// does on the shared mapping.
#[derive(Debug)]
pub struct Ring {
    blocks: Vec<RawBlock>,
    opts: TpacketReq3,
    cur_idx: u32,
}

impl Ring {
    /// The bytes of each slot, in ring order.
    pub closed spec fn spec_blocks(&self) -> Seq<Seq<u8>> {
        Seq::new(self.blocks@.len(), |i: int| self.blocks@[i].spec_data())
    }

    pub closed spec fn spec_opts(&self) -> TpacketReq3 {
        self.opts
    }

    pub closed spec fn spec_cur_idx(&self) -> u32 {
        self.cur_idx
    }

    /// There is a slot per configured block and the cursor points at
    /// one of them.
    pub open spec fn wf(&self) -> bool {
        &&& self.spec_blocks().len() == self.spec_opts().tp_block_nr
        &&& 0 < self.spec_opts().tp_block_nr
        &&& (self.spec_cur_idx() as int) < self.spec_opts().tp_block_nr as int
    }

    /// Assembles a ring from its block slots and the request they were
    /// allocated for; there must be a slot per configured block.
    pub fn init(blocks: Vec<RawBlock>, opts: TpacketReq3) -> (r: Result<Ring, RingError>)
        ensures
            match r {
                Ok(ring) => {
                    &&& blocks@.len() == opts.tp_block_nr
                    &&& 0 < opts.tp_block_nr
                    &&& ring.wf()
                    &&& ring.spec_opts() == opts
                    &&& ring.spec_cur_idx() == 0
                    &&& ring.spec_blocks().len() == blocks@.len()
                    &&& forall|i: int|
                        0 <= i < blocks@.len() ==> ring.spec_blocks()[i] == blocks@[i].spec_data()
                },
                Err(e) => e == RingError::BlockCountMismatch && (blocks@.len() != opts.tp_block_nr
                    || opts.tp_block_nr == 0),
            },
    {
        if opts.tp_block_nr == 0 || blocks.len() != opts.tp_block_nr as usize {
            return Err(RingError::BlockCountMismatch);
        }
        Ok(Ring { blocks, opts, cur_idx: 0 })
    }

    /// The configured number of blocks in the ring.
    pub fn blocks_count(&self) -> (r: u32)
        ensures
            r == self.spec_opts().tp_block_nr,
    {
        self.opts.tp_block_nr
    }

    /// The slot the next hand-out will inspect.
    pub fn cursor(&self) -> (r: u32)
        ensures
            r == self.spec_cur_idx(),
    {
        self.cur_idx
    }

    /// Whether the slot at `idx` is released to userspace.
    pub fn is_block_ready(&self, idx: u32) -> (r: bool)
        requires
            self.wf(),
            idx < self.spec_opts().tp_block_nr,
        ensures
            r == spec_block_ready(self.spec_blocks()[idx as int]),
    {
        self.blocks[idx as usize].is_ready()
    }

    /// Replaces the bytes of the slot at `idx`: what a kernel write into
    /// the shared region looks like from inside the model, and the way a
    /// test stages a block.
    pub fn set_block_data(&mut self, idx: u32, data: Vec<u8>)
        requires
            old(self).wf(),
            idx < old(self).spec_opts().tp_block_nr,
        ensures
            final(self).wf(),
            final(self).spec_opts() == old(self).spec_opts(),
            final(self).spec_cur_idx() == old(self).spec_cur_idx(),
            final(self).spec_blocks().len() == old(self).spec_blocks().len(),
            final(self).spec_blocks()[idx as int] == data@,
            forall|j: int|
                0 <= j < old(self).spec_blocks().len() && j != idx ==> final(self).spec_blocks()[j]
                    == old(self).spec_blocks()[j],
    {
        self.blocks.set(idx as usize, RawBlock { data });
    }

    /// Puts a handed-out block back into its slot, bytes as they now
    /// stand — consumed or not.  The kernel reclaims it only if its
    /// status word says `TP_STATUS_KERNEL`.
    pub fn return_block(&mut self, block: Block)
        requires
            old(self).wf(),
            block.spec_idx() < old(self).spec_opts().tp_block_nr,
        ensures
            final(self).wf(),
            final(self).spec_opts() == old(self).spec_opts(),
            final(self).spec_cur_idx() == old(self).spec_cur_idx(),
            final(self).spec_blocks().len() == old(self).spec_blocks().len(),
            final(self).spec_blocks()[block.spec_idx() as int] == block.spec_data(),
            forall|j: int|
                0 <= j < old(self).spec_blocks().len() && j != block.spec_idx()
                    ==> final(self).spec_blocks()[j] == old(self).spec_blocks()[j],
    {
        let Block { desc: _, data, idx } = block;
        self.blocks.set(idx as usize, RawBlock { data });
    }

    /// Inspects the slot at the cursor.  If the kernel has released it,
    /// takes the block out, advances the cursor past it, and hands it
    /// over; the emptied slot stays empty until the block is returned.
    /// Otherwise leaves the ring as it is — the shell then waits on the
    /// descriptor and asks again.
    pub fn check_current_block(&mut self) -> (r: Option<Block>)
        requires
            old(self).wf(),
        ensures
            final(self).wf(),
            final(self).spec_opts() == old(self).spec_opts(),
            final(self).spec_blocks().len() == old(self).spec_blocks().len(),
            match r {
                Some(b) => {
                    &&& spec_block_ready(old(self).spec_blocks()[old(self).spec_cur_idx() as int])
                    &&& b.wf()
                    &&& b.spec_idx() == old(self).spec_cur_idx()
                    &&& b.spec_data() == old(self).spec_blocks()[old(self).spec_cur_idx() as int]
                    &&& b.spec_desc() == spec_block_desc(b.spec_data())
                    &&& final(self).spec_cur_idx() == ((old(self).spec_cur_idx() + 1) as int % (
                    old(self).spec_opts().tp_block_nr as int))
                    &&& final(self).spec_blocks()[old(self).spec_cur_idx() as int].len() == 0
                    &&& forall|j: int|
                        0 <= j < old(self).spec_blocks().len() && j != old(self).spec_cur_idx()
                            ==> final(self).spec_blocks()[j] == old(self).spec_blocks()[j]
                },
                None => {
                    &&& !spec_block_ready(
                        old(self).spec_blocks()[old(self).spec_cur_idx() as int],
                    )
                    &&& final(self).spec_cur_idx() == old(self).spec_cur_idx()
                    &&& final(self).spec_blocks() == old(self).spec_blocks()
                },
            },
    {
        let cur = self.cur_idx as usize;
        if !self.blocks[cur].is_ready() {
            proof {
                assert(final(self).spec_blocks() =~= old(self).spec_blocks());
            }
            return None;
        }
        let mut taken = RawBlock { data: Vec::new() };
        self.blocks.set_and_swap(cur, &mut taken);
        let desc = parse_block_desc(taken.data.as_slice());
        let idx = self.cur_idx;
        self.cur_idx = (self.cur_idx + 1) % self.opts.tp_block_nr;
        let RawBlock { data } = taken;
        Some(Block { desc, data, idx })
    }

    /// Which slots are released to userspace, in ring order.
    pub open spec fn spec_ready_seq(&self) -> Seq<bool> {
        Seq::new(self.spec_blocks().len(), |i: int| spec_block_ready(self.spec_blocks()[i]))
    }

    /// The approximate percentage of released blocks at and ahead of
    /// the cursor, probing at strides of about `step_percent` percent of
    /// the ring so that not every block is touched.
    pub fn buffer_saturation_threshold(&self, step_percent: u8) -> (r: u8)
        requires
            self.wf(),
            step_percent < 50,
            self.spec_opts().tp_block_nr * 100 <= u32::MAX,
        ensures
            r == spec_saturation(
                self.spec_ready_seq(),
                self.spec_cur_idx() as int,
                self.spec_opts().tp_block_nr as int,
                step_percent as int,
            ),
    {
        let nr = self.opts.tp_block_nr;
        let mut ready: Vec<bool> = Vec::new();
        let mut i: u32 = 0;
        while i < nr
            invariant
                self.wf(),
                nr == self.spec_opts().tp_block_nr,
                0 <= i <= nr,
                ready@.len() == i,
                forall|j: int|
                    0 <= j < i ==> ready@[j] == spec_block_ready(self.spec_blocks()[j]),
            decreases nr - i,
        {
            ready.push(self.blocks[i as usize].is_ready());
            i = i + 1;
        }
        proof {
            assert(ready@ =~= self.spec_ready_seq());
        }
        saturation_probe(&ready, self.cur_idx, step_percent)
    }
}

/// The saturation estimate over an explicit readiness vector: slot `i`
/// of `ready` says whether ring slot `i` is released.  The shell calls
/// this on statuses it reads from the shared mapping;
/// [`Ring::buffer_saturation_threshold`] calls it on the ring's own
/// slots.
pub fn saturation_probe(ready: &Vec<bool>, cur_idx: u32, step_percent: u8) -> (r: u8)
    requires
        0 < ready@.len(),
        cur_idx < ready@.len(),
        ready@.len() * 100 <= u32::MAX,
        step_percent < 50,
    ensures
        r == spec_saturation(
            ready@,
            cur_idx as int,
            ready@.len() as int,
            step_percent as int,
        ),
{
    let nr: u32 = ready.len() as u32;
    proof {
        assert((nr as u64) * (step_percent as u64) <= 0xFFFFFFFFu64 * 50) by (nonlinear_arith)
            requires
                (nr as u64) <= 0xFFFFFFFFu64,
                (step_percent as u64) < 50,
        ;
    }
    let step64: u64 = nr as u64 * step_percent as u64 / 100;
    proof {
        assert((nr as u64) * (step_percent as u64) / 100 < (nr as u64)) by (nonlinear_arith)
            requires
                0 < (nr as u64),
                step_percent < 50,
        ;
    }
    let step: u32 = if step64 == 0 {
        1
    } else {
        step64 as u32
    };
    let ghost rd = ready@;
    let ghost start = (cur_idx + step) as int % (nr as int);
    let mut n: u32 = 0;
    let mut idx: u32 = (cur_idx + step) % nr;
    let mut stopped = false;
    while !stopped && n < nr
        invariant
            rd == ready@,
            rd.len() == nr,
            nr as int * 100 <= u32::MAX,
            1 <= step <= nr,
            step as int == spec_sat_step(nr as int, step_percent as int),
            start == (cur_idx + step) as int % (nr as int),
            0 <= idx < nr,
            0 <= n <= nr,
            !stopped ==> spec_sat_count(rd, start, step as int, 0, nr as int) == spec_sat_count(
                rd,
                idx as int,
                step as int,
                n as int,
                nr as int,
            ),
            stopped ==> spec_sat_count(rd, start, step as int, 0, nr as int) == n,
        decreases (if stopped {
            0int
        } else {
            1int
        }), nr - n,
    {
        proof {
            assert(spec_sat_count(rd, idx as int, step as int, n as int, nr as int) == {
                let n2 = if n + step > nr {
                    nr as int
                } else {
                    n as int + step
                };
                if rd[idx as int] {
                    spec_sat_count(
                        rd,
                        (idx + step) as int % (nr as int),
                        step as int,
                        n2,
                        nr as int,
                    )
                } else {
                    n2
                }
            });
        }
        n = n + step;
        if n > nr {
            n = nr;
        }
        if ready[idx as usize] {
            idx = (idx + step) % nr;
        } else {
            stopped = true;
        }
    }
    proof {
        if !stopped {
            assert(spec_sat_count(rd, idx as int, step as int, n as int, nr as int) == n as int);
        }
        assert(n as int * 100 <= nr as int * 100) by (nonlinear_arith)
            requires
                n <= nr,
        ;
        vstd::arithmetic::div_mod::lemma_div_is_ordered(n as int * 100, nr as int * 100, nr as int);
        vstd::arithmetic::div_mod::lemma_div_multiples_vanish(100, nr as int);
    }
    ((n * 100) / nr) as u8
}

/// The probe stride used by the saturation estimate: about
/// `step_percent` percent of the ring, and at least one block.
pub open spec fn spec_sat_step(nr: int, step_percent: int) -> int {
    let s = nr * step_percent / 100;
    if s == 0 {
        1
    } else {
        s
    }
}

/// The count the saturation probe arrives at: starting from `n`, walk
/// slots `idx, idx + step, …` (mod `nr`), adding `step` to the count —
/// capped at `nr` — for each probe, and stop after the first probe that
/// finds an unreleased slot.
pub open spec fn spec_sat_count(ready: Seq<bool>, idx: int, step: int, n: int, nr: int) -> int
    decreases nr - n,
    when 0 < step && n <= nr
{
    if n >= nr {
        n
    } else {
        let n2 = if n + step > nr {
            nr
        } else {
            n + step
        };
        if ready[idx] {
            spec_sat_count(ready, (idx + step) % nr, step, n2, nr)
        } else {
            n2
        }
    }
}

/// What [`Ring::buffer_saturation_threshold`] returns: the probe count
/// as a percentage of the ring, the probe starting one stride past the
/// cursor.
pub open spec fn spec_saturation(ready: Seq<bool>, cur: int, nr: int, step_percent: int) -> int {
    let step = spec_sat_step(nr, step_percent);
    spec_sat_count(ready, (cur + step) % nr, step, 0, nr) * 100 / nr
}

proof fn lemma_sat_count_bounds(ready: Seq<bool>, idx: int, step: int, n: int, nr: int)
    requires
        0 < step,
        0 <= n <= nr,
        0 <= idx < nr,
        ready.len() == nr,
    ensures
        n <= spec_sat_count(ready, idx, step, n, nr) <= nr,
    decreases nr - n,
{
    if n < nr {
        let n2 = if n + step > nr {
            nr
        } else {
            n + step
        };
        if ready[idx] {
            vstd::arithmetic::div_mod::lemma_mod_bound(idx + step, nr);
            lemma_sat_count_bounds(ready, (idx + step) % nr, step, n2, nr);
        }
    }
}

proof fn lemma_sat_count_monotone(r1: Seq<bool>, r2: Seq<bool>, idx: int, step: int, n: int, nr: int)
    requires
        0 < step,
        0 <= n <= nr,
        0 <= idx < nr,
        r1.len() == nr,
        r2.len() == nr,
        forall|i: int| 0 <= i < nr && r1[i] ==> r2[i],
    ensures
        spec_sat_count(r1, idx, step, n, nr) <= spec_sat_count(r2, idx, step, n, nr),
    decreases nr - n,
{
    if n < nr {
        let n2 = if n + step > nr {
            nr
        } else {
            n + step
        };
        vstd::arithmetic::div_mod::lemma_mod_bound(idx + step, nr);
        if r1[idx] {
            lemma_sat_count_monotone(r1, r2, (idx + step) % nr, step, n2, nr);
        } else {
            lemma_sat_count_bounds(r2, idx, step, n, nr);
            if r2[idx] {
                lemma_sat_count_bounds(r2, (idx + step) % nr, step, n2, nr);
            }
        }
    }
}

/// Saturation monotonicity: for one ring geometry, cursor and stride,
/// releasing more blocks never lowers the saturation estimate.  `r1` and
/// `r2` give which slots are released in two states of the ring; if
/// every slot released in the first is released in the second, the
/// percentage reported for the second is at least that of the first.
pub proof fn lemma_saturation_monotonic(r1: Seq<bool>, r2: Seq<bool>, cur: int, nr: int, sp: int)
    requires
        0 < nr,
        0 <= sp,
        0 <= cur < nr,
        r1.len() == nr,
        r2.len() == nr,
        forall|i: int| 0 <= i < nr && r1[i] ==> r2[i],
    ensures
        spec_saturation(r1, cur, nr, sp) <= spec_saturation(r2, cur, nr, sp),
{
    let step = spec_sat_step(nr, sp);
    assert(0 <= nr * sp / 100) by (nonlinear_arith)
        requires
            0 <= nr,
            0 <= sp,
    ;
    let start = (cur + step) % nr;
    vstd::arithmetic::div_mod::lemma_mod_bound(cur + step, nr);
    lemma_sat_count_monotone(r1, r2, start, step, 0, nr);
    let c1 = spec_sat_count(r1, start, step, 0, nr);
    let c2 = spec_sat_count(r2, start, step, 0, nr);
    vstd::arithmetic::mul::lemma_mul_inequality(c1, c2, 100);
    vstd::arithmetic::div_mod::lemma_div_is_ordered(c1 * 100, c2 * 100, nr);
}

/// [`lemma_saturation_monotonic`], stated on two rings directly: with
/// the same geometry and cursor, a ring whose released slots include
/// another's reports at least the other's saturation.
pub proof fn lemma_ring_saturation_monotonic(a: Ring, b: Ring, step_percent: u8)
    requires
        a.wf(),
        b.wf(),
        a.spec_opts().tp_block_nr == b.spec_opts().tp_block_nr,
        a.spec_cur_idx() == b.spec_cur_idx(),
        forall|i: int|
            0 <= i < a.spec_ready_seq().len() && a.spec_ready_seq()[i] ==> b.spec_ready_seq()[i],
    ensures
        spec_saturation(
            a.spec_ready_seq(),
            a.spec_cur_idx() as int,
            a.spec_opts().tp_block_nr as int,
            step_percent as int,
        ) <= spec_saturation(
            b.spec_ready_seq(),
            b.spec_cur_idx() as int,
            b.spec_opts().tp_block_nr as int,
            step_percent as int,
        ),
{
    lemma_saturation_monotonic(
        a.spec_ready_seq(),
        b.spec_ready_seq(),
        a.spec_cur_idx() as int,
        a.spec_opts().tp_block_nr as int,
        step_percent as int,
    );
}

/// Cursor monotonicity: a fresh ring's cursor is `0`, and each
/// successful [`Ring::check_current_block`] moves it from `c` to
/// `(c + 1) % block_count` — so after `n` successful receives the
/// cursor stands at `n % block_count`, and one more receive takes it to
/// `(n + 1) % block_count`.
pub proof fn lemma_cursor_monotonicity(n: nat, nr: int)
    requires
        0 < nr,
    ensures
        0int % nr == 0,
        (((n as int) % nr) + 1) % nr == ((n as int) + 1) % nr,
{
    vstd::arithmetic::div_mod::lemma_add_mod_noop(n as int, 1, nr);
    if nr == 1 {
        vstd::arithmetic::div_mod::lemma_mod_self_0(nr);
    } else {
        vstd::arithmetic::div_mod::lemma_small_mod(1, nr as nat);
    }
}

} // verus!
