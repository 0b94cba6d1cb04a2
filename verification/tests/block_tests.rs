use af_packet::rx::{packet_iter_over, RawBlock, Ring};
use af_packet::tpacket3::{TpacketReq3, TP_STATUS_KERNEL, TP_STATUS_USER};

fn put_u32(buf: &mut [u8], off: usize, v: u32) {
    buf[off..off + 4].copy_from_slice(&v.to_le_bytes());
}

fn put_u16(buf: &mut [u8], off: usize, v: u16) {
    buf[off..off + 2].copy_from_slice(&v.to_le_bytes());
}

fn desc_block(total: usize, status: u32, num_pkts: u32, first: u32, blk_len: u32, seq: u64) -> Vec<u8> {
    let mut b = vec![0u8; total];
    put_u32(&mut b, 0, 3);
    put_u32(&mut b, 8, status);
    put_u32(&mut b, 12, num_pkts);
    put_u32(&mut b, 16, first);
    put_u32(&mut b, 20, blk_len);
    b[24..32].copy_from_slice(&seq.to_le_bytes());
    b
}

fn put_pkt_hdr(buf: &mut [u8], off: usize, next_offset: u32, sec: u32, mac: u16) {
    put_u32(buf, off, next_offset);
    put_u32(buf, off + 4, sec);
    put_u16(buf, off + 24, mac);
}

fn opts(nr: u32) -> TpacketReq3 {
    TpacketReq3 {
        tp_block_size: 4096,
        tp_block_nr: nr,
        tp_frame_size: 2048,
        tp_frame_nr: 2 * nr,
        tp_retire_blk_tov: 100,
        tp_sizeof_priv: 0,
        tp_feature_req_word: 1,
    }
}

fn one_block_ring(data: Vec<u8>) -> Ring {
    Ring::init(vec![RawBlock::new(data)], opts(1)).unwrap()
}

#[test]
fn single_packet_block() {
    let mut data = desc_block(128, TP_STATUS_USER, 1, 48, 128, 7);
    put_pkt_hdr(&mut data, 48, 80, 1, 64);
    for i in 0..16u8 {
        data[112 + i as usize] = i;
    }
    let mut ring = one_block_ring(data);
    let block = ring.check_current_block().expect("block should be ready");
    assert!(block.packets_valid());
    let mut it = block.into_raw_packets_iter();
    let expected: Vec<u8> = (0..16u8).collect();
    {
        let pkt = it.next().expect("one packet");
        assert_eq!(pkt.payload(), expected.as_slice());
        assert_eq!(pkt.header().tp_mac, 64);
    }
    assert!(it.next().is_none());
    assert!(it.is_last());
    let block = it.into_block();
    assert_eq!(block.desc().hdr.block_status, TP_STATUS_KERNEL);
    ring.return_block(block);
    assert!(!ring.is_block_ready(0));
}

#[test]
fn three_packet_block() {
    let mut data = desc_block(512, TP_STATUS_USER, 3, 48, 512, 9);
    put_pkt_hdr(&mut data, 48, 96, 11, 56);
    put_pkt_hdr(&mut data, 144, 96, 22, 56);
    put_pkt_hdr(&mut data, 240, 12345, 33, 56);
    let mut ring = one_block_ring(data);
    let block = ring.check_current_block().unwrap();
    assert!(block.packets_valid());
    let mut it = block.into_raw_packets_iter();
    assert_eq!(it.next().unwrap().header().tp_sec, 11);
    assert!(!it.is_last());
    assert_eq!(it.next().unwrap().header().tp_sec, 22);
    assert!(!it.is_last());
    assert_eq!(it.next().unwrap().header().tp_sec, 33);
    assert!(it.is_last());
    assert!(it.next().is_none());
}

#[test]
fn packet_count_matches_header() {
    let mut data = desc_block(512, TP_STATUS_USER, 3, 48, 512, 0);
    put_pkt_hdr(&mut data, 48, 96, 1, 56);
    put_pkt_hdr(&mut data, 144, 96, 2, 56);
    put_pkt_hdr(&mut data, 240, 0xdead, 3, 56);
    let mut ring = one_block_ring(data);
    let block = ring.check_current_block().unwrap();
    assert!(block.packets_valid());
    assert_eq!(block.get_raw_packets().len(), 3);
}

#[test]
fn offsets_chain_in_order() {
    // p0 at 48, next 100; p1 at 148, next 200; p2 at 348, final
    let mut data = desc_block(512, TP_STATUS_USER, 3, 48, 512, 0);
    put_pkt_hdr(&mut data, 48, 100, 10, 50);
    put_pkt_hdr(&mut data, 148, 200, 20, 50);
    put_pkt_hdr(&mut data, 348, 7, 30, 50);
    let mut ring = one_block_ring(data);
    let block = ring.check_current_block().unwrap();
    assert!(block.packets_valid());
    let pkts = block.get_raw_packets();
    assert_eq!(pkts[0].header().tp_sec, 10);
    assert_eq!(pkts[1].header().tp_sec, 20);
    assert_eq!(pkts[2].header().tp_sec, 30);
    // the last record's tp_next_offset need not point at the block end
    assert_eq!(pkts[2].header().tp_next_offset, 7);
}

#[test]
fn payload_spans_to_block_end() {
    let mut data = desc_block(256, TP_STATUS_USER, 2, 48, 256, 0);
    put_pkt_hdr(&mut data, 48, 100, 1, 64);
    put_pkt_hdr(&mut data, 148, 3, 2, 64);
    // fill the payload regions, leaving both headers intact
    for i in 112..148usize {
        data[i] = (i % 251) as u8;
    }
    for i in 196..256usize {
        data[i] = (i % 251) as u8;
    }
    let mut ring = one_block_ring(data.clone());
    let block = ring.check_current_block().unwrap();
    assert!(block.packets_valid());
    let pkts = block.get_raw_packets();
    assert_eq!(pkts.len(), 2);
    // p0: payload starts at 48 + 64 = 112 and runs to the block end
    assert_eq!(pkts[0].payload(), &data[112..256]);
    // p1: payload starts at 148 + 64 = 212 and runs to the block end
    assert_eq!(pkts[1].payload(), &data[212..256]);
}

#[test]
fn malformed_chain_rejected() {
    // a first-packet offset of zero cannot be walked
    let data = desc_block(128, TP_STATUS_USER, 1, 0, 128, 0);
    let mut ring = one_block_ring(data);
    let block = ring.check_current_block().unwrap();
    assert!(!block.packets_valid());

    // a stated block length beyond the actual bytes is refused
    let data2 = desc_block(128, TP_STATUS_USER, 1, 48, 4096, 0);
    let mut ring2 = one_block_ring(data2);
    let block2 = ring2.check_current_block().unwrap();
    assert!(!block2.packets_valid());
}

#[test]
fn consume_flips_status_word() {
    let data = desc_block(64, TP_STATUS_USER, 0, 48, 64, 1);
    let mut ring = one_block_ring(data);
    let mut block = ring.check_current_block().unwrap();
    assert_eq!(block.desc().hdr.block_status, TP_STATUS_USER);
    block.consume();
    assert_eq!(block.desc().hdr.block_status, TP_STATUS_KERNEL);
    ring.return_block(block);
    assert!(!ring.is_block_ready(0));
}

#[test]
fn status_unchanged_while_iterating() {
    let mut data = desc_block(128, TP_STATUS_USER, 1, 48, 128, 0);
    put_pkt_hdr(&mut data, 48, 80, 1, 64);
    let mut ring = one_block_ring(data);
    let block = ring.check_current_block().unwrap();
    let mut it = block.into_raw_packets_iter();
    assert_eq!(it.block().desc().hdr.block_status, TP_STATUS_USER);
    let _ = it.next();
    assert_eq!(it.block().desc().hdr.block_status, TP_STATUS_USER);
    let block = it.into_block();
    assert_eq!(block.desc().hdr.block_status, TP_STATUS_KERNEL);
}

#[test]
fn early_drop_leaves_user_status() {
    // a block handed out and given back without being consumed keeps
    // its USER status: the kernel never reclaims that slot
    let data = desc_block(64, TP_STATUS_USER, 0, 48, 64, 1);
    let mut ring = one_block_ring(data);
    let block = ring.check_current_block().unwrap();
    assert_eq!(block.desc().hdr.block_status, TP_STATUS_USER);
    ring.return_block(block);
    assert!(ring.is_block_ready(0));
}

#[test]
fn block_desc_matches_bytes() {
    let data = desc_block(64, TP_STATUS_USER, 5, 48, 64, 0x1122334455667788);
    let mut ring = one_block_ring(data);
    let block = ring.check_current_block().unwrap();
    let d = block.desc();
    assert_eq!(d.version, 3);
    assert_eq!(d.offset_to_priv, 0);
    assert_eq!(d.hdr.block_status, 1);
    assert_eq!(d.hdr.num_pkts, 5);
    assert_eq!(d.hdr.offset_to_first_pkt, 48);
    assert_eq!(d.hdr.blk_len, 64);
    assert_eq!(d.hdr.seq_num, 0x1122334455667788);
    assert_eq!(d.hdr.ts_first_pkt.ts_sec, 0);
    assert_eq!(d.hdr.ts_last_pkt.ts_nsec, 0);
}

#[test]
fn non_consuming_iter_peeks() {
    let mut data = desc_block(128, TP_STATUS_USER, 1, 48, 128, 0);
    put_pkt_hdr(&mut data, 48, 80, 42, 64);
    let mut ring = one_block_ring(data);
    let block = ring.check_current_block().unwrap();
    let mut it = block.raw_packets_iter();
    let first = it.current().unwrap().header().tp_sec;
    let second = it.current().unwrap().header().tp_sec;
    assert_eq!(first, 42);
    assert_eq!(second, 42);
    assert!(it.flush_current().is_some());
    assert!(it.is_last());
    assert!(it.current().is_none());
    assert!(it.flush_current().is_none());
}

#[test]
fn empty_block_yields_no_packets() {
    let data = desc_block(64, TP_STATUS_USER, 0, 48, 64, 0);
    let mut ring = one_block_ring(data);
    let block = ring.check_current_block().unwrap();
    assert!(block.packets_valid());
    assert!(block.get_raw_packets().is_empty());
    let mut it = block.raw_packets_iter();
    assert!(it.is_last());
    assert!(it.next().is_none());
}

#[test]
fn packet_iter_over_walks_mapped_area() {
    let mut area = vec![0u8; 256];
    put_pkt_hdr(&mut area, 48, 100, 5, 56);
    put_pkt_hdr(&mut area, 148, 9, 6, 56);
    let mut it = packet_iter_over(&area, 48, 2).expect("chain is walkable");
    assert_eq!(it.next().unwrap().header().tp_sec, 5);
    assert_eq!(it.next().unwrap().header().tp_sec, 6);
    assert!(it.next().is_none());

    assert!(packet_iter_over(&area, 0, 1).is_none());
    assert!(packet_iter_over(&area, 240, 1).is_none());
}
