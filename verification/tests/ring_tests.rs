use af_packet::rx::{saturation_probe, RawBlock, Ring};
use af_packet::tpacket3::{TpacketReq3, TP_STATUS_KERNEL, TP_STATUS_USER};
use af_packet::RingError;

fn put_u32(buf: &mut [u8], off: usize, v: u32) {
    buf[off..off + 4].copy_from_slice(&v.to_le_bytes());
}

fn bare_block(status: u32, seq: u64) -> Vec<u8> {
    let mut b = vec![0u8; 64];
    put_u32(&mut b, 8, status);
    put_u32(&mut b, 20, 64);
    b[24..32].copy_from_slice(&seq.to_le_bytes());
    b
}

fn opts(nr: u32) -> TpacketReq3 {
    TpacketReq3 {
        tp_block_size: 64,
        tp_block_nr: nr,
        tp_frame_size: 32,
        tp_frame_nr: 2 * nr,
        tp_retire_blk_tov: 100,
        tp_sizeof_priv: 0,
        tp_feature_req_word: 1,
    }
}

fn ring_with_status(statuses: &[u32]) -> Ring {
    let blocks: Vec<RawBlock> = statuses
        .iter()
        .enumerate()
        .map(|(i, s)| RawBlock::new(bare_block(*s, i as u64)))
        .collect();
    Ring::init(blocks, opts(statuses.len() as u32)).unwrap()
}

#[test]
fn cursor_steps_modulo() {
    let mut ring = ring_with_status(&[1, 1, 1]);
    assert_eq!(ring.cursor(), 0);
    for i in 0..3u32 {
        let b = ring.check_current_block().expect("ready");
        assert_eq!(b.ring_index(), i);
        assert_eq!(ring.cursor(), (i + 1) % 3);
    }
}

#[test]
fn cursor_wraps_after_full_cycle() {
    let mut ring = ring_with_status(&[1, 1, 1]);
    let first = ring.check_current_block().unwrap();
    let _second = ring.check_current_block().unwrap();
    let _third = ring.check_current_block().unwrap();
    assert_eq!(ring.cursor(), 0);
    // put the first block back, still USER-owned: the wrapped cursor
    // finds it again
    ring.return_block(first);
    let again = ring.check_current_block().unwrap();
    assert_eq!(again.ring_index(), 0);
}

#[test]
fn not_ready_leaves_ring() {
    let mut ring = ring_with_status(&[0, 1]);
    assert!(ring.check_current_block().is_none());
    assert_eq!(ring.cursor(), 0);
    assert!(ring.check_current_block().is_none());
}

#[test]
fn saturation_half_ripe() {
    // ten blocks, cursor at 0, blocks 0-4 ripe, 5-9 not, stride 10%
    let ring = ring_with_status(&[1, 1, 1, 1, 1, 0, 0, 0, 0, 0]);
    let pct = ring.buffer_saturation_threshold(10);
    assert_eq!(pct, 50);
    assert!(pct >= 50 && pct <= 60);
}

#[test]
fn saturation_empty_and_full() {
    let none_ready = ring_with_status(&[0; 10]);
    assert_eq!(none_ready.buffer_saturation_threshold(10), 10);
    let all_ready = ring_with_status(&[1; 10]);
    assert_eq!(all_ready.buffer_saturation_threshold(10), 100);
}

#[test]
fn saturation_step_floor() {
    // 3 blocks at 10%: the stride rounds down to zero and is floored
    // at one block
    let ring = ring_with_status(&[1, 1, 1]);
    assert_eq!(ring.buffer_saturation_threshold(10), 100);
}

#[test]
fn saturation_monotone_concrete() {
    // releasing more blocks never lowers the estimate
    let sparse = vec![true, false, true, false, false, false, false, false];
    let denser = vec![true, true, true, false, true, false, false, true];
    for sp in [0u8, 5, 10, 25, 49] {
        let a = saturation_probe(&sparse, 0, sp);
        let b = saturation_probe(&denser, 0, sp);
        assert!(a <= b, "sp={} a={} b={}", sp, a, b);
    }
}

#[test]
fn async_readiness_flip() {
    // no block is ripe; an external actor flips block 0 to USER and
    // the next poll of the ring hands it out
    let mut ring = ring_with_status(&[0, 0]);
    assert!(ring.check_current_block().is_none());
    ring.set_block_data(0, bare_block(TP_STATUS_USER, 42));
    let b = ring.check_current_block().expect("now ready");
    assert_eq!(b.ring_index(), 0);
    assert_eq!(b.desc().hdr.seq_num, 42);
    assert_eq!(b.desc().hdr.block_status, TP_STATUS_USER);
}

#[test]
fn init_count_mismatch() {
    let blocks = vec![RawBlock::new(bare_block(0, 0))];
    match Ring::init(blocks, opts(2)) {
        Err(RingError::BlockCountMismatch) => {}
        _ => panic!("a one-block vector cannot form a two-block ring"),
    }
    match Ring::init(Vec::new(), opts(0)) {
        Err(RingError::BlockCountMismatch) => {}
        _ => panic!("an empty ring is refused"),
    }
}

#[test]
fn blocks_count_reports_config() {
    let ring = ring_with_status(&[0, 0, 0, 0]);
    assert_eq!(ring.blocks_count(), 4);
}

#[test]
fn consumed_slot_not_ready_again() {
    let mut ring = ring_with_status(&[1]);
    let block = ring.check_current_block().unwrap();
    let mut it = block.into_raw_packets_iter();
    assert!(it.next().is_none());
    let block = it.into_block();
    assert_eq!(block.desc().hdr.block_status, TP_STATUS_KERNEL);
    ring.return_block(block);
    assert!(!ring.is_block_ready(0));
    assert!(ring.check_current_block().is_none());
}
