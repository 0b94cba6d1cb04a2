use af_packet::rx::{RingBuilder, RingSettings, PACKET_FANOUT_HASH, PACKET_FANOUT_LB};
use af_packet::tpacket3::TpacketReq3;
use af_packet::{fanout_id, RingError};

#[test]
fn frame_count_derived() {
    let builder = RingBuilder::new("eth0")
        .unwrap()
        .block_size(4096)
        .block_count(8)
        .frame_size(1024);
    let req = builder.prepare_request();
    assert_eq!(req.tp_frame_nr, 4096 * 8 / 1024);
    assert_eq!(req.tp_frame_nr, 32);
    // the ring identity: frames exactly tile the blocks
    assert_eq!(
        req.tp_frame_size as u64 * req.tp_frame_nr as u64,
        req.tp_block_size as u64 * req.tp_block_nr as u64
    );
}

#[test]
fn frame_count_derived_defaults() {
    let builder = RingBuilder::new("eth0").unwrap();
    let req = builder.prepare_request();
    assert_eq!(req.tp_block_size, 32768);
    assert_eq!(req.tp_block_nr, 10000);
    assert_eq!(req.tp_frame_size, 2048);
    assert_eq!(req.tp_frame_nr, 160000);
    assert_eq!(req.tp_retire_blk_tov, 100);
    assert_eq!(req.tp_feature_req_word, 1);
}

#[test]
fn builder_defaults() {
    let b = RingBuilder::new("wlan0").unwrap();
    assert_eq!(b.if_name().as_str(), "wlan0");
    assert!(b.is_promiscuous());
    assert_eq!(b.fanout_mode(), PACKET_FANOUT_HASH);
    assert_eq!(b.opts().tp_block_size, 32768);
}

#[test]
fn builder_setters_apply() {
    let mut b = RingBuilder::new("eth1")
        .unwrap()
        .promiscuous(false)
        .fanout_method(PACKET_FANOUT_LB)
        .block_size(1 << 16)
        .block_count(32)
        .frame_size(4096)
        .timeout(250);
    assert!(!b.is_promiscuous());
    assert_eq!(b.fanout_mode(), PACKET_FANOUT_LB);
    assert_eq!(b.opts().tp_block_size, 1 << 16);
    assert_eq!(b.opts().tp_block_nr, 32);
    assert_eq!(b.opts().tp_frame_size, 4096);
    assert_eq!(b.opts().tp_retire_blk_tov, 250);
    assert!(b.take_filter().is_none());
}

#[test]
fn settings_carry_over() {
    let settings = RingSettings {
        if_name: String::from("lo"),
        fanout_method: PACKET_FANOUT_LB,
        ring_settings: TpacketReq3 {
            tp_block_size: 1024,
            tp_block_nr: 4,
            tp_frame_size: 256,
            tp_frame_nr: 0,
            tp_retire_blk_tov: 60,
            tp_sizeof_priv: 0,
            tp_feature_req_word: 0,
        },
        bpf: None,
    };
    let b = RingBuilder::from_settings(settings).unwrap();
    assert_eq!(b.if_name().as_str(), "lo");
    assert!(b.is_promiscuous());
    assert_eq!(b.fanout_mode(), PACKET_FANOUT_LB);
    let req = b.prepare_request();
    assert_eq!(req.tp_frame_nr, 1024 * 4 / 256);
    assert_eq!(req.tp_retire_blk_tov, 60);
}

#[test]
fn default_settings() {
    let s = RingSettings::default();
    assert_eq!(s.if_name.as_str(), "eth0");
    assert_eq!(s.fanout_method, PACKET_FANOUT_HASH);
    assert_eq!(s.ring_settings.tp_block_size, 32768);
    assert_eq!(s.ring_settings.tp_block_nr, 10000);
    assert_eq!(s.ring_settings.tp_frame_size, 2048);
    assert_eq!(s.ring_settings.tp_frame_nr, 160000);
    assert!(s.bpf.is_none());
}

#[test]
fn nul_name_rejected() {
    match RingBuilder::new("et\0h0") {
        Err(RingError::IfNameNul) => {}
        _ => panic!("an interior nul must be refused"),
    }
    let settings = RingSettings {
        if_name: String::from("e\0"),
        ..RingSettings::default()
    };
    match RingBuilder::from_settings(settings) {
        Err(RingError::IfNameNul) => {}
        _ => panic!("an interior nul must be refused"),
    }
}

#[test]
fn fanout_id_format() {
    // high 16 bits: the mode; low 16 bits: the pid's low 16 bits
    let id = fanout_id(0x12345678, 2);
    assert_eq!(id, 0x0002_5678);
    assert_eq!(id >> 16, 2);
    assert_eq!(id & 0xFFFF, 0x5678);
    assert_eq!(fanout_id(0xFFFF_FFFF, 0), 0xFFFF);
    assert_eq!(fanout_id(7, 1), 0x0001_0007);
}

#[test]
fn mmap_len_product() {
    let b = RingBuilder::new("eth0")
        .unwrap()
        .block_size(1 << 16)
        .block_count(1 << 16);
    assert_eq!(b.mmap_len(), 1u64 << 32);
}
