use af_packet::socket::{
    flag_update_req, if_name_has_nul, ifr_short_from_bytes, Filter, FilterProgram, IfReq,
    IFF_PROMISC, IF_NAMESIZE,
};
use af_packet::tpacket3::{store_u32_at, u16_at, u32_at, u64_at};
use af_packet::RingError;

#[test]
fn ifreq_short_round_trip() {
    for v in [0u16, 1, 0x0141, 0x8000, 0xFFFF] {
        let req = IfReq::from_short(v);
        assert_eq!(req.as_short(), v);
        assert_eq!(req.ifr_flags(), v);
    }
}

#[test]
fn ifreq_data_layout() {
    let req = IfReq::from_short(0x0201);
    let data = req.data_bytes();
    assert_eq!(data.len(), 24);
    assert_eq!(data[0], 0x01);
    assert_eq!(data[1], 0x02);
    assert!(data[2..].iter().all(|b| *b == 0));
    assert_eq!(ifr_short_from_bytes(data[0], data[1]), 0x0201);
}

#[test]
fn promiscuous_flag_set() {
    // flags read back as 0x0041; adding IFF_PROMISC must leave the bit
    // set in the request written back
    let req = flag_update_req(0x0041, "eth0", IFF_PROMISC).unwrap();
    assert_eq!(req.as_short(), 0x0141);
    assert_ne!(req.as_short() & IFF_PROMISC, 0);
    let name = req.name_bytes();
    assert_eq!(&name[..4], b"eth0");
    assert!(name[4..].iter().all(|b| *b == 0));
}

#[test]
fn promiscuous_bit_already_set() {
    let req = flag_update_req(0x0141, "eth0", IFF_PROMISC).unwrap();
    assert_eq!(req.as_short(), 0x0141);
}

#[test]
fn long_name_rejected() {
    let long = "a-very-long-interface-name";
    match IfReq::with_if_name(long) {
        Err(RingError::IfNameTooLong) => {}
        _ => panic!("a name of {} bytes cannot fit", long.len()),
    }
    match flag_update_req(0, long, IFF_PROMISC) {
        Err(RingError::IfNameTooLong) => {}
        _ => panic!("the update request must refuse the name too"),
    }
    // fifteen bytes are the longest name that leaves room for the nul
    assert!(IfReq::with_if_name("fifteen-bytes-x").is_ok());
    assert!(IfReq::with_if_name("sixteen-bytes-xy").is_err());
}

#[test]
fn with_if_name_pads() {
    let req = IfReq::with_if_name("lo").unwrap();
    let name = req.name_bytes();
    assert_eq!(name.len(), IF_NAMESIZE);
    assert_eq!(&name[..2], b"lo");
    assert!(name[2..].iter().all(|b| *b == 0));
    assert!(req.data_bytes().iter().all(|b| *b == 0));
}

#[test]
fn nul_scan() {
    assert!(!if_name_has_nul("eth0"));
    assert!(if_name_has_nul("eth\0"));
    assert!(if_name_has_nul("\0eth"));
    assert!(!if_name_has_nul(""));
}

#[test]
fn filter_program_len() {
    let insns = vec![
        Filter { code: 0x28, jt: 0, jf: 0, k: 12 },
        Filter { code: 0x15, jt: 0, jf: 1, k: 0x0800 },
        Filter { code: 0x06, jt: 0, jf: 0, k: 0xFFFF },
    ];
    let prog = FilterProgram::new(insns).unwrap();
    assert_eq!(prog.len(), 3);
    assert_eq!(prog.instructions().len(), 3);
    assert_eq!(prog.instructions()[1].k, 0x0800);

    let oversized = vec![Filter { code: 0, jt: 0, jf: 0, k: 0 }; 0x10000 + 1];
    assert!(FilterProgram::new(oversized).is_none());
}

#[test]
fn le_readers() {
    let bytes: Vec<u8> = vec![0x78, 0x56, 0x34, 0x12, 0xEF, 0xCD, 0xAB, 0x89];
    assert_eq!(u16_at(&bytes, 0), 0x5678);
    assert_eq!(u16_at(&bytes, 2), 0x1234);
    assert_eq!(u32_at(&bytes, 0), 0x12345678);
    assert_eq!(u32_at(&bytes, 4), 0x89ABCDEF);
    assert_eq!(u64_at(&bytes, 0), 0x89ABCDEF_12345678);
}

#[test]
fn le_writer_round_trip() {
    let mut buf = vec![0xAAu8; 12];
    store_u32_at(&mut buf, 4, 0xDEADBEEF);
    assert_eq!(u32_at(&buf, 4), 0xDEADBEEF);
    assert!(buf[..4].iter().all(|b| *b == 0xAA));
    assert!(buf[8..].iter().all(|b| *b == 0xAA));
    store_u32_at(&mut buf, 4, 0);
    assert_eq!(u32_at(&buf, 4), 0);
}
