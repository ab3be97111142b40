use vhost_user_rpmb::frame::{VirtIORPMBFrame, RPMB_FRAME_SIZE};

fn sample_frame() -> VirtIORPMBFrame {
    let mut f = VirtIORPMBFrame::default();
    for i in 0..196 {
        f.stuff[i] = (i * 3) as u8;
    }
    for i in 0..32 {
        f.key_mac[i] = 0xA0 + i as u8;
    }
    for i in 0..256 {
        f.data[i] = (255 - i) as u8;
    }
    for i in 0..16 {
        f.nonce[i] = 0x10 + i as u8;
    }
    f.write_counter = 0x0102_0304;
    f.address = 0xBEEF;
    f.block_count = 0x0001;
    f.result = 0x0080;
    f.req_resp = 0x0300;
    f
}

#[test]
fn frame_round_trip() {
    let f = sample_frame();
    let bytes = f.encode();
    assert_eq!(bytes.len(), RPMB_FRAME_SIZE);
    assert_eq!(VirtIORPMBFrame::decode(&bytes), f);
    assert_eq!(VirtIORPMBFrame::decode(&bytes).encode(), bytes);
}

#[test]
fn frame_round_trip_extremes() {
    let mut f = VirtIORPMBFrame::result(0xFFFF, 0xFFFF);
    f.write_counter = u32::MAX;
    f.address = 0x8000;
    f.block_count = 0x00FF;
    assert_eq!(VirtIORPMBFrame::decode(&f.encode()), f);
}

#[test]
fn integers_are_big_endian_on_the_wire() {
    let bytes = sample_frame().encode();
    assert_eq!(&bytes[500..504], &[0x01, 0x02, 0x03, 0x04]);
    assert_eq!(&bytes[504..506], &[0xBE, 0xEF]);
    assert_eq!(&bytes[506..508], &[0x00, 0x01]);
    assert_eq!(&bytes[508..510], &[0x00, 0x80]);
    assert_eq!(&bytes[510..512], &[0x03, 0x00]);
    assert_eq!(bytes[196], 0xA0);
    assert_eq!(bytes[227], 0xA0 + 31);
    assert_eq!(bytes[228], 255);
    assert_eq!(bytes[484], 0x10);
    assert_eq!(bytes[1], 3);
}

#[test]
fn decode_reads_fields_at_their_offsets() {
    let mut bytes = vec![0u8; 512];
    bytes[196] = 0x11;
    bytes[499] = 0x22;
    bytes[500] = 0xDE;
    bytes[501] = 0xAD;
    bytes[502] = 0xBE;
    bytes[503] = 0xEF;
    bytes[507] = 1;
    bytes[511] = 5;
    let f = VirtIORPMBFrame::decode(&bytes);
    assert_eq!(f.key_mac[0], 0x11);
    assert_eq!(f.nonce[15], 0x22);
    assert_eq!(f.write_counter, 0xDEAD_BEEF);
    assert_eq!(f.block_count, 1);
    assert_eq!(f.req_resp, 5);
    assert_eq!(f.result, 0);
}

#[test]
fn result_frame_is_zero_but_codes() {
    let f = VirtIORPMBFrame::result(0x0100, 0x0005);
    let bytes = f.encode();
    assert_eq!(&bytes[508..512], &[0x00, 0x05, 0x01, 0x00]);
    assert!(bytes[..508].iter().all(|b| *b == 0));
}

#[test]
fn default_frame_is_all_zero() {
    let bytes = VirtIORPMBFrame::default().encode();
    assert_eq!(bytes, vec![0u8; 512]);
}
