use rangefinder::cmd::SlLidarCmd;
use rangefinder::error::RxError;
use rangefinder::frame::{checksum, decode_descriptor, encode_request, ResponseDescriptor};
use rangefinder::util::read_le_u32;

#[test]
fn checksum_of_nothing_is_zero() {
    assert_eq!(checksum(&[]), 0);
}

#[test]
fn checksum_literal_cases() {
    assert_eq!(checksum(&[0x01, 0x02, 0x03]), 0x00);
    assert_eq!(checksum(&[0xA5]), 0xA5);
    assert_eq!(checksum(&[0xA5, 0x82, 0x05]), 0x22);
    assert_eq!(checksum(&[0xFF, 0x0F]), 0xF0);
}

#[test]
fn checksum_ignores_order() {
    assert_eq!(checksum(&[0x10, 0x22, 0x47]), checksum(&[0x47, 0x10, 0x22]));
}

#[test]
fn checksum_of_a_frame_with_its_checksum_is_zero() {
    let frame = encode_request(SlLidarCmd::ExpressScan, Some(&[0, 0, 0, 0, 0]));
    assert_eq!(checksum(&frame), 0);
}

#[test]
fn request_without_payload_is_sync_and_opcode() {
    assert_eq!(encode_request(SlLidarCmd::Stop, None), vec![0xA5, 0x25]);
    assert_eq!(encode_request(SlLidarCmd::Reset, None), vec![0xA5, 0x40]);
    assert_eq!(encode_request(SlLidarCmd::Scan, None), vec![0xA5, 0x20]);
}

#[test]
fn request_with_payload_has_length_and_checksum() {
    let frame = encode_request(SlLidarCmd::ExpressScan, Some(&[0, 0, 0, 0, 0]));
    assert_eq!(frame, vec![0xA5, 0x82, 0x05, 0x00, 0x00, 0x00, 0x00, 0x00, 0x22]);
}

#[test]
fn request_with_empty_payload() {
    let frame = encode_request(SlLidarCmd::SetLidarConf, Some(&[]));
    assert_eq!(frame, vec![0xA5, 0x85, 0x00, 0xA5 ^ 0x85]);
}

#[test]
fn descriptor_of_the_plain_stream_decodes() {
    let d = decode_descriptor(&[0xA5, 0x5A, 0x05, 0x00, 0x00, 0x40, 0x81]).unwrap();
    assert_eq!(d, ResponseDescriptor { len: 5, send_mode: 1, data_type: 0x81 });
}

#[test]
fn descriptor_length_drops_the_top_two_bits() {
    let d = decode_descriptor(&[0xA5, 0x5A, 0x78, 0x56, 0x34, 0xD2, 0x04]).unwrap();
    assert_eq!(d.len, 0x1234_5678);
    assert_eq!(d.send_mode, 3);
    assert_eq!(d.data_type, 0x04);
}

#[test]
fn descriptor_round_trip() {
    for &(len, send_mode, data_type) in &[
        (0u32, 0u8, 0u8),
        (5, 1, 0x81),
        (84, 1, 0x85),
        (0x3FFF_FFFF, 3, 0xFF),
        (0x1234_5678, 2, 0x20),
        (20, 0, 0x04),
    ] {
        let d = ResponseDescriptor { len, send_mode, data_type };
        let bytes = d.encode().unwrap();
        assert_eq!(bytes[0], 0xA5);
        assert_eq!(bytes[1], 0x5A);
        assert_eq!(decode_descriptor(&bytes).unwrap(), d);
    }
}

#[test]
fn descriptor_encode_literal() {
    let d = ResponseDescriptor { len: 5, send_mode: 1, data_type: 0x81 };
    assert_eq!(d.encode(), Some([0xA5, 0x5A, 0x05, 0x00, 0x00, 0x40, 0x81]));
    let d = ResponseDescriptor { len: 84, send_mode: 1, data_type: 0x85 };
    assert_eq!(d.encode(), Some([0xA5, 0x5A, 0x54, 0x00, 0x00, 0x40, 0x85]));
}

#[test]
fn descriptor_encode_refuses_what_does_not_fit() {
    assert_eq!(ResponseDescriptor { len: 0x4000_0000, send_mode: 0, data_type: 0 }.encode(), None);
    assert_eq!(ResponseDescriptor { len: 0, send_mode: 4, data_type: 0 }.encode(), None);
}

#[test]
fn descriptor_without_sync_is_corrupted() {
    let cases: [[u8; 7]; 4] = [
        [0x00, 0x5A, 0x05, 0x00, 0x00, 0x40, 0x81],
        [0xA5, 0x00, 0x05, 0x00, 0x00, 0x40, 0x81],
        [0x5A, 0xA5, 0x05, 0x00, 0x00, 0x40, 0x81],
        [0xFF; 7],
    ];
    for bytes in cases.iter() {
        match decode_descriptor(bytes) {
            Err(RxError::Corrupted(b)) => assert_eq!(&b, bytes),
            other => panic!("expected a corrupted frame, got {:?}", other),
        }
    }
}

#[test]
fn read_le_u32_reads_and_advances() {
    let data = [0x78u8, 0x56, 0x34, 0x12, 0xAA, 0xBB];
    let mut input: &[u8] = &data;
    assert_eq!(read_le_u32(&mut input), 0x1234_5678);
    assert_eq!(input, &[0xAA, 0xBB]);
}
