use rangefinder::frame::checksum;
use rangefinder::scan::{check_capsules, decode_batch, decode_sample, validate_dense, Sample};

fn record(start: bool, intensity: u8, angle: u16, distance: u16) -> [u8; 5] {
    let sync = if start { 0b01 } else { 0b10 };
    let word = distance * 4;
    [
        (intensity << 2) | sync,
        (((angle & 1) as u8) << 7) | 1,
        (angle >> 1) as u8,
        (word & 0xFF) as u8,
        (word >> 8) as u8,
    ]
}

fn capsule(fill: u8) -> Vec<u8> {
    let mut body = vec![fill; 82];
    body[0] = 0x11;
    let sum = checksum(&body);
    let mut msg = vec![0xA0 | (sum & 0x0F), 0x50 | (sum >> 4)];
    msg.extend(body);
    msg
}

#[test]
fn sample_decode_literal_case() {
    let s = decode_sample(&[0x01, 0x81, 0x10, 0x00, 0x04]).unwrap();
    assert_eq!(s.start, true);
    assert_eq!(s.intensity, 0);
    assert_eq!(s.angle, 0x21);
    assert_eq!(s.distance, 256);
}

#[test]
fn sample_decode_takes_every_field_from_its_bits() {
    let s = decode_sample(&[0xFE, 0x7F, 0xFF, 0xFF, 0xFF]).unwrap();
    assert_eq!(s, Sample { start: false, intensity: 0x3F, angle: 0x1FE, distance: 0x3FFF });
    let s = decode_sample(&[0x02, 0x01, 0x00, 0x03, 0x00]).unwrap();
    assert_eq!(s, Sample { start: false, intensity: 0, angle: 0, distance: 0 });
    let s = decode_sample(&[0x05, 0x81, 0x01, 0x07, 0x01]).unwrap();
    assert_eq!(s, Sample { start: true, intensity: 1, angle: 3, distance: 65 });
}

#[test]
fn sample_builder_and_decoder_agree() {
    let s = decode_sample(&record(true, 17, 359, 4000)).unwrap();
    assert_eq!(s, Sample { start: true, intensity: 17, angle: 359, distance: 4000 });
}

#[test]
fn record_with_equal_sync_bits_is_rejected() {
    assert_eq!(decode_sample(&[0x00, 0x81, 0x10, 0x00, 0x04]), None);
    assert_eq!(decode_sample(&[0x03, 0x81, 0x10, 0x00, 0x04]), None);
    assert_eq!(decode_sample(&[0xFC, 0x81, 0x10, 0x00, 0x04]), None);
    assert_eq!(decode_sample(&[0xFF, 0x81, 0x10, 0x00, 0x04]), None);
}

#[test]
fn record_without_check_bit_is_rejected() {
    assert_eq!(decode_sample(&[0x01, 0x80, 0x10, 0x00, 0x04]), None);
    assert_eq!(decode_sample(&[0x02, 0xFE, 0x10, 0x00, 0x04]), None);
}

#[test]
fn record_of_another_length_is_rejected() {
    assert_eq!(decode_sample(&[0x01, 0x81, 0x10, 0x00]), None);
    assert_eq!(decode_sample(&[0x01, 0x81, 0x10, 0x00, 0x04, 0x00]), None);
    assert_eq!(decode_sample(&[]), None);
}

#[test]
fn batch_skips_malformed_records() {
    let mut data = Vec::new();
    data.extend(record(true, 1, 10, 100));
    data.extend([0x00, 0x81, 0x10, 0x00, 0x04]);
    data.extend(record(false, 2, 11, 101));
    data.extend([0x01, 0x80, 0x10, 0x00, 0x04]);
    data.extend([0x03, 0x81, 0x10, 0x00, 0x04]);
    data.extend(record(false, 3, 12, 102));
    let batch = decode_batch(false, &data);
    assert_eq!(
        batch.samples,
        vec![
            Sample { start: true, intensity: 1, angle: 10, distance: 100 },
            Sample { start: false, intensity: 2, angle: 11, distance: 101 },
            Sample { start: false, intensity: 3, angle: 12, distance: 102 },
        ]
    );
    assert_eq!(batch.rejected, 3);
    assert!(!batch.seeking);
}

#[test]
fn batch_with_and_without_a_malformed_record_gives_the_same_samples() {
    let mut clean = Vec::new();
    clean.extend(record(false, 1, 10, 100));
    clean.extend(record(true, 2, 11, 101));
    clean.extend(record(false, 3, 12, 102));
    let mut dirty = Vec::new();
    dirty.extend(record(false, 1, 10, 100));
    dirty.extend(record(true, 2, 11, 101));
    dirty.extend([0x03, 0x81, 0x10, 0x00, 0x04]);
    dirty.extend(record(false, 3, 12, 102));
    for seeking in [false, true] {
        assert_eq!(decode_batch(seeking, &clean).samples, decode_batch(seeking, &dirty).samples);
    }
}

#[test]
fn seeking_holds_back_everything_before_the_first_start() {
    let mut data = Vec::new();
    for i in 0..4u16 {
        data.extend(record(false, 5, i, 50 + i));
    }
    data.extend(record(true, 6, 4, 54));
    data.extend(record(false, 7, 5, 55));
    data.extend(record(true, 8, 6, 56));
    data.extend(record(false, 9, 7, 57));
    let batch = decode_batch(true, &data);
    assert_eq!(
        batch.samples,
        vec![
            Sample { start: true, intensity: 6, angle: 4, distance: 54 },
            Sample { start: false, intensity: 7, angle: 5, distance: 55 },
            Sample { start: true, intensity: 8, angle: 6, distance: 56 },
            Sample { start: false, intensity: 9, angle: 7, distance: 57 },
        ]
    );
    assert_eq!(batch.rejected, 0);
    assert!(!batch.seeking);
}

#[test]
fn seeking_goes_on_while_no_start_is_seen() {
    let mut data = Vec::new();
    for i in 0..6u16 {
        data.extend(record(false, 5, i, 50 + i));
    }
    data.extend([0x03, 0x81, 0x10, 0x00, 0x04]);
    let batch = decode_batch(true, &data);
    assert!(batch.samples.is_empty());
    assert_eq!(batch.rejected, 1);
    assert!(batch.seeking);
}

#[test]
fn a_malformed_record_with_the_start_bit_does_not_end_seeking() {
    let mut data = Vec::new();
    data.extend([0x01, 0x80, 0x10, 0x00, 0x04]);
    data.extend(record(false, 1, 1, 1));
    let batch = decode_batch(true, &data);
    assert!(batch.samples.is_empty());
    assert!(batch.seeking);
    assert_eq!(batch.rejected, 1);
}

#[test]
fn batch_leaves_a_trailing_part_of_a_record_alone() {
    let mut data = Vec::new();
    data.extend(record(true, 1, 2, 3));
    data.extend([0x00, 0x00, 0x00]);
    let batch = decode_batch(true, &data);
    assert_eq!(batch.samples.len(), 1);
    assert_eq!(batch.rejected, 0);
    let batch = decode_batch(true, &[0x01, 0x81]);
    assert!(batch.samples.is_empty());
    assert_eq!(batch.rejected, 0);
    assert!(batch.seeking);
}

#[test]
fn decoding_read_by_read_equals_decoding_at_once() {
    let mut first = Vec::new();
    first.extend(record(false, 1, 1, 1));
    first.extend(record(false, 2, 2, 2));
    let mut second = Vec::new();
    second.extend(record(false, 3, 3, 3));
    second.extend(record(true, 4, 4, 4));
    second.extend(record(false, 5, 5, 5));
    let mut whole = first.clone();
    whole.extend(second.iter());
    let a = decode_batch(true, &first);
    let b = decode_batch(a.seeking, &second);
    let w = decode_batch(true, &whole);
    let mut joined = a.samples.clone();
    joined.extend(b.samples.iter());
    assert_eq!(joined, w.samples);
    assert_eq!(b.seeking, w.seeking);
    assert_eq!(a.rejected + b.rejected, w.rejected);
}

#[test]
fn dense_capsule_with_matching_checksum_is_valid() {
    let msg = capsule(0x3C);
    assert_eq!(msg.len(), 84);
    assert!(validate_dense(&msg));
}

#[test]
fn dense_capsule_is_rejected_for_sync_or_checksum() {
    let good = capsule(0x3C);
    let mut bad = good.clone();
    bad[0] = (bad[0] & 0x0F) | 0xB0;
    assert!(!validate_dense(&bad));
    let mut bad = good.clone();
    bad[1] = (bad[1] & 0x0F) | 0x40;
    assert!(!validate_dense(&bad));
    let mut bad = good.clone();
    bad[40] ^= 0x01;
    assert!(!validate_dense(&bad));
    let mut bad = good.clone();
    bad[0] ^= 0x01;
    assert!(!validate_dense(&bad));
}

#[test]
fn dense_capsule_of_two_bytes() {
    assert!(validate_dense(&[0xA0, 0x50]));
    assert!(!validate_dense(&[0xA1, 0x50]));
}

#[test]
fn capsules_are_counted() {
    let mut data = Vec::new();
    data.extend(capsule(1));
    let mut bad = capsule(2);
    bad[10] ^= 0x80;
    data.extend(bad);
    data.extend(capsule(3));
    data.extend([0u8; 84]);
    data.extend([0xA0, 0x50, 0x00]);
    assert_eq!(check_capsules(&data), 2);
    assert_eq!(check_capsules(&[]), 0);
}
