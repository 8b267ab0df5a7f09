use winpcap_channel::codec::{decode_records, word_align, FrameRecord};
use winpcap_channel::error::ChannelError;

fn push_word(buf: &mut Vec<u8>, value: u64) {
    let mut v = value;
    for _ in 0..8 {
        buf.push((v & 0xff) as u8);
        v >>= 8;
    }
}

fn record(buf: &mut Vec<u8>, header_len: u64, payload: &[u8]) {
    let start = buf.len();
    push_word(buf, header_len);
    push_word(buf, payload.len() as u64);
    while (buf.len() - start) < header_len as usize {
        buf.push(0);
    }
    buf.extend_from_slice(payload);
    while (buf.len() - start) % 8 != 0 {
        buf.push(0);
    }
}

#[test]
fn word_align_rounds_up_to_multiples_of_eight() {
    assert_eq!(word_align(0), 0);
    assert_eq!(word_align(1), 8);
    assert_eq!(word_align(7), 8);
    assert_eq!(word_align(8), 8);
    assert_eq!(word_align(9), 16);
    assert_eq!(word_align(56), 56);
}

#[test]
fn two_records_decode_to_their_offsets_and_lengths() {
    // Two consecutive records, header length 16 and captured length 40 each:
    // 56 bytes is already word aligned, so the records abut.
    let mut buf = Vec::new();
    record(&mut buf, 16, &[0xaa; 40]);
    record(&mut buf, 16, &[0xbb; 40]);
    assert_eq!(buf.len(), 112);
    let records = decode_records(&buf, buf.len()).unwrap();
    assert_eq!(
        records,
        vec![
            FrameRecord { offset: 16, length: 40 },
            FrameRecord { offset: 72, length: 40 },
        ]
    );
}

#[test]
fn unaligned_record_is_padded_to_the_next_word() {
    // header 16 + payload 3 = 19 bytes, so the next record starts at 24.
    let mut buf = Vec::new();
    record(&mut buf, 16, &[1, 2, 3]);
    record(&mut buf, 16, &[9; 8]);
    assert_eq!(buf.len(), 48);
    let records = decode_records(&buf, buf.len()).unwrap();
    assert_eq!(
        records,
        vec![
            FrameRecord { offset: 16, length: 3 },
            FrameRecord { offset: 40, length: 8 },
        ]
    );
}

#[test]
fn zero_bytes_received_decodes_to_zero_records() {
    let buf = vec![0xffu8; 64];
    let records = decode_records(&buf, 0).unwrap();
    assert!(records.is_empty());
}

#[test]
fn decoding_stops_at_bytes_received() {
    let mut buf = Vec::new();
    record(&mut buf, 16, &[7; 8]);
    let first = buf.len();
    record(&mut buf, 16, &[8; 8]);
    let records = decode_records(&buf, first).unwrap();
    assert_eq!(records, vec![FrameRecord { offset: 16, length: 8 }]);
}

#[test]
fn truncated_header_is_a_decode_fault() {
    let buf = vec![0u8; 10];
    let err = decode_records(&buf, 10).unwrap_err();
    assert_eq!(err, ChannelError::DriverCallFailed { code: 0 });
}

#[test]
fn payload_past_the_delivered_bytes_is_a_decode_fault() {
    let mut buf = Vec::new();
    push_word(&mut buf, 16);
    push_word(&mut buf, 1000);
    buf.resize(56, 0);
    let err = decode_records(&buf, 56).unwrap_err();
    assert_eq!(err, ChannelError::DriverCallFailed { code: 0 });
}

#[test]
fn record_of_no_width_is_a_decode_fault() {
    let mut buf = Vec::new();
    push_word(&mut buf, 0);
    push_word(&mut buf, 0);
    buf.resize(32, 0);
    let err = decode_records(&buf, 32).unwrap_err();
    assert_eq!(err, ChannelError::DriverCallFailed { code: 0 });
}
