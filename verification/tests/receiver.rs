use winpcap_channel::codec::FrameRecord;
use winpcap_channel::error::ChannelError;
use winpcap_channel::receiver::{DataLinkReceiverImpl, NextOutcome};

fn push_word(buf: &mut Vec<u8>, value: u64) {
    let mut v = value;
    for _ in 0..8 {
        buf.push((v & 0xff) as u8);
        v >>= 8;
    }
}

fn framed(payloads: &[&[u8]]) -> Vec<u8> {
    let mut buf = Vec::new();
    for payload in payloads {
        push_word(&mut buf, 16);
        push_word(&mut buf, payload.len() as u64);
        buf.extend_from_slice(payload);
        while buf.len() % 8 != 0 {
            buf.push(0);
        }
    }
    buf
}

#[test]
fn fresh_iterator_asks_for_a_receive() {
    let receiver = DataLinkReceiverImpl { buffer: vec![0u8; 256] };
    let mut it = receiver.iter();
    assert_eq!(it.next(), NextOutcome::NeedReceive);
}

#[test]
fn failed_receive_surfaces_the_error_and_leaves_the_queue_empty() {
    let receiver = DataLinkReceiverImpl { buffer: vec![0u8; 256] };
    let mut it = receiver.iter();
    assert_eq!(it.next(), NextOutcome::NeedReceive);
    let err = it.on_receive(false, 9, &Vec::new()).unwrap_err();
    assert_eq!(err, ChannelError::DriverCallFailed { code: 9 });
    // The queue is untouched: the next call asks for another receive.
    assert_eq!(it.next(), NextOutcome::NeedReceive);
}

#[test]
fn empty_receive_leaves_the_iterator_waiting() {
    let receiver = DataLinkReceiverImpl { buffer: vec![0u8; 256] };
    let mut it = receiver.iter();
    let queued = it.on_receive(true, 0, &Vec::new()).unwrap();
    assert_eq!(queued, 0);
    assert_eq!(it.next(), NextOutcome::NeedReceive);
}

#[test]
fn decoded_records_come_out_in_buffer_order() {
    let receiver = DataLinkReceiverImpl { buffer: vec![0u8; 256] };
    let mut it = receiver.iter();
    let buf = framed(&[&[0xaa; 40], &[0xbb; 40]]);
    assert_eq!(buf.len(), 112);
    let queued = it.on_receive(true, 0, &buf).unwrap();
    assert_eq!(queued, 2);
    assert_eq!(
        it.next(),
        NextOutcome::Frame(FrameRecord { offset: 16, length: 40 })
    );
    assert_eq!(
        it.next(),
        NextOutcome::Frame(FrameRecord { offset: 72, length: 40 })
    );
    assert_eq!(it.next(), NextOutcome::NeedReceive);
}

#[test]
fn frame_view_exposes_the_payload_bytes_without_copying_them() {
    let receiver = DataLinkReceiverImpl { buffer: vec![0u8; 128] };
    let mut it = receiver.iter();
    let payload: Vec<u8> = (0u8..48).collect();
    let buf = framed(&[&payload]);
    it.on_receive(true, 0, &buf).unwrap();
    match it.next() {
        NextOutcome::Frame(rec) => {
            assert_eq!(rec, FrameRecord { offset: 16, length: 48 });
            assert_eq!(it.frame_view(&rec), &payload[..]);
        }
        NextOutcome::NeedReceive => panic!("a record was queued"),
    }
}

#[test]
fn malformed_receive_buffer_is_a_driver_class_failure() {
    let receiver = DataLinkReceiverImpl { buffer: vec![0u8; 128] };
    let mut it = receiver.iter();
    let mut buf = Vec::new();
    push_word(&mut buf, 16);
    push_word(&mut buf, 500);
    buf.resize(64, 0);
    let err = it.on_receive(true, 0, &buf).unwrap_err();
    assert_eq!(err, ChannelError::DriverCallFailed { code: 0 });
    assert_eq!(it.next(), NextOutcome::NeedReceive);
}
