use anansi_core::{PcapReader, PcapWriter, RawFrame, TraceError};

fn roundtrip(frames: Vec<RawFrame>) -> Vec<RawFrame> {
    let mut w = PcapWriter::new(262144, 1);
    let mut bytes = w.take_bytes();
    for f in &frames {
        w.write_packet(f);
        bytes.extend_from_slice(&w.take_bytes());
    }
    let mut r = PcapReader::new(bytes).expect("header must parse");
    r.read_all().expect("records must parse")
}

#[test]
fn empty_trace_round_trips() {
    let out = roundtrip(Vec::new());
    assert_eq!(out.len(), 0);
}

#[test]
fn frames_round_trip_with_payload_and_timestamps() {
    let frames = vec![
        RawFrame { data: vec![1, 2, 3, 4], ts_sec: 10, ts_usec: 20, orig_len: 4 },
        RawFrame { data: Vec::new(), ts_sec: 0, ts_usec: 0, orig_len: 0 },
        RawFrame { data: vec![0xff; 60], ts_sec: 999, ts_usec: 123456, orig_len: 70 },
    ];
    let out = roundtrip(frames);
    assert_eq!(out.len(), 3);
    assert_eq!(out[0].data, vec![1, 2, 3, 4]);
    assert_eq!(out[0].ts_sec, 10);
    assert_eq!(out[0].ts_usec, 20);
    assert_eq!(out[0].orig_len, 4);
    assert_eq!(out[1].data.len(), 0);
    assert_eq!(out[2].data, vec![0xff; 60]);
    assert_eq!(out[2].ts_sec, 999);
    assert_eq!(out[2].ts_usec, 123456);
    // the original length may legitimately differ from the captured length
    assert_eq!(out[2].orig_len, 70);
    assert_eq!(out[2].data.len(), 60);
}

#[test]
fn header_carries_snaplen_and_link_type() {
    let mut w = PcapWriter::new(4321, 101);
    let bytes = w.take_bytes();
    assert_eq!(bytes.len(), 24);
    assert_eq!(&bytes[0..4], &[0xd4, 0xc3, 0xb2, 0xa1]);
    assert_eq!(&bytes[4..6], &[0x02, 0x00]);
    assert_eq!(&bytes[6..8], &[0x04, 0x00]);
    let r = PcapReader::new(bytes).unwrap();
    let _ = r;
}

#[test]
fn record_encoding_is_byte_exact() {
    let mut w = PcapWriter::new(262144, 1);
    let _ = w.take_bytes();
    w.write_packet(&RawFrame { data: vec![9, 8, 7], ts_sec: 1, ts_usec: 2, orig_len: 5 });
    let rec = w.take_bytes();
    assert_eq!(rec.len(), 19);
    assert_eq!(&rec[0..4], &[1, 0, 0, 0]);
    assert_eq!(&rec[4..8], &[2, 0, 0, 0]);
    assert_eq!(&rec[8..12], &[3, 0, 0, 0]);
    assert_eq!(&rec[12..16], &[5, 0, 0, 0]);
    assert_eq!(&rec[16..], &[9, 8, 7]);
}

#[test]
fn short_header_is_an_error() {
    assert!(matches!(PcapReader::new(vec![0xd4, 0xc3]), Err(TraceError::TruncatedHeader)));
}

#[test]
fn wrong_magic_is_an_error() {
    let bytes = vec![0u8; 24];
    assert!(matches!(PcapReader::new(bytes), Err(TraceError::BadMagic)));
}

#[test]
fn truncated_record_is_an_error_not_a_silent_stop() {
    let mut w = PcapWriter::new(262144, 1);
    w.write_packet(&RawFrame { data: vec![1, 2, 3, 4, 5], ts_sec: 0, ts_usec: 0, orig_len: 5 });
    let mut bytes = w.take_bytes();
    bytes.truncate(bytes.len() - 2);
    let mut r = PcapReader::new(bytes).unwrap();
    assert!(matches!(r.read_all(), Err(TraceError::TruncatedRecord)));
}

#[test]
fn truncated_record_header_is_an_error() {
    let mut w = PcapWriter::new(262144, 1);
    let mut bytes = w.take_bytes();
    bytes.extend_from_slice(&[1, 2, 3]);
    let mut r = PcapReader::new(bytes).unwrap();
    assert!(matches!(r.next_record(), Err(TraceError::TruncatedRecord)));
}

#[test]
fn sequential_read_yields_frames_in_file_order() {
    let mut w = PcapWriter::new(262144, 1);
    let mut bytes = w.take_bytes();
    for i in 0..4u8 {
        w.write_packet(&RawFrame {
            data: vec![i],
            ts_sec: i as u32,
            ts_usec: 0,
            orig_len: 1,
        });
    }
    bytes.extend_from_slice(&w.take_bytes());
    let mut r = PcapReader::new(bytes).unwrap();
    for i in 0..4u8 {
        let f = r.next_record().unwrap().expect("a record");
        assert_eq!(f.data, vec![i]);
        assert_eq!(f.ts_sec, i as u32);
    }
    assert!(r.next_record().unwrap().is_none());
}
