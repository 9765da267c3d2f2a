use zak_sentry::dispatch::{decide, extract_payload, probe_frame, Verdict, ETH_OFFSET, UDP_OFFSET};

fn stamp_magic(frame: &mut [u8], offset: usize) {
    frame[offset] = 0x5A;
    frame[offset + 1] = 0x41;
    frame[offset + 2] = 0x4B;
    frame[offset + 3] = 0x00;
}

#[test]
fn test_decide_transport_match() {
    // 106 bytes: both candidate regions in bounds, tag at the transport offset.
    let mut frame = [0u8; 106];
    stamp_magic(&mut frame, 42);
    assert_eq!(decide(&frame), Verdict::Pass);
    assert_eq!(probe_frame(&frame), Some(UDP_OFFSET));
}

#[test]
fn test_decide_link_layer_fallback() {
    // 106-byte frame with the tag at the link-layer-only offset and nothing
    // at the transport offset: admitted via the fallback candidate.
    let mut frame = [0u8; 106];
    stamp_magic(&mut frame, 14);
    assert_eq!(decide(&frame), Verdict::Pass);
    assert_eq!(probe_frame(&frame), Some(ETH_OFFSET));
}

#[test]
fn test_decide_transport_out_of_bounds() {
    // 78 bytes: exactly enough for the link-layer candidate; the transport
    // candidate would extend past the frame end and is disqualified unread.
    let mut frame = [0u8; 78];
    stamp_magic(&mut frame, 14);
    assert_eq!(decide(&frame), Verdict::Pass);
    assert_eq!(probe_frame(&frame), Some(ETH_OFFSET));
}

#[test]
fn test_decide_no_magic_drops() {
    // Both candidate regions fully in bounds, neither carries the tag.
    let frame = [0u8; 120];
    assert_eq!(decide(&frame), Verdict::Drop);
    assert_eq!(probe_frame(&frame), None);
}

#[test]
fn test_decide_empty_frame_drops() {
    let frame: [u8; 0] = [];
    assert_eq!(decide(&frame), Verdict::Drop);
    assert_eq!(probe_frame(&frame), None);
}

#[test]
fn test_decide_undersized_frame_drops() {
    // Too short for either candidate region, tag bytes notwithstanding.
    let mut frame = [0u8; 60];
    stamp_magic(&mut frame, 14);
    assert_eq!(decide(&frame), Verdict::Drop);
}

#[test]
fn test_probe_priority_transport_first() {
    // Both candidates accept; the transport-encapsulated offset is attributed.
    let mut frame = [0u8; 106];
    stamp_magic(&mut frame, 14);
    stamp_magic(&mut frame, 42);
    assert_eq!(probe_frame(&frame), Some(UDP_OFFSET));
    assert_eq!(decide(&frame), Verdict::Pass);
}

#[test]
fn test_extract_payload_window() {
    let mut frame = [0u8; 120];
    for (i, byte) in frame.iter_mut().enumerate() {
        *byte = i as u8;
    }
    let payload = extract_payload(&frame, 42).expect("candidate in bounds");
    assert_eq!(payload.len(), 64);
    assert_eq!(payload[0], 42);
    assert_eq!(payload[63], 105);
}

#[test]
fn test_extract_payload_out_of_bounds() {
    let frame = [0u8; 105];
    assert!(extract_payload(&frame, 42).is_none());
    assert!(extract_payload(&frame, 14).is_some());
    assert!(extract_payload(&frame, usize::MAX).is_none());
}
