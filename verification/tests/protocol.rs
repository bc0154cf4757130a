use woofwoof::protocol::{
    finish_decode, finish_encode, has_woff2_signature, plan_decode, status_of_code,
    terminated_metadata, zeroed_buffer, Status,
};

#[test]
fn status_zero_always_means_failure() {
    assert_eq!(status_of_code(0), Status::Error);
    assert_eq!(status_of_code(1), Status::Success);
    assert_eq!(status_of_code(-1), Status::Success);
    assert_eq!(status_of_code(42), Status::Success);
}

#[test]
fn metadata_gets_terminated() {
    let m = vec![b'<', b'x', b'm', b'l', b'>'];
    let t = terminated_metadata(&m).unwrap();
    assert_eq!(t, vec![b'<', b'x', b'm', b'l', b'>', 0]);
}

#[test]
fn metadata_with_embedded_terminator_is_rejected() {
    let m = vec![b'a', 0, b'b'];
    assert!(terminated_metadata(&m).is_none());
    assert!(terminated_metadata(&vec![0]).is_none());
}

#[test]
fn empty_metadata_converts_to_zero_visible_length() {
    // Absent metadata and an explicitly zero-length sequence are one and
    // the same value, and both convert to a lone terminator: the engine
    // sees an address with a zero byte count either way.
    let absent: Vec<u8> = Vec::new();
    let t = terminated_metadata(&absent).unwrap();
    assert_eq!(t, vec![0]);
    assert_eq!(t.len() - 1, 0);
    assert_eq!(terminated_metadata(&Vec::new()), terminated_metadata(&absent));
}

#[test]
fn zeroed_buffer_is_exact_and_zero() {
    let b = zeroed_buffer(1000);
    assert_eq!(b.len(), 1000);
    assert!(b.iter().all(|&x| x == 0));
    assert_eq!(zeroed_buffer(0), Vec::<u8>::new());
}

#[test]
fn zero_size_estimate_rejects_decode() {
    assert!(plan_decode(0).is_none());
}

#[test]
fn nonzero_size_estimate_yields_buffer() {
    let b = plan_decode(37).unwrap();
    assert_eq!(b.len(), 37);
    assert!(b.iter().all(|&x| x == 0));
}

#[test]
fn finish_encode_shrinks_to_used_length() {
    let buffer = vec![9, 8, 7, 6, 5];
    let out = finish_encode(buffer, Status::Success, 3).unwrap();
    assert_eq!(out, vec![9, 8, 7]);
}

#[test]
fn finish_encode_failure_yields_nothing() {
    let buffer = vec![9, 8, 7];
    assert!(finish_encode(buffer, Status::Error, 3).is_none());
}

#[test]
fn finish_encode_never_grows_the_buffer() {
    let buffer = vec![1, 2];
    let out = finish_encode(buffer, Status::Success, 10).unwrap();
    assert_eq!(out, vec![1, 2]);
}

#[test]
fn finish_decode_returns_buffer_in_full() {
    let buffer = vec![3, 1, 4, 1, 5];
    assert_eq!(finish_decode(buffer.clone(), Status::Success).unwrap(), buffer);
    assert!(finish_decode(buffer, Status::Error).is_none());
}

#[test]
fn finish_encode_preserves_signature() {
    let mut buffer = b"wOF2".to_vec();
    buffer.extend_from_slice(&[5, 6, 7, 8]);
    let out = finish_encode(buffer, Status::Success, 6).unwrap();
    assert!(has_woff2_signature(&out));
    assert_eq!(out.len(), 6);
}

#[test]
fn signature_check_matches_literal() {
    let mut good = b"wOF2".to_vec();
    assert!(has_woff2_signature(&good));
    good.extend_from_slice(&[1, 2, 3]);
    assert!(has_woff2_signature(&good));

    assert!(!has_woff2_signature(&b"wOFF".to_vec()));
    assert!(!has_woff2_signature(&b"wOF".to_vec()));
    assert!(!has_woff2_signature(&Vec::new()));
    assert!(!has_woff2_signature(&b"XOF2".to_vec()));
}
