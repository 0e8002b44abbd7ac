use jungle::envelope::{decode_either_envelope, encode_conditional_emitted, ActiveBranch};

fn postcard_left(p: &[u8]) -> Vec<u8> {
    postcard::to_allocvec(&Ok::<Vec<u8>, Vec<u8>>(p.to_vec())).unwrap()
}

fn postcard_right(p: &[u8]) -> Vec<u8> {
    postcard::to_allocvec(&Err::<Vec<u8>, Vec<u8>>(p.to_vec())).unwrap()
}

fn as_branch(r: Result<Vec<u8>, Vec<u8>>) -> (ActiveBranch, Vec<u8>) {
    match r {
        Ok(p) => (ActiveBranch::Left, p),
        Err(p) => (ActiveBranch::Right, p),
    }
}

#[test]
fn envelope_bytes_match_the_wire_format() {
    for len in [0usize, 1, 127, 128, 300, 16384, 20000] {
        let payload: Vec<u8> = (0..len).map(|i| (i % 251) as u8).collect();
        assert_eq!(encode_conditional_emitted(ActiveBranch::Left, payload.clone()), postcard_left(&payload));
        assert_eq!(encode_conditional_emitted(ActiveBranch::Right, payload.clone()), postcard_right(&payload));
    }
}

#[test]
fn envelope_exact_bytes() {
    assert_eq!(encode_conditional_emitted(ActiveBranch::Left, vec![7, 8]), vec![0, 2, 7, 8]);
    let long = vec![1u8; 200];
    let bytes = encode_conditional_emitted(ActiveBranch::Right, long.clone());
    assert_eq!(&bytes[..3], &[1, 0xC8, 0x01]);
    assert_eq!(bytes.len(), 203);
}

#[test]
fn envelope_roundtrip_ignores_trailing_bytes() {
    let mut bytes = encode_conditional_emitted(ActiveBranch::Right, vec![9, 9, 9]);
    bytes.extend_from_slice(&[1, 2, 3]);
    assert_eq!(decode_either_envelope(&bytes), Some((ActiveBranch::Right, vec![9, 9, 9])));
}

#[test]
fn envelope_decoding_agrees_with_the_wire_format() {
    let cases: Vec<Vec<u8>> = vec![
        vec![],
        vec![0],
        vec![0, 0],
        vec![1, 3, 1, 2],
        vec![1, 3, 1, 2, 3, 4],
        vec![2, 0],
        vec![0x80, 0x00, 0x01, 0x05],
        vec![0x80, 0x80, 0x80, 0x80, 0x10, 0x00],
        vec![0x80, 0x80, 0x80, 0x80, 0x0F, 0x00],
        vec![0x00, 0x81, 0x00, 0x05],
        vec![0x00, 0xFF, 0xFF, 0xFF, 0xFF, 0xFF, 0xFF, 0xFF, 0xFF, 0xFF, 0x02],
        vec![0x00, 0xFF, 0xFF, 0xFF, 0xFF, 0xFF, 0xFF, 0xFF, 0xFF, 0xFF, 0x01],
        vec![0x00, 0x80, 0x80, 0x80, 0x80, 0x80, 0x80, 0x80, 0x80, 0x80, 0x80, 0x00],
        vec![0x81],
    ];
    for bytes in cases {
        let expected = postcard::from_bytes::<Result<Vec<u8>, Vec<u8>>>(&bytes).ok().map(as_branch);
        assert_eq!(decode_either_envelope(&bytes), expected, "bytes {bytes:?}");
    }
}
