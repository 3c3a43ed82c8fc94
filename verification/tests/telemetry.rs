use marg_pipeline::telemetry::{encode, serialize, QuaternionBits, FRAME_LEN, PAYLOAD_LEN};

fn bits(w: f32, x: f32, y: f32, z: f32) -> QuaternionBits {
    QuaternionBits { w: w.to_bits(), x: x.to_bits(), y: y.to_bits(), z: z.to_bits() }
}

fn decode(frame: &[u8; FRAME_LEN]) -> QuaternionBits {
    let end = frame.iter().position(|b| *b == 0).unwrap();
    let mut payload = [0u8; PAYLOAD_LEN];
    let n = cobs::decode(&frame[..end], &mut payload).unwrap();
    assert_eq!(n, PAYLOAD_LEN);
    let word = |at: usize| u32::from_le_bytes([payload[at], payload[at + 1], payload[at + 2], payload[at + 3]]);
    QuaternionBits { w: word(0), x: word(4), y: word(8), z: word(12) }
}

#[test]
fn sizes_are_fixed() {
    assert_eq!(PAYLOAD_LEN, 16);
    assert_eq!(FRAME_LEN, 18);
}

#[test]
fn words_are_serialised_least_significant_byte_first() {
    let q = QuaternionBits { w: 0x1122_3344, x: 0x5566_7788, y: 0x99aa_bbcc, z: 0xddee_ff00 };
    assert_eq!(
        serialize(&q),
        [
            0x44, 0x33, 0x22, 0x11, 0x88, 0x77, 0x66, 0x55, 0xcc, 0xbb, 0xaa, 0x99, 0x00, 0xff,
            0xee, 0xdd
        ]
    );
}

#[test]
fn identity_quaternion_serialises_as_its_float_bytes() {
    let payload = serialize(&bits(1.0, 0.0, 0.0, 0.0));
    assert_eq!(payload, [0, 0, 0x80, 0x3f, 0, 0, 0, 0, 0, 0, 0, 0, 0, 0, 0, 0]);
    assert_eq!(&payload[0..4], &1.0f32.to_le_bytes());
}

#[test]
fn identity_quaternion_frame_is_byte_exact() {
    let frame = encode(&bits(1.0, 0.0, 0.0, 0.0));
    assert_eq!(frame, [1, 1, 3, 0x80, 0x3f, 1, 1, 1, 1, 1, 1, 1, 1, 1, 1, 1, 1, 0]);
}

#[test]
fn payload_without_zeros_gets_one_leading_code() {
    let q = QuaternionBits { w: 0x0403_0201, x: 0x0807_0605, y: 0x0c0b_0a09, z: 0x100f_0e0d };
    assert_eq!(encode(&q), [17, 1, 2, 3, 4, 5, 6, 7, 8, 9, 10, 11, 12, 13, 14, 15, 16, 0]);
}

#[test]
fn all_zero_payload_is_all_codes() {
    let q = QuaternionBits { w: 0, x: 0, y: 0, z: 0 };
    assert_eq!(encode(&q), [1, 1, 1, 1, 1, 1, 1, 1, 1, 1, 1, 1, 1, 1, 1, 1, 1, 0]);
}

#[test]
fn payload_ending_in_a_zero_byte_ends_in_a_code() {
    let q = QuaternionBits { w: 0xffff_ffff, x: 0xffff_ffff, y: 0xffff_ffff, z: 0x00ff_ffff };
    let mut expected = [0xffu8; FRAME_LEN];
    expected[0] = 16;
    expected[16] = 1;
    expected[17] = 0;
    assert_eq!(encode(&q), expected);
}

#[test]
fn frame_differs_from_its_payload() {
    let q = bits(1.0, 0.0, 0.0, 0.0);
    let payload = serialize(&q);
    let frame = encode(&q);
    assert_ne!(&frame[..PAYLOAD_LEN], &payload[..]);
    assert_ne!(payload, [0u8; PAYLOAD_LEN]);
}

#[test]
fn only_the_delimiter_is_zero() {
    for q in [
        bits(1.0, 0.0, 0.0, 0.0),
        bits(0.5, -0.5, 0.5, -0.5),
        bits(0.0, 0.0, 0.0, 0.0),
        QuaternionBits { w: 0x0000_0100, x: 0x0100_0000, y: 0x0001_0001, z: 0xff00_00ff },
    ] {
        let frame = encode(&q);
        assert_eq!(frame[FRAME_LEN - 1], 0);
        assert!(frame[..FRAME_LEN - 1].iter().all(|b| *b != 0));
    }
}

#[test]
fn identity_quaternion_round_trips() {
    let q = bits(1.0, 0.0, 0.0, 0.0);
    let back = decode(&encode(&q));
    assert_eq!(back, q);
    assert_eq!(f32::from_bits(back.w), 1.0);
    assert_eq!(f32::from_bits(back.x), 0.0);
    assert_eq!(f32::from_bits(back.y), 0.0);
    assert_eq!(f32::from_bits(back.z), 0.0);
}

#[test]
fn floats_round_trip_bit_for_bit() {
    let values = [
        0.0f32,
        -0.0,
        1.0,
        -1.0,
        0.70710677,
        -0.70710677,
        1.0e-3,
        f32::MIN_POSITIVE,
        f32::MAX,
        f32::INFINITY,
        f32::NEG_INFINITY,
    ];
    for w in values {
        for z in values {
            let q = bits(w, 0.5, -0.25, z);
            assert_eq!(decode(&encode(&q)), q);
        }
    }
}

#[test]
fn nan_payloads_round_trip() {
    let q = QuaternionBits { w: 0x7fc0_0000, x: 0xffc0_0001, y: 0x7f80_0001, z: 0x7fff_ffff };
    assert_eq!(decode(&encode(&q)), q);
}

#[test]
fn word_patterns_round_trip() {
    let words = [0u32, 1, 0xff, 0x100, 0xff00, 0x0001_0000, 0x00ff_0000, 0x0100_0000, 0xff00_0000, u32::MAX];
    for w in words {
        for x in words {
            let q = QuaternionBits { w, x, y: x ^ 0x5a5a_5a5a, z: w.rotate_left(8) };
            assert_eq!(decode(&encode(&q)), q);
        }
    }
}
