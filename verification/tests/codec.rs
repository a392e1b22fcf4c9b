use telemetry::codec::FRAME_SIZE;
use telemetry::TelemetryV1;

fn sample_frame() -> TelemetryV1 {
    TelemetryV1 {
        timestamp_ms: 1_700_000_123_456,
        pitch_bits: 0.25f32.to_bits(),
        yaw_bits: (-1.5f32).to_bits(),
        roll_bits: 3.14159f32.to_bits(),
        x_bits: 101.75f32.to_bits(),
        y_bits: (-7.0f32).to_bits(),
        z_bits: 0.0f32.to_bits(),
    }
}

#[test]
fn round_trip_returns_the_frame_bit_for_bit() {
    let frame = sample_frame();
    let bytes = frame.encode();
    let back = TelemetryV1::decode(bytes.as_slice()).expect("exactly one frame of bytes");
    assert_eq!(back, frame);
    assert_eq!(f32::from_bits(back.yaw_bits), -1.5f32);
}

#[test]
fn round_trip_keeps_extreme_bit_patterns() {
    let frame = TelemetryV1 {
        timestamp_ms: u64::MAX,
        pitch_bits: f32::NAN.to_bits(),
        yaw_bits: f32::NEG_INFINITY.to_bits(),
        roll_bits: u32::MAX,
        x_bits: 0,
        y_bits: 1,
        z_bits: f32::MIN_POSITIVE.to_bits(),
    };
    let bytes = frame.encode();
    let back = TelemetryV1::decode(bytes.as_slice()).expect("exactly one frame of bytes");
    assert_eq!(back, frame);
}

#[test]
fn encode_has_fixed_size_for_every_frame() {
    assert_eq!(sample_frame().encode().len(), FRAME_SIZE);
    let zero = TelemetryV1 {
        timestamp_ms: 0,
        pitch_bits: 0,
        yaw_bits: 0,
        roll_bits: 0,
        x_bits: 0,
        y_bits: 0,
        z_bits: 0,
    };
    assert_eq!(zero.encode().len(), FRAME_SIZE);
    assert_eq!(FRAME_SIZE, 32);
}

#[test]
fn encode_is_little_endian_in_field_order() {
    let frame = TelemetryV1 {
        timestamp_ms: 0x0102_0304_0506_0708,
        pitch_bits: 0x1112_1314,
        yaw_bits: 0x2122_2324,
        roll_bits: 0x3132_3334,
        x_bits: 0x4142_4344,
        y_bits: 0x5152_5354,
        z_bits: 0x6162_6364,
    };
    let bytes = frame.encode();
    assert_eq!(
        bytes,
        vec![
            0x08, 0x07, 0x06, 0x05, 0x04, 0x03, 0x02, 0x01, // timestamp_ms
            0x14, 0x13, 0x12, 0x11, // pitch_bits
            0x24, 0x23, 0x22, 0x21, // yaw_bits
            0x34, 0x33, 0x32, 0x31, // roll_bits
            0x44, 0x43, 0x42, 0x41, // x_bits
            0x54, 0x53, 0x52, 0x51, // y_bits
            0x64, 0x63, 0x62, 0x61, // z_bits
        ]
    );
}

#[test]
fn decode_rejects_any_other_length() {
    let bytes = sample_frame().encode();
    assert!(TelemetryV1::decode(&bytes[..FRAME_SIZE - 1]).is_none());
    assert!(TelemetryV1::decode(&[]).is_none());
    let mut long = bytes.clone();
    long.push(0);
    assert!(TelemetryV1::decode(&long).is_none());
    assert!(TelemetryV1::decode(&bytes).is_some());
}
