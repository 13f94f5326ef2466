use gutters::codec::{decode_ack, decode_value, encode_ack, encode_value, ACK_BYTE, ACK_LEN, VALUE_LEN};
use gutters::errors::GutterError;

fn round_trips(v: f64) {
    let bits = v.to_bits();
    let wire = encode_value(bits);
    assert_eq!(wire.len(), VALUE_LEN);
    let back = decode_value(wire.as_slice());
    assert_eq!(back, bits);
}

#[test]
fn value_round_trip_finite() {
    round_trips(0.0);
    round_trips(-0.0);
    round_trips(1.0);
    round_trips(-1.5);
    round_trips(1e308);
    round_trips(-1e308);
    round_trips(5e-324);
    round_trips(f64::MAX);
    round_trips(f64::MIN);
    round_trips(f64::MIN_POSITIVE);
}

#[test]
fn value_round_trip_non_finite() {
    round_trips(f64::INFINITY);
    round_trips(f64::NEG_INFINITY);
    round_trips(f64::NAN);
    // a NaN with a deliberate payload: the bits must survive unchanged
    let payload_nan: u64 = 0x7ff8_0000_dead_beef;
    assert!(f64::from_bits(payload_nan).is_nan());
    let wire = encode_value(payload_nan);
    assert_eq!(decode_value(wire.as_slice()), payload_nan);
}

#[test]
fn value_wire_form_is_little_endian() {
    // 1.0 is 0x3FF0000000000000; little-endian puts the low byte first
    let wire = encode_value(1.0f64.to_bits());
    assert_eq!(wire, vec![0x00, 0x00, 0x00, 0x00, 0x00, 0x00, 0xf0, 0x3f]);
    // distinguishes the value from its byte-reversed reading
    let wire2 = encode_value(0x0102_0304_0506_0708);
    assert_eq!(wire2, vec![0x08, 0x07, 0x06, 0x05, 0x04, 0x03, 0x02, 0x01]);
}

#[test]
fn signed_zeroes_are_distinct_on_the_wire() {
    let plus = encode_value(0.0f64.to_bits());
    let minus = encode_value((-0.0f64).to_bits());
    assert_ne!(plus, minus);
    assert_eq!(decode_value(minus.as_slice()), (-0.0f64).to_bits());
}

#[test]
fn ack_marker_round_trip() {
    let wire = encode_ack();
    assert_eq!(wire.len(), ACK_LEN);
    assert_eq!(wire, vec![ACK_BYTE]);
    assert!(decode_ack(wire.as_slice()).is_ok());
}

#[test]
fn malformed_ack_is_rejected() {
    assert_eq!(decode_ack(&[]), Err(GutterError::Protocol));
    assert_eq!(decode_ack(&[0x01]), Err(GutterError::Protocol));
    assert_eq!(decode_ack(&[0x41]), Err(GutterError::Protocol));
    assert_eq!(decode_ack(&[0xff]), Err(GutterError::Protocol));
    assert_eq!(decode_ack(&[ACK_BYTE, ACK_BYTE]), Err(GutterError::Protocol));
    assert_eq!(decode_ack(&[0x01, ACK_BYTE]), Err(GutterError::Protocol));
}
