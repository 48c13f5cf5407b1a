use mayara_radar::navico::{
    decode_navico_fields, identify_navico_message, DecodedMessage, Field, FieldValue, IoDirection,
    MessageKind, NavicoDecoder, ProtocolDecoder, GAIN_AUTO_OFFSET, GAIN_OFFSET, INTERFERENCE_OFFSET,
    RAIN_OFFSET, SEA_AUTO_OFFSET, SEA_OFFSET,
};

fn field<'a>(fields: &'a [Field], key: &str) -> Option<&'a FieldValue> {
    fields.iter().find(|f| f.key == key).map(|f| &f.value)
}

fn as_u64(v: &FieldValue) -> Option<u64> {
    match v {
        FieldValue::Unsigned(n) => Some(*n),
        _ => None,
    }
}

fn as_bool(v: &FieldValue) -> Option<bool> {
    match v {
        FieldValue::Flag(b) => Some(*b),
        _ => None,
    }
}

fn as_str(v: &FieldValue) -> Option<&str> {
    match v {
        FieldValue::Text(s) => Some(s.as_str()),
        _ => None,
    }
}

#[test]
fn test_decode_status_report() {
    let decoder = NavicoDecoder;
    let mut data = vec![0x01, 0x00, 0x03];
    data.extend(vec![0x00; 10]);

    let msg = decoder.decode(&data, IoDirection::Recv);

    match msg {
        DecodedMessage::Classified { message_type, fields, .. } => {
            assert_eq!(message_type, "status");
            assert_eq!(field(&fields, "power").and_then(as_u64), Some(3));
            assert_eq!(field(&fields, "powerStr").and_then(as_str), Some("transmit"));
        }
        _ => panic!("Expected Navico message"),
    }
}

#[test]
fn test_decode_settings_report() {
    let decoder = NavicoDecoder;
    let mut data = vec![0x00; 32];
    data[0] = 0x02;
    data[GAIN_AUTO_OFFSET] = 0;
    data[GAIN_OFFSET] = 75;
    data[SEA_AUTO_OFFSET] = 2;
    data[SEA_OFFSET] = 50;
    data[RAIN_OFFSET] = 25;
    data[INTERFERENCE_OFFSET] = 1;

    let msg = decoder.decode(&data, IoDirection::Recv);

    match msg {
        DecodedMessage::Classified { message_type, fields, .. } => {
            assert_eq!(message_type, "settings");
            assert_eq!(field(&fields, "gain").and_then(as_u64), Some(75));
            assert_eq!(field(&fields, "gainAuto").and_then(as_bool), Some(false));
            assert_eq!(field(&fields, "sea").and_then(as_u64), Some(50));
            assert_eq!(field(&fields, "seaAuto").and_then(as_u64), Some(2));
            assert_eq!(field(&fields, "rain").and_then(as_u64), Some(25));
            assert_eq!(field(&fields, "interference").and_then(as_u64), Some(1));
        }
        _ => panic!("Expected Navico message"),
    }
}

#[test]
fn test_decode_settings_auto_gain() {
    let decoder = NavicoDecoder;
    let mut data = vec![0x00; 32];
    data[0] = 0x02;
    data[GAIN_AUTO_OFFSET] = 1;
    data[GAIN_OFFSET] = 128;

    let msg = decoder.decode(&data, IoDirection::Recv);

    match msg {
        DecodedMessage::Classified { fields, .. } => {
            assert_eq!(field(&fields, "gainAuto").and_then(as_bool), Some(true));
        }
        _ => panic!("Expected Navico message"),
    }
}

#[test]
fn test_decode_empty() {
    let decoder = NavicoDecoder;
    let msg = decoder.decode(&[], IoDirection::Recv);

    assert!(matches!(msg, DecodedMessage::Unknown { .. }));
}

#[test]
fn empty_reason_and_no_partial() {
    match NavicoDecoder.decode(&[], IoDirection::Send) {
        DecodedMessage::Unknown { reason, partial } => {
            assert_eq!(reason, "Empty data");
            assert!(partial.is_none());
        }
        _ => panic!("expected an unknown message"),
    }
}

#[test]
fn status_description_and_preview() {
    let data = vec![0x01, 0x00, 0x03, 0xab];
    match NavicoDecoder.decode(&data, IoDirection::Recv) {
        DecodedMessage::Classified { report_id, fields, description, .. } => {
            assert_eq!(report_id, Some(0x01));
            assert_eq!(description.as_deref(), Some("Status: transmit"));
            assert_eq!(field(&fields, "length").and_then(as_u64), Some(4));
            assert_eq!(field(&fields, "firstBytes").and_then(as_str), Some("[01, 00, 03, ab]"));
        }
        _ => panic!("expected a classified message"),
    }
}

#[test]
fn power_state_names() {
    for (p, name) in [(0u8, "off"), (1, "standby"), (2, "warmup"), (3, "transmit"), (9, "unknown")] {
        let data = vec![0x01, 0x00, p];
        let (_, fields) = decode_navico_fields(&data, MessageKind::Status);
        assert_eq!(field(&fields, "powerStr").and_then(as_str), Some(name));
    }
}

#[test]
fn status_missing_power_byte_reads_zero() {
    let (description, fields) = decode_navico_fields(&[0x01], MessageKind::Status);
    assert_eq!(description.as_deref(), Some("Status: off"));
    assert_eq!(field(&fields, "power").and_then(as_u64), Some(0));
}

#[test]
fn settings_description() {
    let mut data = vec![0x00; 32];
    data[0] = 0x02;
    data[GAIN_AUTO_OFFSET] = 1;
    data[GAIN_OFFSET] = 128;
    data[SEA_OFFSET] = 40;
    data[SEA_AUTO_OFFSET] = 3;
    data[RAIN_OFFSET] = 7;
    let (description, fields) = decode_navico_fields(&data, MessageKind::Settings);
    assert_eq!(
        description.as_deref(),
        Some("Gain: 128 (Auto), Sea: 40 (Moderate), Rain: 7")
    );
    let keys: Vec<&str> = fields.iter().map(|f| f.key.as_str()).collect();
    assert_eq!(
        keys,
        vec!["gain", "gainAuto", "sea", "seaAuto", "rain", "interference", "length", "firstBytes"]
    );
}

#[test]
fn short_settings_reads_zeros() {
    let (description, fields) = decode_navico_fields(&[0x02, 0x00], MessageKind::Settings);
    assert_eq!(description.as_deref(), Some("Gain: 0 (Manual), Sea: 0 (Manual), Rain: 0"));
    assert_eq!(field(&fields, "rain").and_then(as_u64), Some(0));
    assert_eq!(field(&fields, "gainAuto").and_then(as_bool), Some(false));
}

#[test]
fn range_report_little_endian() {
    let data = vec![0x08, 0, 0, 0, 0x10, 0x27, 0x00, 0x00, 0xff];
    match NavicoDecoder.decode(&data, IoDirection::Recv) {
        DecodedMessage::Classified { message_type, fields, description, .. } => {
            assert_eq!(message_type, "range");
            assert_eq!(field(&fields, "rangeRaw").and_then(as_u64), Some(10000));
            assert_eq!(description.as_deref(), Some("Range: 10000 dm"));
        }
        _ => panic!("expected a classified message"),
    }
    let (description, _) = decode_navico_fields(&[0x08, 1, 2, 3, 4, 5, 6], MessageKind::Range);
    assert_eq!(description.as_deref(), Some("Range: 0 dm"));
}

#[test]
fn spoke_when_long() {
    let mut data = vec![0x00; 101];
    data[0] = 0x34;
    data[1] = 0x12;
    data[2] = 0x01;
    match NavicoDecoder.decode(&data, IoDirection::Recv) {
        DecodedMessage::Classified { message_type, report_id, fields, description } => {
            assert_eq!(message_type, "spoke");
            assert_eq!(report_id, Some(0x34));
            assert_eq!(field(&fields, "angle").and_then(as_u64), Some(0x1234));
            assert_eq!(field(&fields, "length").and_then(as_u64), Some(101));
            assert_eq!(
                field(&fields, "firstBytes").and_then(as_str),
                Some("[34, 12, 01, 00, 00, 00, 00, 00, 00, 00, 00, 00, 00, 00, 00, 00]")
            );
            assert_eq!(description.as_deref(), Some("Spoke data (angle: 4660)"));
        }
        _ => panic!("expected a classified message"),
    }
    let data100 = vec![0x01; 100];
    assert_eq!(identify_navico_message(&data100, IoDirection::Recv), "status");
}

#[test]
fn report_kinds_by_first_byte() {
    assert_eq!(identify_navico_message(&[0x03, 0], IoDirection::Recv), "firmware");
    assert_eq!(identify_navico_message(&[0x04, 0], IoDirection::Recv), "diagnostic");
    assert_eq!(identify_navico_message(&[0x08, 0], IoDirection::Send), "range");
    assert_eq!(identify_navico_message(&[0x05, 0], IoDirection::Recv), "unknown");
}

#[test]
fn command_when_short_and_sent() {
    let data = vec![0x00, 0xc1, 0x01];
    match NavicoDecoder.decode(&data, IoDirection::Send) {
        DecodedMessage::Classified { message_type, fields, description, .. } => {
            assert_eq!(message_type, "command");
            assert_eq!(description.as_deref(), Some("Control command"));
            assert_eq!(field(&fields, "bytes").and_then(as_str), Some("[00, c1, 01]"));
        }
        _ => panic!("expected a classified message"),
    }
    assert_eq!(identify_navico_message(&[0x00; 20], IoDirection::Send), "unknown");
}

#[test]
fn unknown_has_no_description_and_short_preview() {
    let data: Vec<u8> = (0u8..40).collect();
    let (description, fields) = decode_navico_fields(&data, MessageKind::Unknown);
    assert!(description.is_none());
    let preview = field(&fields, "firstBytes").and_then(as_str).unwrap().to_string();
    assert!(preview.starts_with("[00, 01, 02"));
    assert!(preview.ends_with("1e, 1f]"));
    assert_eq!(fields.len(), 2);
}

#[test]
fn decoding_twice_gives_same_result() {
    let data = vec![0x02, 1, 2, 3, 4, 5, 6, 7, 8, 9, 10, 1, 12, 13];
    let a = NavicoDecoder.decode(&data, IoDirection::Recv);
    let b = NavicoDecoder.decode(&data, IoDirection::Recv);
    assert_eq!(a, b);
}

#[test]
fn brand_is_navico() {
    let d = NavicoDecoder;
    assert_eq!(d.brand(), "navico");
    let dynamic: &dyn ProtocolDecoder = &d;
    assert_eq!(dynamic.brand(), "navico");
    assert!(matches!(dynamic.decode(&[], IoDirection::Recv), DecodedMessage::Unknown { .. }));
}

#[test]
fn single_byte_report_is_classified_by_its_first_byte() {
    assert_eq!(identify_navico_message(&[0x01], IoDirection::Recv), "status");
    assert_eq!(identify_navico_message(&[0x00], IoDirection::Send), "command");
    assert_eq!(identify_navico_message(&[0x00], IoDirection::Recv), "unknown");
}
