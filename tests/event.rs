use rm_pad::event::{code_name, decode_record, key_event, parse_input_event, RawEvent, BTN_TOUCH, EV_KEY};

#[test]
fn decodes_narrow_record() {
    let buf = [0u8, 0, 0, 0, 0, 0, 0, 0, 0x00, 0x00, 0x39, 0x00, 0x01, 0x00, 0x00, 0x00];
    let ev = parse_input_event(&buf).unwrap();
    assert_eq!(ev, RawEvent { event_type: 0, code: 0x39, value: 1 });
}

#[test]
fn short_buffer_is_no_event() {
    let buf = [0u8; 8];
    assert_eq!(parse_input_event(&buf), None);
    assert_eq!(parse_input_event(&[]), None);
    assert_eq!(parse_input_event(&[0u8; 15]), None);
}

#[test]
fn decodes_wide_record_and_negative_value() {
    let mut buf = [0xAAu8; 24];
    buf[16] = 0x03;
    buf[17] = 0x00;
    buf[18] = 0x39;
    buf[19] = 0x00;
    buf[20] = 0xFF;
    buf[21] = 0xFF;
    buf[22] = 0xFF;
    buf[23] = 0xFF;
    let ev = parse_input_event(&buf).unwrap();
    assert_eq!(ev, RawEvent { event_type: 3, code: 0x39, value: -1 });
}

#[test]
fn decodes_multi_byte_fields() {
    let buf = [9u8, 9, 9, 9, 9, 9, 9, 9, 0x34, 0x12, 0x4a, 0x01, 0x78, 0x56, 0x34, 0x82];
    let ev = parse_input_event(&buf).unwrap();
    assert_eq!(ev.event_type, 0x1234);
    assert_eq!(ev.code, 0x014a);
    assert_eq!(ev.value, 0x82345678u32 as i32);
}

#[test]
fn key_event_builds_key_record() {
    assert_eq!(key_event(BTN_TOUCH, 1), RawEvent { event_type: EV_KEY, code: 0x14a, value: 1 });
}

#[test]
fn code_names_for_dumps() {
    assert_eq!(code_name(0, 0), "SYN_REPORT");
    assert_eq!(code_name(1, 330), "KEY/330");
    assert_eq!(code_name(3, 0x39), "ABS_MT_TRACKING_ID(57)");
    assert_eq!(code_name(3, 0x18), "ABS_PRESSURE(24)");
    assert_eq!(code_name(3, 0x20), "ABS_?(32)");
    assert_eq!(code_name(4, 5), "type4 code5");
}

#[test]
fn decodes_by_negotiated_width() {
    let mut wide = [0u8; 24];
    wide[16] = 3;
    wide[18] = 0x39;
    wide[20] = 7;
    assert_eq!(decode_record(&wide, 24), Some(RawEvent { event_type: 3, code: 0x39, value: 7 }));
    // A 20-byte buffer is too short for a 64-bit record.
    assert_eq!(decode_record(&wide[..20], 24), None);
    let narrow = [0u8, 0, 0, 0, 0, 0, 0, 0, 0x03, 0x00, 0x35, 0x00, 0x10, 0x00, 0x00, 0x00];
    assert_eq!(decode_record(&narrow, 16), Some(RawEvent { event_type: 3, code: 0x35, value: 16 }));
    assert_eq!(decode_record(&narrow[..8], 16), None);
}
