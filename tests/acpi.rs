use batmon::acpi::{
    group_bitmap, parse_nlas, AcpiAction, AcpiGenl, AcpiGenlAttr, AcpiGenlCmd, AcpiGenlEvent,
    AcpiStream,
};
use batmon::error::DecodeError;
use batmon::model::{AdapterStatus, BatEvent};

fn record(class: &[u8], kind: u32, data: u32) -> Vec<u8> {
    let mut r = vec![0u8; 44];
    r[..class.len()].copy_from_slice(class);
    r[20..29].copy_from_slice(b"PNP0C0A:0");
    r[36..40].copy_from_slice(&kind.to_ne_bytes());
    r[40..44].copy_from_slice(&data.to_ne_bytes());
    r
}

fn nla(kind: u16, value: &[u8]) -> Vec<u8> {
    let len = (value.len() + 4) as u16;
    let mut b = Vec::new();
    b.extend_from_slice(&len.to_ne_bytes());
    b.extend_from_slice(&kind.to_ne_bytes());
    b.extend_from_slice(value);
    while b.len() % 4 != 0 {
        b.push(0);
    }
    b
}

#[test]
fn record_is_decoded() {
    let ev = AcpiGenlEvent::try_from_bytes(&record(b"ac_adapter", 0x80, 1)).unwrap();
    assert_eq!(ev.device_class(), b"ac_adapter");
    assert_eq!(ev.kind, 0x80);
    assert_eq!(ev.data, 1);
    let ev = AcpiGenlEvent::try_from_bytes(&record(b"battery", 0x01020304, 0xdeadbeef)).unwrap();
    assert_eq!(ev.kind, 0x01020304);
    assert_eq!(ev.data, 0xdeadbeef);
}

#[test]
fn record_errors() {
    let r = record(b"battery", 0, 0);
    assert_eq!(
        AcpiGenlEvent::try_from_bytes(&r[..43]).unwrap_err(),
        DecodeError::RecordLength(43)
    );
    let mut unterminated = r.clone();
    unterminated[..20].copy_from_slice(&[b'x'; 20]);
    assert_eq!(
        AcpiGenlEvent::try_from_bytes(&unterminated).unwrap_err(),
        DecodeError::DeviceClassNotTerminated
    );
    let bad = record(b"bat\xfftery", 0, 0);
    assert_eq!(
        AcpiGenlEvent::try_from_bytes(&bad).unwrap_err(),
        DecodeError::DeviceClassNotUtf8
    );
    let longest = record(&[b'a'; 19], 0, 0);
    assert_eq!(AcpiGenlEvent::try_from_bytes(&longest).unwrap().device_class().len(), 19);
}

#[test]
fn actions_of_events() {
    let adapter_on = AcpiGenlEvent::try_from_bytes(&record(b"ac_adapter", 0x80, 1)).unwrap();
    let adapter_off = AcpiGenlEvent::try_from_bytes(&record(b"ac_adapter", 0x80, 0)).unwrap();
    let bat = AcpiGenlEvent::try_from_bytes(&record(b"battery", 0x80, 57)).unwrap();
    let other = AcpiGenlEvent::try_from_bytes(&record(b"button/lid", 0x80, 1)).unwrap();
    assert_eq!(
        adapter_on.action(),
        Some(AcpiAction::Report(BatEvent::Adapter(AdapterStatus::Connected)))
    );
    assert_eq!(
        adapter_off.action(),
        Some(AcpiAction::Report(BatEvent::Adapter(AdapterStatus::Disconnected)))
    );
    assert_eq!(bat.action(), Some(AcpiAction::RefreshBattery));
    assert_eq!(other.action(), None);
}

#[test]
fn battery_event_payload_is_ignored() {
    for (kind, data) in [(0u32, 0u32), (0x80, 5), (1, 100), (u32::MAX, u32::MAX)] {
        let ev = AcpiGenlEvent::try_from_bytes(&record(b"battery", kind, data)).unwrap();
        assert_eq!(ev.action(), Some(AcpiAction::RefreshBattery));
    }
}

#[test]
fn attributes_are_parsed() {
    let mut buf = nla(0, b"abc");
    buf.extend(nla(1, &record(b"battery", 1, 2)));
    let attrs = parse_nlas(&buf).unwrap();
    assert_eq!(attrs.len(), 2);
    match &attrs[0] {
        AcpiGenlAttr::Unspec(v) => assert_eq!(v, b"abc"),
        other => panic!("unexpected {:?}", other),
    }
    match &attrs[1] {
        AcpiGenlAttr::Event(ev) => assert_eq!(ev.device_class(), b"battery"),
        other => panic!("unexpected {:?}", other),
    }
}

#[test]
fn attribute_errors() {
    assert_eq!(parse_nlas(&nla(7, b"")).unwrap_err(), DecodeError::UnknownAttribute(7));
    assert_eq!(parse_nlas(&nla(1, b"short")).unwrap_err(), DecodeError::RecordLength(5));
    let mut buf = nla(0, b"ok");
    buf.extend_from_slice(&[200, 0, 0, 0]);
    assert_eq!(parse_nlas(&buf).unwrap_err(), DecodeError::MalformedAttributes);
    assert_eq!(parse_nlas(&[]).unwrap().len(), 0);
}

#[test]
fn message_command_is_checked() {
    let buf = nla(1, &record(b"ac_adapter", 0, 1));
    let msg = AcpiGenl::parse_with_param(&buf, 1).unwrap();
    assert_eq!(msg.cmd, AcpiGenlCmd::Event);
    assert_eq!(msg.nlas.len(), 1);
    assert_eq!(
        AcpiGenl::parse_with_param(&buf, 2).unwrap_err(),
        DecodeError::UnknownCommand(2)
    );
    assert_eq!(AcpiGenlCmd::from_u8(0), Ok(AcpiGenlCmd::Unspec));
    assert_eq!(AcpiGenlCmd::Event.to_u8(), 1);
}

#[test]
fn group_bits() {
    assert_eq!(group_bitmap(0), 0);
    assert_eq!(group_bitmap(1), 1);
    assert_eq!(group_bitmap(3), 4);
    assert_eq!(group_bitmap(32), 1 << 31);
}

#[test]
fn stream_reports_events_in_order() {
    let mut s = AcpiStream::new(23);
    assert_eq!(s.next_buf(), None);
    let mut buf = nla(1, &record(b"button/lid", 0, 1));
    buf.extend(nla(0, b""));
    buf.extend(nla(1, &record(b"ac_adapter", 0, 1)));
    buf.extend(nla(1, &record(b"battery", 0, 3)));
    let msg = AcpiGenl::parse_with_param(&buf, 1).unwrap();
    s.on_message(24, msg.clone());
    assert_eq!(s.next_buf(), None);
    s.on_message(23, msg);
    assert_eq!(
        s.next_buf(),
        Some(AcpiAction::Report(BatEvent::Adapter(AdapterStatus::Connected)))
    );
    assert_eq!(s.next_buf(), Some(AcpiAction::RefreshBattery));
    assert_eq!(s.next_buf(), None);
    assert!(s.pending.is_empty());
}
