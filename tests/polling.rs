use batmon::error::ParseError;
use batmon::model::{AdapterStatus, BatEvent};
use batmon::polling::{FilePollerCache, PollingStream};

#[test]
fn identical_reads_emit_nothing() {
    let mut c = FilePollerCache::new();
    assert_eq!(c.observe(b"50\n".to_vec()), Some(b"50\n".to_vec()));
    assert_eq!(c.observe(b"50\n".to_vec()), None);
    assert_eq!(c.observe(b"50\n".to_vec()), None);
}

#[test]
fn differing_read_emits_once() {
    let mut c = FilePollerCache::new();
    c.observe(b"50\n".to_vec());
    assert_eq!(c.observe(b"49\n".to_vec()), Some(b"49\n".to_vec()));
    assert_eq!(c.observe(b"49\n".to_vec()), None);
    assert_eq!(c.observe(b"49".to_vec()), Some(b"49".to_vec()));
}

#[test]
fn empty_first_read_emits_nothing() {
    let mut c = FilePollerCache::new();
    assert_eq!(c.observe(Vec::new()), None);
}

#[test]
fn first_adapter_value_is_not_reported() {
    let mut s = PollingStream::new();
    assert_eq!(s.on_adapter_read(b"0\n".to_vec()), Ok(None));
    assert_eq!(s.on_adapter_read(b"0\n".to_vec()), Ok(None));
    assert_eq!(
        s.on_adapter_read(b"1\n".to_vec()),
        Ok(Some(BatEvent::Adapter(AdapterStatus::Connected)))
    );
    assert_eq!(
        s.on_adapter_read(b"0\n".to_vec()),
        Ok(Some(BatEvent::Adapter(AdapterStatus::Disconnected)))
    );
}

#[test]
fn first_battery_value_is_reported() {
    let mut s = PollingStream::new();
    match s.on_battery_read(b"64\n".to_vec()) {
        Ok(Some(BatEvent::Battery(l))) => assert_eq!(l.get(), 64),
        other => panic!("unexpected {:?}", other),
    }
    assert_eq!(s.on_battery_read(b"64\n".to_vec()), Ok(None));
    assert_eq!(s.on_battery_read(b"x\n".to_vec()), Err(ParseError::InvalidLevel));
}

fn level_of(ev: Option<BatEvent>) -> u8 {
    match ev {
        Some(BatEvent::Battery(l)) => l.get(),
        other => panic!("unexpected {:?}", other),
    }
}

#[test]
fn adapter_comes_before_battery_in_a_tick() {
    let mut s = PollingStream::new();
    assert_eq!(level_of(s.on_tick(b"0\n".to_vec(), b"40\n".to_vec()).unwrap()), 40);
    assert_eq!(s.resume(), Ok(None));
    assert_eq!(
        s.on_tick(b"1\n".to_vec(), b"39\n".to_vec()),
        Ok(Some(BatEvent::Adapter(AdapterStatus::Connected)))
    );
    assert_eq!(level_of(s.resume().unwrap()), 39);
    assert_eq!(s.resume(), Ok(None));
    assert_eq!(s.on_tick(b"1\n".to_vec(), b"39\n".to_vec()), Ok(None));
}

#[test]
fn adapter_event_survives_a_bad_capacity_read() {
    let mut s = PollingStream::new();
    s.on_tick(b"0\n".to_vec(), b"40\n".to_vec()).unwrap();
    assert_eq!(
        s.on_tick(b"1\n".to_vec(), b"x\n".to_vec()),
        Ok(Some(BatEvent::Adapter(AdapterStatus::Connected)))
    );
    assert_eq!(s.resume(), Err(ParseError::InvalidLevel));
}

#[test]
fn later_adapter_values_are_reported() {
    let mut s = PollingStream::new();
    s.on_tick(b"1\n".to_vec(), b"40\n".to_vec()).unwrap();
    for (online, status) in [
        (&b"0\n"[..], AdapterStatus::Disconnected),
        (&b"1\n"[..], AdapterStatus::Connected),
        (&b"0\n"[..], AdapterStatus::Disconnected),
    ] {
        assert_eq!(s.resume(), Ok(None));
        assert_eq!(
            s.on_tick(online.to_vec(), b"40\n".to_vec()),
            Ok(Some(BatEvent::Adapter(status)))
        );
    }
}

#[test]
fn adapter_error_ends_the_tick() {
    let mut s = PollingStream::new();
    s.on_tick(b"0\n".to_vec(), b"40\n".to_vec()).unwrap();
    assert_eq!(s.on_tick(b"1".to_vec(), b"x\n".to_vec()), Err(ParseError::MissingNewline));
}
