use batmon::dispatch::Notification;
use batmon::model::{AdapterStatus, BatEvent, BatLvl};
use batmon::notif::{EvInfo, NotifyConsumer, Urgency};
use batmon::priority::EvPriority;

fn info(event: BatEvent, priority: EvPriority) -> EvInfo {
    EvInfo::from_notification(Notification::new(event, priority))
}

#[test]
fn battery_notices() {
    let lvl = BatLvl::new(27).unwrap();
    let low = info(BatEvent::Battery(lvl), EvPriority::Low);
    assert_eq!(low.summary, "Low Battery");
    assert_eq!(low.body, "Battery level is low at 27%");
    assert_eq!(low.urgency, Urgency::Low);
    let normal = info(BatEvent::Battery(BatLvl::new(14).unwrap()), EvPriority::Normal);
    assert_eq!(normal.body, "Battery level is low at 14%");
    assert_eq!(normal.urgency, Urgency::Normal);
    let high = info(BatEvent::Battery(BatLvl::new(7).unwrap()), EvPriority::High);
    assert_eq!(high.summary, "Critical Battery");
    assert_eq!(high.body, "Battery level is critical at 7%");
    assert_eq!(high.urgency, Urgency::Critical);
    let full = info(BatEvent::Battery(BatLvl::new(100).unwrap()), EvPriority::Low);
    assert_eq!(full.body, "Battery level is low at 100%");
}

#[test]
fn adapter_notices() {
    let on = info(BatEvent::Adapter(AdapterStatus::Connected), EvPriority::Low);
    assert_eq!(on.summary, "AC Adapter Connected");
    assert_eq!(on.body, "AC Adapter has been connected");
    assert_eq!(on.urgency, Urgency::Low);
    let off = info(BatEvent::Adapter(AdapterStatus::Disconnected), EvPriority::High);
    assert_eq!(off.summary, "AC Adapter Disconnected");
    assert_eq!(off.body, "AC Adapter has been disconnected");
    assert_eq!(off.urgency, Urgency::Low);
}

#[test]
fn consumer_keeps_its_name() {
    assert_eq!(NotifyConsumer::new("batmon".to_string()).appname, "batmon");
}
