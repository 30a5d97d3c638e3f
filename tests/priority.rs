use batmon::model::BatLvl;
use batmon::priority::{EvPriority, PriorityThreshold};

fn lvl(v: u8) -> BatLvl {
    BatLvl::new(v).unwrap()
}

#[test]
fn classify_boundaries_are_inclusive() {
    let t = PriorityThreshold::checked(lvl(30), lvl(15), lvl(8)).unwrap();
    let cases = [
        (0u8, Some(EvPriority::High)),
        (8, Some(EvPriority::High)),
        (9, Some(EvPriority::Normal)),
        (15, Some(EvPriority::Normal)),
        (16, Some(EvPriority::Low)),
        (30, Some(EvPriority::Low)),
        (31, None),
        (100, None),
    ];
    for (v, p) in cases {
        assert_eq!(t.priority(lvl(v)), p, "level {}", v);
    }
}

#[test]
fn unordered_thresholds_are_rejected() {
    assert!(PriorityThreshold::checked(lvl(30), lvl(15), lvl(16)).is_none());
    assert!(PriorityThreshold::checked(lvl(14), lvl(15), lvl(8)).is_none());
    assert!(PriorityThreshold::checked(lvl(10), lvl(10), lvl(10)).is_some());
}

#[test]
fn equal_thresholds_give_high_only() {
    let t = PriorityThreshold::checked(lvl(10), lvl(10), lvl(10)).unwrap();
    assert_eq!(t.priority(lvl(10)), Some(EvPriority::High));
    assert_eq!(t.priority(lvl(11)), None);
}

#[test]
fn battery_level_range() {
    assert!(BatLvl::new(100).is_some());
    assert!(BatLvl::new(101).is_none());
    assert_eq!(BatLvl::new(42).unwrap().get(), 42);
}

#[test]
fn priorities_are_ordered() {
    assert!(EvPriority::Low < EvPriority::Normal);
    assert!(EvPriority::Normal < EvPriority::High);
}
