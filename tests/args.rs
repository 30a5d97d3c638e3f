use batmon::args::{Args, Config};
use batmon::model::{Backend, BatLvl};

fn defaults() -> Args {
    Args {
        battery: "BAT0".to_string(),
        adapter: "ACAD".to_string(),
        low: BatLvl::new(30).unwrap(),
        very_low: BatLvl::new(15).unwrap(),
        critical: BatLvl::new(8).unwrap(),
        backend: Backend::Udev,
        polling_interval: 5,
    }
}

#[test]
fn empty_config_changes_nothing() {
    let merged = defaults().merge_with_config(Config::default());
    assert_eq!(merged.battery, "BAT0");
    assert_eq!(merged.adapter, "ACAD");
    assert_eq!(merged.low.get(), 30);
    assert_eq!(merged.backend, Backend::Udev);
    assert_eq!(merged.polling_interval, 5);
}

#[test]
fn given_settings_override() {
    let config = Config {
        battery: Some("BAT1".to_string()),
        critical: Some(BatLvl::new(4).unwrap()),
        backend: Some(Backend::Acpi),
        polling_interval: Some(30),
        ..Config::default()
    };
    let merged = defaults().merge_with_config(config);
    assert_eq!(merged.battery, "BAT1");
    assert_eq!(merged.adapter, "ACAD");
    assert_eq!(merged.critical.get(), 4);
    assert_eq!(merged.very_low.get(), 15);
    assert_eq!(merged.backend, Backend::Acpi);
    assert_eq!(merged.polling_interval, 30);
}
