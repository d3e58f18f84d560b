use nekostream::autoleave::{AutoLeaveMode, AutoLeaveSettings};

#[test]
fn mode_names() {
    assert_eq!(AutoLeaveMode::Disabled.as_str(), "disabled");
    assert_eq!(AutoLeaveMode::WhenNoHumans.as_str(), "when_no_humans");
    assert_eq!(AutoLeaveMode::from_option("disabled"), Some(AutoLeaveMode::Disabled));
    assert_eq!(
        AutoLeaveMode::from_option("when_no_humans"),
        Some(AutoLeaveMode::WhenNoHumans)
    );
    assert_eq!(AutoLeaveMode::from_option("Disabled"), None);
    for m in [AutoLeaveMode::Disabled, AutoLeaveMode::WhenNoHumans] {
        assert_eq!(AutoLeaveMode::from_option(m.as_str()), Some(m));
    }
}

#[test]
fn unknown_guild_is_disabled() {
    let s = AutoLeaveSettings::new();
    assert_eq!(s.get(42), AutoLeaveMode::Disabled);
}

#[test]
fn set_then_get() {
    let mut s = AutoLeaveSettings::new();
    s.set(1, AutoLeaveMode::WhenNoHumans);
    s.set(2, AutoLeaveMode::Disabled);
    assert_eq!(s.get(1), AutoLeaveMode::WhenNoHumans);
    assert_eq!(s.get(2), AutoLeaveMode::Disabled);
    s.set(1, AutoLeaveMode::Disabled);
    assert_eq!(s.get(1), AutoLeaveMode::Disabled);
    assert_eq!(s.get(3), AutoLeaveMode::Disabled);
}

#[test]
fn entries_round_trip() {
    let mut s = AutoLeaveSettings::new();
    s.set(10, AutoLeaveMode::WhenNoHumans);
    s.set(20, AutoLeaveMode::Disabled);
    let mut e = s.entries();
    e.sort_by_key(|p| p.0);
    assert_eq!(e, vec![(10, AutoLeaveMode::WhenNoHumans), (20, AutoLeaveMode::Disabled)]);
    let back = AutoLeaveSettings::from_entries(e);
    assert_eq!(back.get(10), AutoLeaveMode::WhenNoHumans);
    assert_eq!(back.get(20), AutoLeaveMode::Disabled);
}

#[test]
fn later_entry_wins() {
    let s = AutoLeaveSettings::from_entries(vec![
        (5, AutoLeaveMode::WhenNoHumans),
        (5, AutoLeaveMode::Disabled),
    ]);
    assert_eq!(s.get(5), AutoLeaveMode::Disabled);
    assert_eq!(s.entries().len(), 1);
}
