use api::instants::{optional_instant, MAX_INSTANT, MIN_INSTANT};

#[test]
fn instants_within_the_calendar_of_chrono() {
    assert_eq!(optional_instant(None), None);
    assert_eq!(optional_instant(Some(0)), Some(0));
    assert_eq!(optional_instant(Some(1_431_648_000)), Some(1_431_648_000));
    assert_eq!(optional_instant(Some(MAX_INSTANT)), Some(8_210_266_876_799));
    assert_eq!(optional_instant(Some(MAX_INSTANT + 1)), None);
    assert_eq!(optional_instant(Some(MIN_INSTANT)), Some(-8_334_601_228_800));
    assert_eq!(optional_instant(Some(MIN_INSTANT - 1)), None);
    assert_eq!(optional_instant(Some(i64::MAX)), None);
    assert_eq!(optional_instant(Some(i64::MIN)), None);
}

#[test]
fn the_bounds_are_the_first_and_last_seconds_chrono_has() {
    assert_eq!(chrono::DateTime::<chrono::Utc>::MAX_UTC.timestamp(), MAX_INSTANT);
    assert_eq!(chrono::DateTime::<chrono::Utc>::MIN_UTC.timestamp(), MIN_INSTANT);
}
