use jdonmysnore::driver::RefreshDriver;
use jdonmysnore::sleep::{epoch_rfc3339, epoch_unix_seconds, get_last_sleep, get_sleep};

#[test]
fn epoch_text_parses_to_known_timestamp() {
    assert_eq!(epoch_unix_seconds(), Some(1_731_806_520));
}

#[test]
fn epoch_constant_text() {
    assert_eq!(epoch_rfc3339(), "2024-11-17T01:22:00Z");
}

#[test]
fn last_sleep_phrase_is_available() {
    let phrase = get_last_sleep().expect("valid time");
    assert!(phrase.ends_with("second") || phrase.ends_with("seconds"));
}

#[test]
fn sleep_phrase_always_names_seconds() {
    let phrase = get_sleep(0);
    assert!(phrase.ends_with("second") || phrase.ends_with("seconds"));
}

#[test]
fn fresh_driver_is_idle() {
    let d = RefreshDriver::new();
    assert!(d.display_text().is_empty());
    assert_eq!(d.active_timers(), 0);
}

#[test]
fn initialize_fills_display() {
    let mut d = RefreshDriver::new();
    assert!(d.initialize());
    assert!(!d.display_text().is_empty());
    assert_eq!(d.active_timers(), 0);
}

#[test]
fn tick_overwrites_display() {
    let mut d = RefreshDriver::new();
    assert!(d.initialize());
    assert!(d.on_tick());
    assert!(!d.display_text().is_empty());
}

#[test]
fn reinitialization_keeps_single_timer() {
    let mut d = RefreshDriver::new();
    assert!(!d.start_ticking());
    assert_eq!(d.active_timers(), 1);
    assert!(d.start_ticking());
    assert_eq!(d.active_timers(), 1);
}

#[test]
fn stop_ticking_clears_timer() {
    let mut d = RefreshDriver::new();
    d.start_ticking();
    assert!(d.stop_ticking());
    assert_eq!(d.active_timers(), 0);
    assert!(!d.stop_ticking());
}
