use eth_alive::settings::{
    cooldown_millis, setting_or_default, DEFAULT_ALERT_COOLDOWN_MINUTES, DEFAULT_LAG_THRESHOLD,
    DEFAULT_POLL_INTERVAL_SECONDS,
};

#[test]
fn unset_setting_takes_default() {
    assert_eq!(setting_or_default(None, DEFAULT_LAG_THRESHOLD), Some(3));
    assert_eq!(setting_or_default(None, DEFAULT_POLL_INTERVAL_SECONDS), Some(60));
    assert_eq!(setting_or_default(None, DEFAULT_ALERT_COOLDOWN_MINUTES), Some(15));
}

#[test]
fn set_setting_is_parsed() {
    assert_eq!(setting_or_default(Some("7"), 3), Some(7));
    assert_eq!(setting_or_default(Some("+12"), 3), Some(12));
    assert_eq!(setting_or_default(Some("18446744073709551615"), 3), Some(u64::MAX));
}

#[test]
fn bad_setting_is_rejected() {
    assert_eq!(setting_or_default(Some(""), 3), None);
    assert_eq!(setting_or_default(Some("-1"), 3), None);
    assert_eq!(setting_or_default(Some(" 5"), 3), None);
    assert_eq!(setting_or_default(Some("0x10"), 3), None);
    assert_eq!(setting_or_default(Some("18446744073709551616"), 3), None);
}

#[test]
fn cooldown_in_millis() {
    assert_eq!(cooldown_millis(15), 900_000);
    assert_eq!(cooldown_millis(0), 0);
    assert_eq!(cooldown_millis(u64::MAX), u64::MAX);
}
