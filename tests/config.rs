use ellier::config::{broker_auth_url, select_channel, zero, Channel, LogLevel, Timezone};

fn channels() -> Vec<Channel> {
    ["one", "two", "two"]
        .iter()
        .enumerate()
        .map(|(i, n)| Channel { channel_id: format!("id{i}"), channel_name: n.to_string() })
        .collect()
}

#[test]
fn timezone_offset() {
    let tz = Timezone { hours: 9, minutes: 30, seconds: 5 };
    assert_eq!(tz.offset_seconds(), 9 * 3600 + 30 * 60 + 5);
    assert_eq!(Timezone { hours: -5, minutes: 0, seconds: 0 }.offset_seconds(), -18000);
    assert_eq!(Timezone::default(), Timezone { hours: 0, minutes: 0, seconds: 0 });
    assert_eq!(zero(), 0);
}

#[test]
fn timezone_to_chrono_offset() {
    let tz = Timezone { hours: 9, minutes: 0, seconds: 0 };
    assert_eq!(tz.to_fixed_offset().unwrap().local_minus_utc(), 32400);
    assert!(Timezone { hours: 24, minutes: 0, seconds: 0 }.to_fixed_offset().is_none());
    assert!(Timezone { hours: -23, minutes: -59, seconds: -59 }.to_fixed_offset().is_some());
}

#[test]
fn channel_selection() {
    let c = channels();
    assert_eq!(select_channel(&c, Some(2), None), Some(2));
    assert_eq!(select_channel(&c, Some(3), Some("one")), None);
    assert_eq!(select_channel(&c, None, Some("two")), Some(1));
    assert_eq!(select_channel(&c, None, Some("three")), None);
    assert_eq!(select_channel(&c, None, None), Some(0));
    assert_eq!(select_channel(&Vec::new(), None, None), None);
}

#[test]
fn broker_url() {
    assert_eq!(broker_auth_url("http://10.0.0.2:3000"), "http://10.0.0.2:3000/chzzk-auth");
}

#[test]
fn log_level_names() {
    assert_eq!(LogLevel::from_name("error"), Some(LogLevel::Error));
    assert_eq!(LogLevel::from_name("warn"), Some(LogLevel::Warn));
    assert_eq!(LogLevel::from_name("info"), Some(LogLevel::Info));
    assert_eq!(LogLevel::from_name("debug"), Some(LogLevel::Debug));
    assert_eq!(LogLevel::from_name("trace"), Some(LogLevel::Trace));
    assert_eq!(LogLevel::from_name("INFO"), None);
}
