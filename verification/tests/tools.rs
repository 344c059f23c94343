use rust_tools::number::{decimal_chars, parse_i32_chars, signed_decimal_chars};
use rust_tools::portal::{check_status, current_status_message, portal_notification, portal_probe_url};
use rust_tools::storage::{
    alert_command, alert_environment, alert_outcome, device_name, find_session, names_user_id,
    user_name,
};
use rust_tools::text::{trim_text};
use rust_tools::visualizer::{format_bars, kill_command, pid_record, read_pid};
use rust_tools::weather::{
    cache_is_fresh, city_name, clock_time, compose_report, fallback_output, weather_icon, weather_report,
    weather_url, Conditions,
};

fn chars(s: &str) -> Vec<char> {
    s.chars().collect()
}

fn text(v: Vec<char>) -> String {
    v.into_iter().collect()
}

#[test]
fn decimal_rendering() {
    assert_eq!(text(decimal_chars(0)), "0");
    assert_eq!(text(decimal_chars(18446744073709551615)), "18446744073709551615");
    assert_eq!(text(signed_decimal_chars(-2147483648)), "-2147483648");
    assert_eq!(text(signed_decimal_chars(i64::MIN)), "-9223372036854775808");
    assert_eq!(text(signed_decimal_chars(42)), "42");
}

#[test]
fn i32_parsing_follows_from_str() {
    assert_eq!(parse_i32_chars(&chars("1234")), Some(1234));
    assert_eq!(parse_i32_chars(&chars("+7")), Some(7));
    assert_eq!(parse_i32_chars(&chars("-2147483648")), Some(i32::MIN));
    assert_eq!(parse_i32_chars(&chars("2147483647")), Some(i32::MAX));
    assert_eq!(parse_i32_chars(&chars("2147483648")), None);
    assert_eq!(parse_i32_chars(&chars("-2147483649")), None);
    assert_eq!(parse_i32_chars(&chars("99999999999x")), None);
    assert_eq!(parse_i32_chars(&chars("")), None);
    assert_eq!(parse_i32_chars(&chars("-")), None);
    assert_eq!(parse_i32_chars(&chars(" 1")), None);
    assert_eq!(parse_i32_chars(&chars("00012")), Some(12));
    for s in ["0", "-0", "+12", "12a", "٣", "1 ", "-99999999999"] {
        assert_eq!(parse_i32_chars(&chars(s)), s.parse::<i32>().ok(), "{}", s);
    }
}

#[test]
fn bars_use_eight_levels() {
    assert_eq!(format_bars(&[0, 35, 36, 71, 72, 108, 144, 180, 216, 251, 252, 255]), "▁▁▂▂▃▄▅▆▇▇██");
    assert_eq!(format_bars(&[]), "");
    let frame = [10u8, 200, 255, 0, 90, 36, 250, 252, 128, 64];
    assert_eq!(format_bars(&frame).chars().count(), 10);
}

#[test]
fn pid_written_is_read_back() {
    let rec = pid_record(48213);
    assert_eq!(rec, "48213\n");
    assert_eq!(read_pid(&rec), Some(48213));
    assert_eq!(read_pid("2147483647\n"), Some(i32::MAX));
    assert_eq!(read_pid(&pid_record(4294967295)), None);
    assert_eq!(read_pid(""), None);
    assert_eq!(read_pid("\n123"), None);
    assert_eq!(read_pid("77\r\nrest"), Some(77));
    assert_eq!(read_pid("77 \n"), None);
}

#[test]
fn kill_previous_instance() {
    assert_eq!(kill_command(4321), vec!["kill".to_string(), "-9".to_string(), "4321".to_string()]);
}

#[test]
fn trimming_uses_unicode_whitespace() {
    assert_eq!(trim_text("  alice\n"), "alice");
    assert_eq!(trim_text("\u{3000}\u{a0}bob\u{2009}"), "bob");
    assert_eq!(trim_text(" \t "), "");
    assert_eq!(trim_text("a b"), "a b");
}

#[test]
fn device_names() {
    assert_eq!(device_name(Some("sdb1"), Some("sdc")), Some("sdb1".to_string()));
    assert_eq!(device_name(None, Some("sdc")), Some("sdc".to_string()));
    assert_eq!(device_name(None, None), None);
    assert_eq!(device_name(Some("unknown"), Some("sdc")), None);
}

#[test]
fn session_directories() {
    assert!(names_user_id("1000"));
    assert!(!names_user_id("gdm"));
    assert!(!names_user_id("1000a"));
    assert!(names_user_id("١٠٠٠"));
    let names = vec!["gdm".to_string(), "1000".to_string(), "1001".to_string()];
    assert_eq!(find_session(&names), Some(1));
    assert_eq!(find_session(&vec!["x".to_string()]), None);
}

#[test]
fn storage_alert() {
    assert_eq!(user_name("alice\n"), "alice");
    assert_eq!(
        alert_command("alice", "sdb1"),
        vec![
            "sudo",
            "-u",
            "alice",
            "notify-send",
            "--icon=drive-removable-media-symbolic",
            "USB Storage Detected",
            "Device: /dev/sdb1",
        ]
    );
    assert_eq!(
        alert_environment("1000"),
        vec![
            vec!["DISPLAY".to_string(), ":0".to_string()],
            vec!["DBUS_SESSION_BUS_ADDRESS".to_string(), "unix:path=/run/user/1000/bus".to_string()],
            vec!["XDG_RUNTIME_DIR".to_string(), "/run/user/1000".to_string()],
        ]
    );
    let ok = alert_outcome("alice", true);
    assert!(!ok.to_stderr);
    assert_eq!(ok.line, "Successfully notified user alice");
    let failed = alert_outcome("alice", false);
    assert!(failed.to_stderr);
    assert_eq!(failed.line, "Failed to send notification");
}

#[test]
fn portal_states() {
    let r = check_status(2);
    assert!(r.open_portal);
    assert_eq!(r.message, "Portal detected! Showing notification...");
    let r = check_status(4);
    assert!(!r.open_portal);
    assert_eq!(r.message, "Connectivity is FULL");
    let r = check_status(1);
    assert!(!r.open_portal);
    assert_eq!(r.message, "Connectivity status: 1");
    assert_eq!(current_status_message(3), "Current connectivity: 3");
    let (summary, body, icon) = portal_notification();
    assert_eq!(summary, "Wi-Fi Login Required");
    assert_eq!(body, "Captive portal detected. Click to open browser.");
    assert_eq!(icon, "network-wired-symbolic");
    assert_eq!(portal_probe_url(), "http://neverssl.com");
}

#[test]
fn weather_icons() {
    assert_eq!(weather_icon("01d"), ("\u{e30d}".to_string(), "sunny".to_string()));
    assert_eq!(weather_icon("01n"), ("\u{f186}".to_string(), "clear-night".to_string()));
    assert_eq!(weather_icon("04n"), ("\u{e312}".to_string(), "cloudy".to_string()));
    assert_eq!(weather_icon("10n"), ("\u{e325}".to_string(), "rain".to_string()));
    assert_eq!(weather_icon("13d"), ("\u{f067f}".to_string(), "snow".to_string()));
    assert_eq!(weather_icon("50n"), ("\u{e313}".to_string(), "mist".to_string()));
    assert_eq!(weather_icon("99x"), ("\u{f06a}".to_string(), "unknown".to_string()));
}

#[test]
fn weather_request_and_cache() {
    assert_eq!(
        weather_url("35.68", "139.69", "KEY"),
        "https://api.openweathermap.org/data/2.5/weather?lat=35.68&lon=139.69&appid=KEY&units=metric&lang=en"
    );
    assert_eq!(city_name(Some("Sapporo")), "Sapporo");
    assert_eq!(city_name(None), "Unknown");
    assert!(cache_is_fresh(0));
    assert!(cache_is_fresh(1799));
    assert!(!cache_is_fresh(1800));
}

fn conditions() -> Conditions {
    Conditions {
        description: "light rain".to_string(),
        icon_code: "10d".to_string(),
        temp: "18".to_string(),
        feels_like: "17".to_string(),
        temp_max: "20".to_string(),
        temp_min: "15".to_string(),
        pressure: 1012,
        humidity: 81,
        wind_speed: "3.6".to_string(),
        sunrise: 1700000000,
        sunset: 1700040000,
    }
}

#[test]
fn weather_report_text() {
    let out = compose_report("Tokyo", &conditions(), "06:20", "16:40");
    assert_eq!(out.text, "\u{e308} 18°C");
    assert_eq!(out.alt, "Tokyo");
    assert_eq!(out.class, "rain");
    assert_eq!(
        out.tooltip,
        "Location: Tokyo\rCondition: light rain\rTemperature: 18°C (Feels: 17°C)\rPressure: 1012 hPa\rHigh/Low: 20°C / 15°C\rHumidity: 81%\rWind: 3.6m/s\r\rSunrise: 06:20\rSunset: 16:40"
    );
}

#[test]
fn clock_times_have_clock_form() {
    for ts in [0i64, 1700000000, -86399, 4102444800] {
        let t = clock_time(ts);
        let b = t.as_bytes();
        assert_eq!(b.len(), 5, "{}", t);
        assert_eq!(b[2], b':');
        assert!(t[..2].parse::<u32>().unwrap() < 24);
        assert!(t[3..].parse::<u32>().unwrap() < 60);
    }
    assert_eq!(clock_time(i64::MAX), "");
    let out = weather_report("Tokyo", &conditions());
    assert!(out.tooltip.contains("\rSunrise: "));
    assert_eq!(out.tooltip.len(), compose_report("Tokyo", &conditions(), "00:00", "00:00").tooltip.len());
}

#[test]
fn fallback_prints_cache_or_placeholder() {
    assert_eq!(fallback_output(Some("{\"text\":\"x\"}".to_string())), "{\"text\":\"x\"}");
    assert_eq!(fallback_output(None), "{\"text\":\"\u{f092d} \", \"tooltip\":\"Fetch Failed\"}");
}

use rust_tools::visualizer::{GuardEffect, GuardReply, InstanceGuard};

fn guard_run(pid: u32, mut answer: impl FnMut(&GuardEffect) -> GuardReply) -> Vec<GuardEffect> {
    let mut g = InstanceGuard::new(pid);
    let mut reply = GuardReply::Ack;
    let mut out = Vec::new();
    for _ in 0..20 {
        let e = g.step(reply);
        reply = answer(&e);
        let end = matches!(e, GuardEffect::Done | GuardEffect::Abort);
        out.push(e);
        if end {
            return out;
        }
    }
    panic!("guard did not finish");
}

#[test]
fn first_instance_claims_lock() {
    let effects = guard_run(4242, |e| match e {
        GuardEffect::TryLock => GuardReply::Locked,
        _ => GuardReply::Ack,
    });
    assert_eq!(
        effects,
        vec![GuardEffect::TryLock, GuardEffect::WritePid("4242\n".to_string()), GuardEffect::Done]
    );
}

#[test]
fn newer_instance_replaces_running_one() {
    let effects = guard_run(5000, |e| match e {
        GuardEffect::TryLock => GuardReply::Busy,
        GuardEffect::ReadPidFile => GuardReply::Text("4242\n".to_string()),
        GuardEffect::WaitLock => GuardReply::Locked,
        _ => GuardReply::Ack,
    });
    assert_eq!(
        effects,
        vec![
            GuardEffect::TryLock,
            GuardEffect::Print("他のインスタンスが動作中。古いプロセスを終了させます...".to_string()),
            GuardEffect::ReadPidFile,
            GuardEffect::Kill(kill_command(4242)),
            GuardEffect::Sleep(100),
            GuardEffect::WaitLock,
            GuardEffect::WritePid("5000\n".to_string()),
            GuardEffect::Done,
        ]
    );
}

#[test]
fn unreadable_pid_skips_kill() {
    let effects = guard_run(5000, |e| match e {
        GuardEffect::TryLock => GuardReply::Busy,
        GuardEffect::ReadPidFile => GuardReply::Text("garbage".to_string()),
        GuardEffect::WaitLock => GuardReply::Locked,
        _ => GuardReply::Ack,
    });
    assert_eq!(effects[3], GuardEffect::WaitLock);
    assert!(!effects.iter().any(|e| matches!(e, GuardEffect::Kill(_))));
    let effects = guard_run(5000, |e| match e {
        GuardEffect::TryLock => GuardReply::Busy,
        GuardEffect::ReadPidFile => GuardReply::Unreadable,
        _ => GuardReply::Ack,
    });
    assert_eq!(effects.last(), Some(&GuardEffect::Abort));
}

use rust_tools::weather::{WeatherEffect, WeatherReply, WeatherSession};

fn weather_run(mut answer: impl FnMut(&WeatherEffect) -> WeatherReply) -> Vec<WeatherEffect> {
    let mut s = WeatherSession::new();
    let mut reply = WeatherReply::Ack;
    let mut out = Vec::new();
    for _ in 0..20 {
        let e = s.step(reply);
        reply = answer(&e);
        let end = matches!(e, WeatherEffect::Done | WeatherEffect::Abort);
        out.push(e);
        if end {
            return out;
        }
    }
    panic!("run did not finish");
}

fn settings() -> WeatherReply {
    WeatherReply::Settings {
        city: Some("Tokyo".to_string()),
        lat: "35.68".to_string(),
        lon: "139.69".to_string(),
        key: "KEY".to_string(),
    }
}

#[test]
fn fresh_cache_is_printed_without_request() {
    let effects = weather_run(|e| match e {
        WeatherEffect::ReadSettings => settings(),
        WeatherEffect::CacheAge => WeatherReply::Age(Some(600)),
        WeatherEffect::ReadCache => WeatherReply::Text("{\"text\":\"cached\"}".to_string()),
        _ => WeatherReply::Ack,
    });
    assert_eq!(
        effects,
        vec![
            WeatherEffect::ReadSettings,
            WeatherEffect::PrepareCache,
            WeatherEffect::CacheAge,
            WeatherEffect::ReadCache,
            WeatherEffect::Print("{\"text\":\"cached\"}".to_string()),
            WeatherEffect::Done,
        ]
    );
}

#[test]
fn stale_cache_leads_to_request_and_publication() {
    let effects = weather_run(|e| match e {
        WeatherEffect::ReadSettings => settings(),
        WeatherEffect::CacheAge => WeatherReply::Age(Some(1800)),
        WeatherEffect::Fetch(_) => WeatherReply::Fetched(conditions()),
        _ => WeatherReply::Ack,
    });
    assert_eq!(effects.len(), 6);
    assert_eq!(effects[3], WeatherEffect::Fetch(weather_url("35.68", "139.69", "KEY")));
    match &effects[4] {
        WeatherEffect::Publish(out) => {
            assert_eq!(out.alt, "Tokyo");
            assert_eq!(out.class, "rain");
            assert_eq!(out.text, "\u{e308} 18°C");
            assert!(out.tooltip.starts_with("Location: Tokyo\rCondition: light rain\r"));
        }
        other => panic!("unexpected {:?}", other),
    }
    assert_eq!(effects[5], WeatherEffect::Done);
}

#[test]
fn failed_request_falls_back() {
    let placeholder = weather_run(|e| match e {
        WeatherEffect::ReadSettings => WeatherReply::Settings {
            city: None,
            lat: "1".to_string(),
            lon: "2".to_string(),
            key: "k".to_string(),
        },
        WeatherEffect::CacheAge => WeatherReply::Age(None),
        WeatherEffect::Fetch(_) => WeatherReply::NotFetched,
        WeatherEffect::CacheExists => WeatherReply::Exists(false),
        _ => WeatherReply::Ack,
    });
    assert_eq!(placeholder[5], WeatherEffect::Print(fallback_output(None)));
    let cached = weather_run(|e| match e {
        WeatherEffect::ReadSettings => settings(),
        WeatherEffect::CacheAge => WeatherReply::Age(Some(99999)),
        WeatherEffect::Fetch(_) => WeatherReply::NotFetched,
        WeatherEffect::CacheExists => WeatherReply::Exists(true),
        WeatherEffect::ReadCache => WeatherReply::Text("old".to_string()),
        _ => WeatherReply::Ack,
    });
    assert_eq!(cached[6], WeatherEffect::Print("old".to_string()));
    assert_eq!(cached.len(), 8);
}

#[test]
fn missing_settings_abort() {
    let effects = weather_run(|e| match e {
        WeatherEffect::ReadSettings => WeatherReply::Failed,
        _ => WeatherReply::Ack,
    });
    assert_eq!(effects, vec![WeatherEffect::ReadSettings, WeatherEffect::Abort]);
}
