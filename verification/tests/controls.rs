use rust_tools::brightness::{
    brightness_notification, get_brightness, parse_brightness_request, BrightnessRequest,
    BrightnessSession,
};
use rust_tools::control::{choose_control, lock_path, Control, Effect, Reply};
use rust_tools::volume::{
    command_list, is_active_headphone_line, is_headphones_connected, parse_volume_request,
    reports_muted, volume_notification, volume_reading, VolumeAction, VolumeSession,
};

fn cmd(parts: &[&str]) -> Vec<String> {
    parts.iter().map(|p| p.to_string()).collect()
}

/// Runs a session, answering each effect from `answer`, and collects the effects.
fn run(mut step: impl FnMut(Reply) -> Effect, mut answer: impl FnMut(&Effect) -> Reply) -> Vec<Effect> {
    let mut effects = Vec::new();
    let mut reply = Reply::Ack;
    for _ in 0..50 {
        let e = step(reply);
        let done = e == Effect::Done;
        reply = answer(&e);
        effects.push(e);
        if done {
            return effects;
        }
    }
    panic!("session did not finish");
}

const BRIGHTNESS_OUT: &str = "intel_backlight,backlight,19200,40%,48000";

fn brightness_answers(e: &Effect) -> Reply {
    match e {
        Effect::Lock(_) => Reply::Locked,
        Effect::Run(_) => Reply::Output(BRIGHTNESS_OUT.to_string()),
        _ => Reply::Ack,
    }
}

#[test]
fn brightness_reading_takes_fourth_field_without_percent() {
    assert_eq!(get_brightness(BRIGHTNESS_OUT), "40");
    assert_eq!(get_brightness("dev,class,1,5%%,2\nother,line,2,9%,3"), "5");
    assert_eq!(get_brightness("dev,class,1,7%,2\r\n"), "7");
}

#[test]
fn brightness_reading_edge_cases() {
    assert_eq!(get_brightness(""), "N/A");
    assert_eq!(get_brightness("a,b,c"), "0");
    assert_eq!(get_brightness("\nx,y,z,50%"), "0");
    assert_eq!(get_brightness("a,b,c,"), "");
}

#[test]
fn brightness_requests() {
    assert_eq!(parse_brightness_request("--inc"), BrightnessRequest::Raise);
    assert_eq!(parse_brightness_request("--dec"), BrightnessRequest::Lower);
    assert_eq!(parse_brightness_request("--inc-fine"), BrightnessRequest::RaiseFine);
    assert_eq!(parse_brightness_request("--dec-fine"), BrightnessRequest::LowerFine);
    assert_eq!(parse_brightness_request("--get"), BrightnessRequest::Get);
    assert_eq!(parse_brightness_request("--inc "), BrightnessRequest::Other);
}

#[test]
fn brightness_notification_command() {
    assert_eq!(
        brightness_notification("40"),
        cmd(&[
            "notify-send",
            "-a",
            "System",
            "-t",
            "1000",
            "-r",
            "999",
            "--icon",
            "display-brightness-high-symbolic",
            "-h",
            "int:value:40",
            "-h",
            "string:x-canonical-private-synchronous:brightness_notif",
            "-u",
            "low",
            "Brightness",
            "40%",
        ])
    );
}

#[test]
fn brightness_raise_session() {
    let mut s = BrightnessSession::new("--inc");
    let effects = run(|r| s.step(r), brightness_answers);
    assert_eq!(
        effects,
        vec![
            Effect::Lock("brightness".to_string()),
            Effect::Quiet(cmd(&["brightnessctl", "set", "5%+"])),
            Effect::Run(cmd(&["brightnessctl", "-m"])),
            Effect::Quiet(brightness_notification("40")),
            Effect::Sleep(60),
            Effect::Done,
        ]
    );
}

#[test]
fn brightness_lower_keeps_minimum() {
    let mut s = BrightnessSession::new("--dec-fine");
    let effects = run(|r| s.step(r), brightness_answers);
    assert_eq!(effects[1], Effect::Quiet(cmd(&["brightnessctl", "set", "1%-", "--min-value=1"])));
}

#[test]
fn brightness_get_session_prints() {
    let mut s = BrightnessSession::new("--get");
    let effects = run(|r| s.step(r), brightness_answers);
    assert_eq!(
        effects,
        vec![
            Effect::Lock("brightness".to_string()),
            Effect::Run(cmd(&["brightnessctl", "-m"])),
            Effect::Print("40".to_string()),
            Effect::Sleep(60),
            Effect::Done,
        ]
    );
}

#[test]
fn busy_lock_ends_session_without_effects() {
    let mut s = BrightnessSession::new("--inc");
    let effects = run(|r| s.step(r), |e| if let Effect::Lock(_) = e { Reply::Busy } else { Reply::Ack });
    assert_eq!(effects, vec![Effect::Lock("brightness".to_string()), Effect::Done]);
    let mut v = VolumeSession::new("--toggle");
    let effects = run(|r| v.step(r), |e| if let Effect::Lock(_) = e { Reply::Busy } else { Reply::Ack });
    assert_eq!(effects, vec![Effect::Lock("volume".to_string()), Effect::Done]);
}

#[test]
fn unknown_brightness_argument_only_cools_down() {
    let mut s = BrightnessSession::new("--nothing");
    let effects = run(|r| s.step(r), brightness_answers);
    assert_eq!(
        effects,
        vec![Effect::Lock("brightness".to_string()), Effect::Sleep(60), Effect::Done]
    );
}

#[test]
fn lock_paths() {
    assert_eq!(lock_path(Some("/run/user/1000"), "volume"), "/run/user/1000/volume.lock");
    assert_eq!(lock_path(None, "brightness"), "/tmp/brightness.lock");
}

#[test]
fn control_selection_by_name() {
    assert_eq!(choose_control("volume"), Control::Volume);
    assert_eq!(choose_control("sys-volume-brightness"), Control::Volume);
    assert_eq!(choose_control("brightness"), Control::Brightness);
    assert_eq!(choose_control("sys-controls"), Control::Neither);
}

const STATUS: &str = "Audio\n ├─ Sinks:\n │  *   52. Built-in Audio Speaker [vol: 0.40]\n │  [*] 61. USB HEADPHONE Set\n";

#[test]
fn headphones_detected_in_any_case() {
    assert!(is_headphones_connected(STATUS));
    assert!(!is_headphones_connected("[*] speaker\nheadphone jack\n"));
    assert!(!is_headphones_connected(""));
    assert!(is_headphones_connected("x\r\n[*] Headphones\r\n"));
}

#[test]
fn headphone_line_needs_marker_and_name() {
    assert!(is_active_headphone_line("[*] USB HEADPHONE", "[*] usb headphone"));
    assert!(!is_active_headphone_line("USB HEADPHONE", "usb headphone"));
    assert!(!is_active_headphone_line("[*] USB HEADPHONE", "[*] USB HEADPHONE"));
}

#[test]
fn volume_requests() {
    let r = parse_volume_request("--mic-inc");
    assert_eq!(r.action, VolumeAction::Raise);
    assert!(r.mic);
    let r = parse_volume_request("--toggle");
    assert_eq!(r.action, VolumeAction::Toggle);
    assert!(!r.mic);
    let r = parse_volume_request("--get-mic");
    assert_eq!(r.action, VolumeAction::Get);
    assert!(r.mic);
    assert_eq!(parse_volume_request("--louder").action, VolumeAction::Other);
}

#[test]
fn volume_command_lists() {
    assert_eq!(
        command_list(parse_volume_request("--inc")),
        vec![
            cmd(&["wpctl", "set-mute", "@DEFAULT_AUDIO_SINK@", "0"]),
            cmd(&["wpctl", "set-volume", "-l", "1.5", "@DEFAULT_AUDIO_SINK@", "0.05+"]),
        ]
    );
    assert_eq!(
        command_list(parse_volume_request("--mic-dec-fine")),
        vec![
            cmd(&["wpctl", "set-mute", "@DEFAULT_AUDIO_SOURCE@", "0"]),
            cmd(&["wpctl", "set-volume", "@DEFAULT_AUDIO_SOURCE@", "0.01-"]),
        ]
    );
    assert_eq!(
        command_list(parse_volume_request("--toggle-mic")),
        vec![cmd(&["wpctl", "set-mute", "@DEFAULT_AUDIO_SOURCE@", "toggle"])]
    );
    assert!(command_list(parse_volume_request("--get")).is_empty());
}

#[test]
fn volume_readings() {
    assert_eq!(volume_reading("Volume: 0.40"), "0.40");
    assert_eq!(volume_reading("Volume:   0.20 [MUTED]"), "0.20");
    assert_eq!(volume_reading("Volume:"), "0.00");
    assert_eq!(volume_reading(""), "0.00");
    assert!(reports_muted("Volume: 0.20 [MUTED]"));
    assert!(!reports_muted("Volume: 0.20"));
}

#[test]
fn volume_notifications() {
    assert_eq!(
        volume_notification(false, false, true, "40"),
        cmd(&[
            "notify-send",
            "-e",
            "-a",
            "System",
            "-r",
            "998",
            "-h",
            "string:x-canonical-private-synchronous:volume_notif",
            "-h",
            "int:value:40",
            "-u",
            "low",
            "--icon",
            "audio-volume-headphones-symbolic",
            "Volume: 40%",
        ])
    );
    let muted = volume_notification(false, true, false, "40");
    assert_eq!(muted[9], "int:value:0");
    assert_eq!(muted[13], "audio-volume-muted-symbolic");
    assert_eq!(muted[14], "Volume: Muted");
    let mic = volume_notification(true, false, false, "0");
    assert_eq!(mic[5], "997");
    assert_eq!(mic[7], "string:x-canonical-private-synchronous:mic_notif");
    assert_eq!(mic[9], "int:value:0");
    assert_eq!(mic[13], "audio-input-microphone-high-symbolic");
    assert_eq!(mic[14], "Microphone: Muted");
}

fn volume_answers(e: &Effect) -> Reply {
    match e {
        Effect::Lock(_) => Reply::Locked,
        Effect::Run(c) if c[1] == "get-volume" => Reply::Output("Volume: 0.40".to_string()),
        Effect::Run(c) if c[1] == "status" => Reply::Output(STATUS.to_string()),
        Effect::Run(_) => Reply::Output(String::new()),
        Effect::Percent(p) => {
            assert_eq!(p, "0.40");
            Reply::Output("40".to_string())
        }
        _ => Reply::Ack,
    }
}

#[test]
fn volume_raise_session() {
    let mut s = VolumeSession::new("--inc");
    let effects = run(|r| s.step(r), volume_answers);
    assert_eq!(
        effects,
        vec![
            Effect::Lock("volume".to_string()),
            Effect::Run(cmd(&["wpctl", "set-mute", "@DEFAULT_AUDIO_SINK@", "0"])),
            Effect::Run(cmd(&["wpctl", "set-volume", "-l", "1.5", "@DEFAULT_AUDIO_SINK@", "0.05+"])),
            Effect::Run(cmd(&["wpctl", "get-volume", "@DEFAULT_AUDIO_SINK@"])),
            Effect::Percent("0.40".to_string()),
            Effect::Run(cmd(&["wpctl", "status"])),
            Effect::Attached(volume_notification(false, false, true, "40")),
            Effect::Sleep(60),
            Effect::Done,
        ]
    );
}

#[test]
fn volume_mic_session_skips_output_check() {
    let mut s = VolumeSession::new("--toggle-mic");
    let effects = run(|r| s.step(r), volume_answers);
    assert_eq!(
        effects,
        vec![
            Effect::Lock("volume".to_string()),
            Effect::Run(cmd(&["wpctl", "set-mute", "@DEFAULT_AUDIO_SOURCE@", "toggle"])),
            Effect::Run(cmd(&["wpctl", "get-volume", "@DEFAULT_AUDIO_SOURCE@"])),
            Effect::Percent("0.40".to_string()),
            Effect::Attached(volume_notification(true, false, false, "40")),
            Effect::Sleep(60),
            Effect::Done,
        ]
    );
}

#[test]
fn volume_get_session_prints_and_skips_cool_down() {
    let mut s = VolumeSession::new("--get");
    let effects = run(|r| s.step(r), volume_answers);
    assert_eq!(
        effects,
        vec![
            Effect::Lock("volume".to_string()),
            Effect::Run(cmd(&["wpctl", "get-volume", "@DEFAULT_AUDIO_SINK@"])),
            Effect::Percent("0.40".to_string()),
            Effect::Print("40".to_string()),
            Effect::Done,
        ]
    );
}

#[test]
fn volume_muted_session_announces_muted() {
    let mut s = VolumeSession::new("--other");
    let effects = run(
        |r| s.step(r),
        |e| match e {
            Effect::Lock(_) => Reply::Locked,
            Effect::Run(c) if c[1] == "get-volume" => Reply::Output("Volume: 0.20 [MUTED]".to_string()),
            Effect::Run(_) => Reply::Output("no outputs".to_string()),
            Effect::Percent(_) => Reply::Output("20".to_string()),
            _ => Reply::Ack,
        },
    );
    assert_eq!(effects[4], Effect::Attached(volume_notification(false, true, false, "20")));
    assert_eq!(effects.len(), 7);
}
