use rust_tools::terminal::{
    address_record, animate_slide, can_hide, can_place, can_show, choose_toggle, find_client,
    find_focused_monitor, hide_terminal, newest_client, place_terminal, show_terminal,
    slide_position, spawn_terminal, stored_address, Client, HyprStep, Measure, Monitor,
    Placement, Screen, Toggle, Workspace,
};

fn cmd(parts: &[&str]) -> Vec<String> {
    parts.iter().map(|p| p.to_string()).collect()
}

fn client(address: &str, ws: &str, at: [i32; 2], size: [i32; 2], focus: i32) -> Client {
    Client {
        address: address.to_string(),
        workspace: Workspace { id: 3, name: ws.to_string() },
        at,
        size,
        focus_history_id: focus,
    }
}

fn monitor(name: &str, focused: bool) -> Monitor {
    Monitor { name: name.to_string(), focused, x: 1920, y: 0, width: 2560, height: 1440 }
}

fn mv(x: i32, y: i32, address: &str) -> HyprStep {
    HyprStep::Dispatch(cmd(&["dispatch", "movewindowpixel", &format!("exact {} {},address:{}", x, y, address)]))
}

#[test]
fn focused_monitor_is_first_focused() {
    let k = Measure { logical_width: 2560, width: 1280, height: 720, top_margin: 72 };
    let sc = |m: Monitor| Screen { monitor: m, measure: k };
    let ms = vec![sc(monitor("DP-1", false)), sc(monitor("eDP-1", true)), sc(monitor("HDMI-A-1", true))];
    assert_eq!(find_focused_monitor(&ms), Some(1));
    assert_eq!(find_focused_monitor(&vec![sc(monitor("DP-1", false))]), None);
    assert_eq!(find_focused_monitor(&Vec::new()), None);
}

#[test]
fn client_lookup_by_address() {
    let cs = vec![
        client("0x1", "1", [0, 0], [10, 10], 0),
        client("0x2", "special:scratchpad", [0, 0], [10, 10], 1),
    ];
    assert_eq!(find_client(&cs, "0x2"), Some(1));
    assert_eq!(find_client(&cs, "0x3"), None);
    assert_eq!(find_client(&cs, "0x"), None);
}

#[test]
fn newest_client_takes_last_maximum() {
    let cs = vec![
        client("a", "1", [0, 0], [1, 1], 2),
        client("b", "1", [0, 0], [1, 1], 5),
        client("c", "1", [0, 0], [1, 1], 5),
        client("d", "1", [0, 0], [1, 1], 0),
    ];
    assert_eq!(newest_client(&cs), Some(2));
    assert_eq!(newest_client(&Vec::new()), None);
}

#[test]
fn stored_address_is_first_word() {
    assert_eq!(stored_address("0x55d1 eDP-1"), Some("0x55d1".to_string()));
    assert_eq!(stored_address("  \n0xabc\n"), Some("0xabc".to_string()));
    assert_eq!(stored_address(" \t\n"), None);
    assert_eq!(stored_address(""), None);
}

#[test]
fn record_reads_back() {
    let rec = address_record("0x55d1", "eDP-1");
    assert_eq!(rec, "0x55d1 eDP-1");
    assert_eq!(stored_address(&rec), Some("0x55d1".to_string()));
}

#[test]
fn toggle_decisions() {
    let hidden = client("0x1", "special:scratchpad", [0, 0], [1, 1], 0);
    let shown = client("0x1", "2", [0, 0], [1, 1], 0);
    assert_eq!(choose_toggle(Some(&hidden)), Toggle::Show);
    assert_eq!(choose_toggle(Some(&shown)), Toggle::Hide);
    assert_eq!(choose_toggle(None), Toggle::Spawn);
}

#[test]
fn slide_positions_truncate_toward_zero() {
    assert_eq!(slide_position(100, 0, 1, 3), 67);
    assert_eq!(slide_position(0, 100, 1, 3), 33);
    assert_eq!(slide_position(10, 10, 2, 5), 10);
    assert_eq!(slide_position(7, -3, 5, 5), -3);
    assert_eq!(slide_position(7, -3, 0, 5), 7);
}

#[test]
fn slide_frames() {
    let mut steps = Vec::new();
    animate_slide(&mut steps, "0x1", 0, 0, 10, -10, 2);
    assert_eq!(
        steps,
        vec![
            mv(0, 0, "0x1"),
            HyprStep::Pause(20),
            mv(5, -5, "0x1"),
            HyprStep::Pause(20),
            mv(10, -10, "0x1"),
            HyprStep::Pause(20),
        ]
    );
    let mut none = Vec::new();
    animate_slide(&mut none, "0x1", 0, 0, 10, 10, -1);
    assert!(none.is_empty());
    animate_slide(&mut none, "0x1", i32::MIN, i32::MIN, i32::MAX, i32::MAX, -5);
    assert!(none.is_empty());
}

#[test]
fn hide_slides_up_and_parks() {
    let c = client("0xab", "1", [640, 36], [1280, 720], 0);
    assert!(can_hide(&c));
    let steps = hide_terminal(&c);
    assert_eq!(steps.len(), 14);
    assert_eq!(steps[0], mv(640, 36, "0xab"));
    assert_eq!(steps[2], mv(640, -118, "0xab"));
    assert_eq!(steps[10], mv(640, -734, "0xab"));
    assert_eq!(steps[11], HyprStep::Pause(20));
    assert_eq!(steps[12], HyprStep::Dispatch(cmd(&["dispatch", "pin", "address:0xab"])));
    assert_eq!(
        steps[13],
        HyprStep::Dispatch(cmd(&["dispatch", "movetoworkspacesilent", "special:scratchpad,address:0xab"]))
    );
}

#[test]
fn hide_overflow_is_detected() {
    let c = client("0xab", "1", [0, i32::MIN + 10], [100, 100], 0);
    assert!(!can_hide(&c));
}

#[test]
fn placement_centres_terminal() {
    let m = monitor("eDP-1", true);
    let k = Measure { logical_width: 1707, width: 853, height: 480, top_margin: 48 };
    assert!(can_place(&m, &k));
    let p = place_terminal(&m, &k);
    assert_eq!(p, Placement { width: 853, height: 480, x: 1920 + 427, y: 48 });
    let far = Monitor { name: "x".to_string(), focused: true, x: i32::MAX, y: 0, width: 1, height: 1 };
    assert!(!can_place(&far, &k));
}

#[test]
fn show_moves_pins_resizes_slides_and_focuses() {
    let p = Placement { width: 800, height: 400, x: 100, y: 50 };
    assert!(can_show(&p));
    let steps = show_terminal("0x9", -98, &p);
    assert_eq!(steps.len(), 16);
    assert_eq!(
        steps[0],
        HyprStep::Dispatch(cmd(&["dispatch", "movetoworkspacesilent", "-98,address:0x9"]))
    );
    assert_eq!(steps[1], HyprStep::Dispatch(cmd(&["dispatch", "pin", "address:0x9"])));
    assert_eq!(
        steps[2],
        HyprStep::Dispatch(cmd(&["dispatch", "resizewindowpixel", "exact 800 400,address:0x9"]))
    );
    assert_eq!(steps[3], mv(100, -350, "0x9"));
    assert_eq!(steps[13], mv(100, 50, "0x9"));
    assert_eq!(steps[15], HyprStep::Dispatch(cmd(&["dispatch", "focuswindow", "address:0x9"])));
}

#[test]
fn spawn_rule() {
    assert_eq!(
        spawn_terminal(853, 480, "kitty --class dropdown"),
        vec![
            HyprStep::Dispatch(cmd(&[
                "dispatch",
                "exec",
                "[float; size 853 480; workspace special:scratchpad silent] kitty --class dropdown",
            ])),
            HyprStep::Pause(300),
        ]
    );
}
