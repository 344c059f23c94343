use rust_tools::dropdown::{DropdownSession, TerminalEffect, TerminalReply};
use rust_tools::terminal::{
    hide_terminal, place_terminal, show_terminal, spawn_terminal, Client, Measure, Monitor,
    Screen, Workspace,
};

fn client(address: &str, ws: &str, focus: i32) -> Client {
    Client {
        address: address.to_string(),
        workspace: Workspace { id: 1, name: ws.to_string() },
        at: [640, 36],
        size: [1280, 720],
        focus_history_id: focus,
    }
}

fn screen(name: &str, focused: bool) -> Screen {
    Screen {
        monitor: Monitor { name: name.to_string(), focused, x: 0, y: 0, width: 2560, height: 1440 },
        measure: Measure { logical_width: 2560, width: 1280, height: 720, top_margin: 72 },
    }
}

fn screens() -> Vec<Screen> {
    vec![screen("DP-1", false), screen("eDP-1", true)]
}

/// Steps a run through scripted replies, collecting the effects.
fn run(cmd: &str, mut answer: impl FnMut(&TerminalEffect) -> TerminalReply) -> Vec<TerminalEffect> {
    let mut session = DropdownSession::new(cmd);
    let mut reply = TerminalReply::Ack;
    let mut effects = Vec::new();
    for _ in 0..30 {
        let e = session.step(reply);
        reply = answer(&e);
        let end = matches!(e, TerminalEffect::Done | TerminalEffect::Abort | TerminalEffect::Panic(_));
        effects.push(e);
        if end {
            return effects;
        }
    }
    panic!("run did not finish");
}

#[test]
fn hidden_terminal_is_shown() {
    let effects = run("kitty", |e| match e {
        TerminalEffect::ListMonitors => TerminalReply::Screens(screens()),
        TerminalEffect::ReadRecord => TerminalReply::Text("0x1 eDP-1".to_string()),
        TerminalEffect::ListClients => {
            TerminalReply::Clients(vec![client("0x2", "3", 1), client("0x1", "special:scratchpad", 4)])
        }
        TerminalEffect::ActiveWorkspace => {
            TerminalReply::Workspace(Workspace { id: 3, name: "3".to_string() })
        }
        _ => TerminalReply::Ack,
    });
    let sc = screen("eDP-1", true);
    let p = place_terminal(&sc.monitor, &sc.measure);
    assert_eq!(
        effects,
        vec![
            TerminalEffect::ListMonitors,
            TerminalEffect::ReadRecord,
            TerminalEffect::ListClients,
            TerminalEffect::ActiveWorkspace,
            TerminalEffect::Perform(show_terminal("0x1", 3, &p)),
            TerminalEffect::Done,
        ]
    );
}

#[test]
fn visible_terminal_is_hidden() {
    let effects = run("kitty", |e| match e {
        TerminalEffect::ListMonitors => TerminalReply::Screens(screens()),
        TerminalEffect::ReadRecord => TerminalReply::Text("0x1 eDP-1\n".to_string()),
        TerminalEffect::ListClients => TerminalReply::Clients(vec![client("0x1", "2", 0)]),
        _ => TerminalReply::Ack,
    });
    assert_eq!(effects.len(), 5);
    assert_eq!(effects[3], TerminalEffect::Perform(hide_terminal(&client("0x1", "2", 0))));
    assert_eq!(effects[4], TerminalEffect::Done);
}

#[test]
fn missing_terminal_is_spawned_and_recorded() {
    let effects = run("kitty", |e| match e {
        TerminalEffect::ListMonitors => TerminalReply::Screens(screens()),
        TerminalEffect::ReadRecord => TerminalReply::Unreadable,
        TerminalEffect::ListClients => {
            TerminalReply::Clients(vec![client("0x7", "1", 1), client("0x9", "special:scratchpad", 0)])
        }
        TerminalEffect::ActiveWorkspace => {
            TerminalReply::Workspace(Workspace { id: 1, name: "1".to_string() })
        }
        _ => TerminalReply::Ack,
    });
    let sc = screen("eDP-1", true);
    let p = place_terminal(&sc.monitor, &sc.measure);
    assert_eq!(
        effects,
        vec![
            TerminalEffect::ListMonitors,
            TerminalEffect::ReadRecord,
            TerminalEffect::Perform(spawn_terminal(1280, 720, "kitty")),
            TerminalEffect::ListClients,
            TerminalEffect::SaveRecord("0x7 eDP-1".to_string()),
            TerminalEffect::ActiveWorkspace,
            TerminalEffect::Perform(show_terminal("0x7", 1, &p)),
            TerminalEffect::Done,
        ]
    );
}

#[test]
fn forgotten_terminal_is_spawned() {
    let effects = run("foot", |e| match e {
        TerminalEffect::ListMonitors => TerminalReply::Screens(screens()),
        TerminalEffect::ReadRecord => TerminalReply::Text("0x5 eDP-1".to_string()),
        TerminalEffect::ListClients => TerminalReply::Clients(Vec::new()),
        _ => TerminalReply::Ack,
    });
    assert_eq!(effects[3], TerminalEffect::Perform(spawn_terminal(1280, 720, "foot")));
    assert_eq!(effects.last(), Some(&TerminalEffect::Done));
    assert_eq!(effects.len(), 6);
}

#[test]
fn no_focused_monitor_stops() {
    let effects = run("kitty", |e| match e {
        TerminalEffect::ListMonitors => TerminalReply::Screens(vec![screen("DP-1", false)]),
        _ => TerminalReply::Ack,
    });
    assert_eq!(
        effects,
        vec![
            TerminalEffect::ListMonitors,
            TerminalEffect::Panic("Could not get focused monitor".to_string()),
        ]
    );
}

#[test]
fn unreadable_workspace_aborts() {
    let effects = run("kitty", |e| match e {
        TerminalEffect::ListMonitors => TerminalReply::Screens(screens()),
        TerminalEffect::ReadRecord => TerminalReply::Text("0x1".to_string()),
        TerminalEffect::ListClients => TerminalReply::Clients(vec![client("0x1", "special:scratchpad", 0)]),
        TerminalEffect::ActiveWorkspace => TerminalReply::Unreadable,
        _ => TerminalReply::Ack,
    });
    assert_eq!(effects.last(), Some(&TerminalEffect::Abort));
}

#[test]
fn unparsable_client_list_after_spawn_aborts() {
    let effects = run("kitty", |e| match e {
        TerminalEffect::ListMonitors => TerminalReply::Screens(screens()),
        TerminalEffect::ReadRecord => TerminalReply::Text(String::new()),
        TerminalEffect::ListClients => TerminalReply::Unreadable,
        _ => TerminalReply::Ack,
    });
    assert_eq!(effects.len(), 5);
    assert_eq!(effects[4], TerminalEffect::Abort);
}

#[test]
fn show_steps_ignore_terminal_command() {
    let answer = |e: &TerminalEffect| match e {
        TerminalEffect::ListMonitors => TerminalReply::Screens(screens()),
        TerminalEffect::ReadRecord => TerminalReply::Text("0x1".to_string()),
        TerminalEffect::ListClients => TerminalReply::Clients(vec![client("0x1", "special:scratchpad", 0)]),
        TerminalEffect::ActiveWorkspace => TerminalReply::Workspace(Workspace { id: 2, name: "2".to_string() }),
        _ => TerminalReply::Ack,
    };
    assert_eq!(run("kitty", answer), run("foot --app-id dropdown", answer));
}
