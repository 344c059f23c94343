//! The removable-storage notifier: which device was plugged in, which
//! user session to tell, and the exact notification command.
use vstd::prelude::*;
use crate::text::{chars_of, is_word, join, push_str, push_string, string_of, trim, trim_chars};

verus! {

/// The name of a device given neither on the command line nor by udev.
pub open spec fn unknown_device() -> Seq<char> {
    "unknown"@
}

/// The device to report: the command-line argument, else udev's `KERNEL`,
/// else none; a name of `unknown` counts as none.
pub open spec fn device_choice(arg: Option<Seq<char>>, kernel: Option<Seq<char>>) -> Option<Seq<char>> {
    let name = match arg {
        Some(a) => a,
        None => match kernel {
            Some(k) => k,
            None => unknown_device(),
        },
    };
    if name == unknown_device() {
        None
    } else {
        Some(name)
    }
}

/// Which device is reported.  A command-line argument wins over udev's
/// `KERNEL` whatever that holds; `KERNEL` is used only without an argument;
/// with neither there is no device; and the name `unknown` is never
/// reported as a device.
pub proof fn lemma_device_choice(arg: Option<Seq<char>>, kernel: Option<Seq<char>>)
    ensures
        arg matches Some(a) ==> (a != seq!['u', 'n', 'k', 'n', 'o', 'w', 'n'] ==> device_choice(arg, kernel)
            == Some(a)),
        arg matches Some(a) ==> (a == seq!['u', 'n', 'k', 'n', 'o', 'w', 'n'] ==> device_choice(arg, kernel)
            is None),
        kernel matches Some(k) ==> (arg is None && k != seq!['u', 'n', 'k', 'n', 'o', 'w', 'n']
            ==> device_choice(arg, kernel) == Some(k)),
        arg is None && kernel is None ==> device_choice(arg, kernel) is None,
        device_choice(arg, kernel) != Some(seq!['u', 'n', 'k', 'n', 'o', 'w', 'n']),
{
    reveal_strlit("unknown");
    assert(unknown_device() =~= seq!['u', 'n', 'k', 'n', 'o', 'w', 'n']);
}

pub open spec fn opt_view(o: Option<&str>) -> Option<Seq<char>> {
    match o {
        Some(s) => Some(s@),
        None => None,
    }
}

/// The device named by the argument or the `KERNEL` variable.
pub fn device_name(arg: Option<&str>, kernel: Option<&str>) -> (r: Option<String>)
    ensures
        r matches Some(n) ==> device_choice(opt_view(arg), opt_view(kernel)) == Some(n@),
        r is None ==> device_choice(opt_view(arg), opt_view(kernel)) is None,
{
    let name = match arg {
        Some(a) => a,
        None => match kernel {
            Some(k) => k,
            None => "unknown",
        },
    };
    if is_word(&chars_of(name), "unknown") {
        None
    } else {
        Some(String::from_str(name))
    }
}

/// Whether `char::is_numeric` holds of a character: Unicode general
/// category `Nd`, `Nl` or `No`.
pub uninterp spec fn numeric(c: char) -> bool;

/// `char::is_numeric`.  Its result is named; beyond it, the contract states
/// what the documentation plainly gives for ASCII: the ten digits are
/// numeric and no other ASCII character is.  The rest of the Unicode
/// tables is not restated.
#[verifier::external_body]
fn is_numeric(c: char) -> (r: bool)
    ensures
        r == numeric(c),
        ('0' <= c <= '9') ==> r,
        (c < '\u{80}' && !('0' <= c <= '9')) ==> !r,
{
    c.is_numeric()
}

/// A run-time directory name that is a user id: every character numeric
/// (the empty name included).
pub open spec fn is_user_id(name: Seq<char>) -> bool {
    forall|i: int| 0 <= i < name.len() ==> numeric(#[trigger] name[i])
}

/// Whether `name` names a user session directory.
pub fn names_user_id(name: &str) -> (r: bool)
    ensures
        r == is_user_id(name@),
{
    let v = chars_of(name);
    let mut i: usize = 0;
    while i < v.len()
        invariant
            i <= v.len(),
            v@ == name@,
            forall|j: int| 0 <= j < i ==> numeric(#[trigger] v@[j]),
        decreases v.len() - i,
    {
        if !is_numeric(v[i]) {
            return false;
        }
        i = i + 1;
    }
    true
}

/// The first directory entry that names a user session.
pub fn find_session(names: &Vec<String>) -> (r: Option<usize>)
    ensures
        r matches Some(i) ==> i < names.len() && is_user_id(names@[i as int]@) && forall|j: int|
            0 <= j < i ==> !is_user_id(#[trigger] names@[j]@),
        r is None ==> forall|j: int| 0 <= j < names.len() ==> !is_user_id(#[trigger] names@[j]@),
{
    let mut i: usize = 0;
    while i < names.len()
        invariant
            i <= names.len(),
            forall|j: int| 0 <= j < i ==> !is_user_id(#[trigger] names@[j]@),
        decreases names.len() - i,
    {
        if names_user_id(names[i].as_str()) {
            return Some(i);
        }
        i = i + 1;
    }
    None
}

/// The login name from the output of `id -un`, without surrounding
/// whitespace.
pub fn user_name(id_output: &str) -> (name: String)
    ensures
        name@ == trim(id_output@),
{
    string_of(&trim_chars(&chars_of(id_output)))
}

/// The command that shows the storage notification as `user`.
pub open spec fn alert_command_text(user: Seq<char>, device: Seq<char>) -> Seq<Seq<char>> {
    seq![
        "sudo"@,
        "-u"@,
        user,
        "notify-send"@,
        "--icon=drive-removable-media-symbolic"@,
        "USB Storage Detected"@,
        "Device: /dev/"@ + device,
    ]
}

/// The session environment of user `uid`: display, session bus and
/// runtime directory, as name/value pairs.
pub open spec fn alert_environment_text(uid: Seq<char>) -> Seq<Seq<Seq<char>>> {
    seq![
        seq!["DISPLAY"@, ":0"@],
        seq!["DBUS_SESSION_BUS_ADDRESS"@, "unix:path=/run/user/"@ + uid + "/bus"@],
        seq!["XDG_RUNTIME_DIR"@, "/run/user/"@ + uid],
    ]
}

/// The alert is sent as the session's user, names the device by its path
/// under `/dev/`, and reaches that user's desktop: display `:0`, the
/// session bus in the user's runtime directory `/run/user/<uid>`, and that
/// directory itself.
pub proof fn lemma_alert_reaches_user(user: Seq<char>, device: Seq<char>, uid: Seq<char>)
    ensures
        ({
            let cmd = alert_command_text(user, device);
            let env = alert_environment_text(uid);
            let run_dir = seq!['/', 'r', 'u', 'n', '/', 'u', 's', 'e', 'r', '/'] + uid;
            &&& cmd.len() == 7
            &&& cmd[0] == seq!['s', 'u', 'd', 'o'] && cmd[1] == seq!['-', 'u'] && cmd[2] == user
            &&& cmd[3] == seq!['n', 'o', 't', 'i', 'f', 'y', '-', 's', 'e', 'n', 'd']
            &&& cmd[6] == seq!['D', 'e', 'v', 'i', 'c', 'e', ':', ' ', '/', 'd', 'e', 'v', '/'] + device
            &&& env.len() == 3
            &&& env[0] == seq![seq!['D', 'I', 'S', 'P', 'L', 'A', 'Y'], seq![':', '0']]
            &&& env[1][1] == seq!['u', 'n', 'i', 'x', ':', 'p', 'a', 't', 'h', '='] + run_dir
                + seq!['/', 'b', 'u', 's']
            &&& env[2] == seq![
                seq!['X', 'D', 'G', '_', 'R', 'U', 'N', 'T', 'I', 'M', 'E', '_', 'D', 'I', 'R'],
                run_dir,
            ]
        }),
{
    reveal_strlit("sudo");
    reveal_strlit("-u");
    reveal_strlit("notify-send");
    reveal_strlit("Device: /dev/");
    reveal_strlit("DISPLAY");
    reveal_strlit(":0");
    reveal_strlit("unix:path=/run/user/");
    reveal_strlit("/bus");
    reveal_strlit("XDG_RUNTIME_DIR");
    reveal_strlit("/run/user/");
    let cmd = alert_command_text(user, device);
    let env = alert_environment_text(uid);
    let run_dir = seq!['/', 'r', 'u', 'n', '/', 'u', 's', 'e', 'r', '/'] + uid;
    assert(cmd[0] =~= seq!['s', 'u', 'd', 'o']);
    assert(cmd[1] =~= seq!['-', 'u']);
    assert(cmd[3] =~= seq!['n', 'o', 't', 'i', 'f', 'y', '-', 's', 'e', 'n', 'd']);
    assert(cmd[6] =~= seq!['D', 'e', 'v', 'i', 'c', 'e', ':', ' ', '/', 'd', 'e', 'v', '/'] + device);
    assert(env[0][0] =~= seq!['D', 'I', 'S', 'P', 'L', 'A', 'Y']);
    assert(env[0][1] =~= seq![':', '0']);
    assert(env[0] =~= seq![seq!['D', 'I', 'S', 'P', 'L', 'A', 'Y'], seq![':', '0']]);
    assert(env[1][1] =~= seq!['u', 'n', 'i', 'x', ':', 'p', 'a', 't', 'h', '='] + run_dir
        + seq!['/', 'b', 'u', 's']);
    assert(env[2][0] =~= seq!['X', 'D', 'G', '_', 'R', 'U', 'N', 'T', 'I', 'M', 'E', '_', 'D', 'I', 'R']);
    assert(env[2][1] =~= run_dir);
    assert(env[2] =~= seq![
        seq!['X', 'D', 'G', '_', 'R', 'U', 'N', 'T', 'I', 'M', 'E', '_', 'D', 'I', 'R'],
        run_dir,
    ]);
}

pub fn alert_command(user: &str, device: &str) -> (cmd: Vec<String>)
    ensures
        cmd.deep_view() == alert_command_text(user@, device@),
{
    let mut cmd: Vec<String> = Vec::new();
    push_str(&mut cmd, "sudo");
    push_str(&mut cmd, "-u");
    push_str(&mut cmd, user);
    push_str(&mut cmd, "notify-send");
    push_str(&mut cmd, "--icon=drive-removable-media-symbolic");
    push_str(&mut cmd, "USB Storage Detected");
    push_string(&mut cmd, join("Device: /dev/", device));
    assert(cmd.deep_view() =~= alert_command_text(user@, device@));
    cmd
}

fn pair(name: &str, value: String) -> (p: Vec<String>)
    ensures
        p.deep_view() == seq![name@, value@],
{
    let mut p: Vec<String> = Vec::new();
    push_str(&mut p, name);
    push_string(&mut p, value);
    assert(p.deep_view() =~= seq![name@, value@]);
    p
}

pub fn alert_environment(uid: &str) -> (env: Vec<Vec<String>>)
    ensures
        env.deep_view() == alert_environment_text(uid@),
{
    let mut env: Vec<Vec<String>> = Vec::new();
    env.push(pair("DISPLAY", String::from_str(":0")));
    env.push(pair("DBUS_SESSION_BUS_ADDRESS", join("unix:path=/run/user/", uid).concat("/bus")));
    env.push(pair("XDG_RUNTIME_DIR", join("/run/user/", uid)));
    assert forall|i: int| 0 <= i < 3 implies env.deep_view()[i] == alert_environment_text(uid@)[i] by {
        assert(env.deep_view()[i] == env@[i].deep_view());
    }
    assert(env.deep_view() =~= alert_environment_text(uid@));
    env
}

/// The line reported after the notification command ran: on standard
/// output when it succeeded, on standard error otherwise.
pub struct Outcome {
    pub to_stderr: bool,
    pub line: String,
}

/// The report for `user` once the notification command finished, or
/// failed to start (`delivered` false).
pub fn alert_outcome(user: &str, delivered: bool) -> (o: Outcome)
    ensures
        o.to_stderr == !delivered,
        delivered ==> o.line@ == "Successfully notified user "@ + user@,
        !delivered ==> o.line@ == "Failed to send notification"@,
{
    if delivered {
        Outcome { to_stderr: false, line: join("Successfully notified user ", user) }
    } else {
        Outcome { to_stderr: true, line: String::from_str("Failed to send notification") }
    }
}

} // verus!
