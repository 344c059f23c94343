//! The vocabulary shared by the brightness and volume controls: what a
//! control session asks its driver to do, and what the driver answers.
//!
//! A session is a state machine.  The driver starts it with any reply,
//! performs each effect it returns and feeds back the matching reply,
//! until the session returns `Effect::Done`.
use vstd::prelude::*;
use crate::text::{chars_of, contains, contains_chars};

verus! {

/// Something a control session needs done outside the library.
#[derive(Debug, PartialEq, Eq)]
pub enum Effect {
    /// Take the named single-instance lock without waiting;
    /// answer `Reply::Locked` or `Reply::Busy`.
    Lock(String),
    /// Run the command (program first) and answer `Reply::Output` with its
    /// standard output, trimmed; failures are reported on standard error
    /// and answered with empty output.
    Run(Vec<String>),
    /// Run the command, capturing and discarding everything it produces.
    Quiet(Vec<String>),
    /// Run the command attached to this terminal, ignoring its status.
    Attached(Vec<String>),
    /// Render the volume reading (a fraction such as `0.40`) as a whole
    /// percentage, or `0` when it is not a number; answer `Reply::Output`.
    Percent(String),
    /// Print the line on standard output.
    Print(String),
    /// Wait this many milliseconds.
    Sleep(u64),
    /// The session is over.
    Done,
}

/// What the driver reports back after an effect.
#[derive(Debug, PartialEq, Eq)]
pub enum Reply {
    /// The lock was taken.
    Locked,
    /// Another instance holds the lock.
    Busy,
    /// The text that the effect produced.
    Output(String),
    /// The effect was carried out.
    Ack,
}

/// The mathematical value of an `Effect`.
pub enum EffectView {
    Lock(Seq<char>),
    Run(Seq<Seq<char>>),
    Quiet(Seq<Seq<char>>),
    Attached(Seq<Seq<char>>),
    Percent(Seq<char>),
    Print(Seq<char>),
    Sleep(u64),
    Done,
}

/// The mathematical value of a `Reply`.
pub enum ReplyView {
    Locked,
    Busy,
    Output(Seq<char>),
    Ack,
}

impl View for Effect {
    type V = EffectView;

    open spec fn view(&self) -> EffectView {
        match self {
            Effect::Lock(name) => EffectView::Lock(name@),
            Effect::Run(cmd) => EffectView::Run(cmd.deep_view()),
            Effect::Quiet(cmd) => EffectView::Quiet(cmd.deep_view()),
            Effect::Attached(cmd) => EffectView::Attached(cmd.deep_view()),
            Effect::Percent(reading) => EffectView::Percent(reading@),
            Effect::Print(line) => EffectView::Print(line@),
            Effect::Sleep(ms) => EffectView::Sleep(*ms),
            Effect::Done => EffectView::Done,
        }
    }
}

impl View for Reply {
    type V = ReplyView;

    open spec fn view(&self) -> ReplyView {
        match self {
            Reply::Locked => ReplyView::Locked,
            Reply::Busy => ReplyView::Busy,
            Reply::Output(text) => ReplyView::Output(text@),
            Reply::Ack => ReplyView::Ack,
        }
    }
}

/// The text carried by a reply; any other reply counts as empty output.
pub open spec fn output_of(r: ReplyView) -> Seq<char> {
    match r {
        ReplyView::Output(text) => text,
        _ => Seq::empty(),
    }
}

pub fn reply_text(r: &Reply) -> (text: Vec<char>)
    ensures
        text@ == output_of(r@),
{
    match r {
        Reply::Output(t) => chars_of(t.as_str()),
        _ => Vec::new(),
    }
}

/// Effects that act on the system or the terminal (everything but taking
/// the lock and ending the session).
pub open spec fn is_action(e: EffectView) -> bool {
    !(e is Lock || e is Done)
}

/// Milliseconds a session waits after acting, to swallow key chatter.
pub const COOL_DOWN_MS: u64 = 60;

/// The lock file for the control called `name`: in the runtime directory,
/// or `/tmp` when there is none.
pub open spec fn lock_path_text(runtime_dir: Option<Seq<char>>, name: Seq<char>) -> Seq<char> {
    let dir = match runtime_dir {
        Some(d) => d,
        None => "/tmp"@,
    };
    dir + "/"@ + name + ".lock"@
}

pub fn lock_path(runtime_dir: Option<&str>, name: &str) -> (path: String)
    ensures
        path@ == lock_path_text(
            match runtime_dir {
                Some(d) => Some(d@),
                None => None,
            },
            name@,
        ),
{
    let dir = match runtime_dir {
        Some(d) => String::from_str(d),
        None => String::from_str("/tmp"),
    };
    dir.concat("/").concat(name).concat(".lock")
}

/// Which control an executable name selects.
#[derive(Debug, PartialEq, Eq)]
pub enum Control {
    Volume,
    Brightness,
    Neither,
}

/// A name containing `volume` selects the volume control; otherwise one
/// containing `brightness` selects the brightness control.
pub open spec fn control_for(exe_name: Seq<char>) -> Control {
    if contains(exe_name, "volume"@) {
        Control::Volume
    } else if contains(exe_name, "brightness"@) {
        Control::Brightness
    } else {
        Control::Neither
    }
}

pub fn choose_control(exe_name: &str) -> (c: Control)
    ensures
        c == control_for(exe_name@),
{
    let name = chars_of(exe_name);
    if contains_chars(&name, &chars_of("volume")) {
        Control::Volume
    } else if contains_chars(&name, &chars_of("brightness")) {
        Control::Brightness
    } else {
        Control::Neither
    }
}

/// Where a control keeps its lock: `<runtime dir>/<name>.lock`, or
/// `/tmp/<name>.lock` without a runtime directory.
pub proof fn lemma_lock_path_place(runtime_dir: Option<Seq<char>>, name: Seq<char>)
    ensures
        runtime_dir matches Some(d) ==> lock_path_text(runtime_dir, name) == d + seq!['/'] + name
            + seq!['.', 'l', 'o', 'c', 'k'],
        runtime_dir is None ==> lock_path_text(runtime_dir, name) == seq!['/', 't', 'm', 'p', '/']
            + name + seq!['.', 'l', 'o', 'c', 'k'],
{
    reveal_strlit("/tmp");
    reveal_strlit("/");
    reveal_strlit(".lock");
    assert("/"@ =~= seq!['/']);
    assert(".lock"@ =~= seq!['.', 'l', 'o', 'c', 'k']);
    if runtime_dir is None {
        assert("/tmp"@ + "/"@ =~= seq!['/', 't', 'm', 'p', '/']);
        assert(seq!['/', 't', 'm', 'p'] + seq!['/'] + name =~= seq!['/', 't', 'm', 'p', '/'] + name);
    }
}

/// The executable's name picks the control: a name mentioning `volume`
/// runs the volume control (even if it also mentions `brightness`), one
/// mentioning only `brightness` the brightness control, any other neither.
pub proof fn lemma_control_choice(exe_name: Seq<char>)
    ensures
        contains(exe_name, seq!['v', 'o', 'l', 'u', 'm', 'e']) ==> control_for(exe_name) is Volume,
        !contains(exe_name, seq!['v', 'o', 'l', 'u', 'm', 'e']) && contains(
            exe_name,
            seq!['b', 'r', 'i', 'g', 'h', 't', 'n', 'e', 's', 's'],
        ) ==> control_for(exe_name) is Brightness,
        !contains(exe_name, seq!['v', 'o', 'l', 'u', 'm', 'e']) && !contains(
            exe_name,
            seq!['b', 'r', 'i', 'g', 'h', 't', 'n', 'e', 's', 's'],
        ) ==> control_for(exe_name) is Neither,
{
    reveal_strlit("volume");
    reveal_strlit("brightness");
    assert("volume"@ =~= seq!['v', 'o', 'l', 'u', 'm', 'e']);
    assert("brightness"@ =~= seq!['b', 'r', 'i', 'g', 'h', 't', 'n', 'e', 's', 's']);
}

} // verus!
