//! The volume and microphone control: parses the request, issues the
//! `wpctl` adjustments, reads the level back, works out whether headphones
//! are the active output, and announces the result, all in one locked
//! session.
use vstd::prelude::*;
use crate::control::{Effect, EffectView, Reply, ReplyView, output_of, reply_text, COOL_DOWN_MS};
use crate::text::{
    chars_of, contains, contains_chars, occurs_at, is_whitespace, is_word, lemma_find_space_at,
    lemma_find_space_bound, lemma_words_skip_space, line_at, lines, nth_word, push_str, push_string,
    string_of, join, words,
};

verus! {

/// The Unicode lowercase mapping of a string, as `str::to_lowercase`
/// computes it.
pub uninterp spec fn lowercase(s: Seq<char>) -> Seq<char>;

/// `str::to_lowercase`.  Its result is named, not described: it depends on
/// the argument alone, and the Unicode case tables it follows are not
/// restated here.
#[verifier::external_body]
fn to_lowercase(s: &str) -> (r: String)
    ensures
        r@ == lowercase(s@),
{
    s.to_lowercase()
}

/// A line of `wpctl status` that marks the active sink (`[*]`) and names
/// a headphone output, in any letter case.
pub open spec fn headphone_line(line: Seq<char>) -> bool {
    contains(line, "[*]"@) && contains(lowercase(line), "headphone"@)
}

/// Some line of the `wpctl status` output is a headphone line.
pub open spec fn headphones_active(status: Seq<char>) -> bool {
    exists|i: int| 0 <= i < lines(status).len() && headphone_line(#[trigger] lines(status)[i])
}

/// Whether `line`, whose lowercase form is `lowered`, marks an active
/// headphone output.
pub fn is_active_headphone_line(line: &str, lowered: &str) -> (r: bool)
    ensures
        r == (contains(line@, "[*]"@) && contains(lowered@, "headphone"@)),
{
    contains_chars(&chars_of(line), &chars_of("[*]")) && contains_chars(
        &chars_of(lowered),
        &chars_of("headphone"),
    )
}

/// Whether the `wpctl status` output shows headphones as the active sink.
pub fn is_headphones_connected(status: &str) -> (r: bool)
    ensures
        r == headphones_active(status@),
{
    let v = chars_of(status);
    let mut pos: usize = 0;
    let ghost mut seen: Seq<Seq<char>> = Seq::empty();
    assert(v@.skip(0) =~= v@);
    while pos < v.len()
        invariant
            pos <= v.len(),
            lines(v@) == seen + lines(v@.skip(pos as int)),
            forall|i: int| 0 <= i < seen.len() ==> !headphone_line(#[trigger] seen[i]),
            v@ == status@,
        decreases v.len() - pos,
    {
        let (line, next) = line_at(&v, pos);
        let text = string_of(&line);
        let lowered = to_lowercase(text.as_str());
        if is_active_headphone_line(text.as_str(), lowered.as_str()) {
            assert(lines(v@)[seen.len() as int] == line@);
            return true;
        }
        proof {
            assert(lines(v@) =~= seen.push(line@) + lines(v@.skip(next as int)));
            seen = seen.push(line@);
        }
        pos = next;
    }
    assert(v@.skip(pos as int) =~= Seq::<char>::empty());
    assert(lines(v@) =~= seen);
    false
}

/// What a volume invocation asks to change.
#[derive(Debug, Clone, Copy, PartialEq, Eq)]
pub enum VolumeAction {
    /// `--toggle`, `--toggle-mic`: flip the mute state.
    Toggle,
    /// `--inc`, `--mic-inc`: unmute and go five percent up, capped at 150%.
    Raise,
    /// `--dec`, `--mic-dec`: unmute and go five percent down.
    Lower,
    /// `--inc-fine`, `--mic-inc-fine`: unmute and go one percent up, capped at 150%.
    RaiseFine,
    /// `--dec-fine`, `--mic-dec-fine`: unmute and go one percent down.
    LowerFine,
    /// `--get`, `--get-mic`: print the level, change nothing.
    Get,
    /// Anything else: change nothing, announce the level.
    Other,
}

/// A volume invocation: the action, and whether it is about the microphone
/// (its argument mentions `mic`) rather than the speakers.
#[derive(Debug, Clone, Copy, PartialEq, Eq)]
pub struct VolumeRequest {
    pub action: VolumeAction,
    pub mic: bool,
}

pub open spec fn volume_action(arg: Seq<char>) -> VolumeAction {
    if arg == "--toggle"@ || arg == "--toggle-mic"@ {
        VolumeAction::Toggle
    } else if arg == "--inc"@ || arg == "--mic-inc"@ {
        VolumeAction::Raise
    } else if arg == "--dec"@ || arg == "--mic-dec"@ {
        VolumeAction::Lower
    } else if arg == "--inc-fine"@ || arg == "--mic-inc-fine"@ {
        VolumeAction::RaiseFine
    } else if arg == "--dec-fine"@ || arg == "--mic-dec-fine"@ {
        VolumeAction::LowerFine
    } else if arg == "--get"@ || arg == "--get-mic"@ {
        VolumeAction::Get
    } else {
        VolumeAction::Other
    }
}

pub open spec fn volume_request(arg: Seq<char>) -> VolumeRequest {
    VolumeRequest { action: volume_action(arg), mic: contains(arg, "mic"@) }
}

pub fn parse_volume_request(arg: &str) -> (r: VolumeRequest)
    ensures
        r == volume_request(arg@),
{
    let a = chars_of(arg);
    let action = if is_word(&a, "--toggle") || is_word(&a, "--toggle-mic") {
        VolumeAction::Toggle
    } else if is_word(&a, "--inc") || is_word(&a, "--mic-inc") {
        VolumeAction::Raise
    } else if is_word(&a, "--dec") || is_word(&a, "--mic-dec") {
        VolumeAction::Lower
    } else if is_word(&a, "--inc-fine") || is_word(&a, "--mic-inc-fine") {
        VolumeAction::RaiseFine
    } else if is_word(&a, "--dec-fine") || is_word(&a, "--mic-dec-fine") {
        VolumeAction::LowerFine
    } else if is_word(&a, "--get") || is_word(&a, "--get-mic") {
        VolumeAction::Get
    } else {
        VolumeAction::Other
    };
    VolumeRequest { action, mic: contains_chars(&a, &chars_of("mic")) }
}

/// The PipeWire node a request is about.
pub open spec fn volume_target(mic: bool) -> Seq<char> {
    if mic {
        "@DEFAULT_AUDIO_SOURCE@"@
    } else {
        "@DEFAULT_AUDIO_SINK@"@
    }
}

pub open spec fn unmute_command(mic: bool) -> Seq<Seq<char>> {
    seq!["wpctl"@, "set-mute"@, volume_target(mic), "0"@]
}

/// The `wpctl` commands that carry out a request, in order.
pub open spec fn volume_commands(req: VolumeRequest) -> Seq<Seq<Seq<char>>> {
    let t = volume_target(req.mic);
    match req.action {
        VolumeAction::Toggle => seq![seq!["wpctl"@, "set-mute"@, t, "toggle"@]],
        VolumeAction::Raise => seq![
            unmute_command(req.mic),
            seq!["wpctl"@, "set-volume"@, "-l"@, "1.5"@, t, "0.05+"@],
        ],
        VolumeAction::Lower => seq![
            unmute_command(req.mic),
            seq!["wpctl"@, "set-volume"@, t, "0.05-"@],
        ],
        VolumeAction::RaiseFine => seq![
            unmute_command(req.mic),
            seq!["wpctl"@, "set-volume"@, "-l"@, "1.5"@, t, "0.01+"@],
        ],
        VolumeAction::LowerFine => seq![
            unmute_command(req.mic),
            seq!["wpctl"@, "set-volume"@, t, "0.01-"@],
        ],
        _ => Seq::empty(),
    }
}

/// The level query for the request's node.
pub open spec fn query_command(mic: bool) -> Seq<Seq<char>> {
    seq!["wpctl"@, "get-volume"@, volume_target(mic)]
}

/// The sink overview that tells which output is active.
pub open spec fn status_command() -> Seq<Seq<char>> {
    seq!["wpctl"@, "status"@]
}

/// The level field of a `wpctl get-volume` answer such as
/// `Volume: 0.40 [MUTED]`: its second word, or `0.00` when there is none.
pub open spec fn volume_field(raw: Seq<char>) -> Seq<char> {
    if words(raw).len() > 1 {
        words(raw)[1]
    } else {
        "0.00"@
    }
}

/// The answer reports the node as muted.
pub open spec fn is_muted(raw: Seq<char>) -> bool {
    contains(raw, "[MUTED]"@)
}

/// The `notify-send` command announcing a level: `level` is the whole
/// percentage, `headphones` whether headphones are the active output.
pub open spec fn volume_notification_command(
    mic: bool,
    muted: bool,
    headphones: bool,
    level: Seq<char>,
) -> Seq<Seq<char>> {
    let icon = if mic {
        if muted {
            "audio-input-microphone-muted-symbolic"@
        } else {
            "audio-input-microphone-high-symbolic"@
        }
    } else if muted {
        if headphones {
            "audio-volume-muted-headphones-symbolic"@
        } else {
            "audio-volume-muted-symbolic"@
        }
    } else if headphones {
        "audio-volume-headphones-symbolic"@
    } else {
        "audio-volume-high-symbolic"@
    };
    let name = if mic {
        "Microphone: "@
    } else {
        "Volume: "@
    };
    let label = if muted || level == "0"@ {
        name + "Muted"@
    } else {
        name + level + "%"@
    };
    let id = if mic {
        "997"@
    } else {
        "998"@
    };
    let key = if mic {
        "mic_notif"@
    } else {
        "volume_notif"@
    };
    let shown = if muted {
        "0"@
    } else {
        level
    };
    seq![
        "notify-send"@,
        "-e"@,
        "-a"@,
        "System"@,
        "-r"@,
        id,
        "-h"@,
        "string:x-canonical-private-synchronous:"@ + key,
        "-h"@,
        "int:value:"@ + shown,
        "-u"@,
        "low"@,
        "--icon"@,
        icon,
        label,
    ]
}

/// The level field of a `wpctl get-volume` answer.
pub fn volume_reading(raw: &str) -> (field: String)
    ensures
        field@ == volume_field(raw@),
{
    match nth_word(&chars_of(raw), 1) {
        Some(w) => string_of(&w),
        None => String::from_str("0.00"),
    }
}

/// Whether a `wpctl get-volume` answer reports the node as muted.
pub fn reports_muted(raw: &str) -> (r: bool)
    ensures
        r == is_muted(raw@),
{
    contains_chars(&chars_of(raw), &chars_of("[MUTED]"))
}

/// The notification announcing a level.
pub fn volume_notification(mic: bool, muted: bool, headphones: bool, level: &str) -> (cmd: Vec<
    String,
>)
    ensures
        cmd.deep_view() == volume_notification_command(mic, muted, headphones, level@),
{
    let icon = if mic {
        if muted {
            "audio-input-microphone-muted-symbolic"
        } else {
            "audio-input-microphone-high-symbolic"
        }
    } else if muted {
        if headphones {
            "audio-volume-muted-headphones-symbolic"
        } else {
            "audio-volume-muted-symbolic"
        }
    } else if headphones {
        "audio-volume-headphones-symbolic"
    } else {
        "audio-volume-high-symbolic"
    };
    let name = if mic {
        "Microphone: "
    } else {
        "Volume: "
    };
    let label = if muted || is_word(&chars_of(level), "0") {
        join(name, "Muted")
    } else {
        join(name, level).concat("%")
    };
    let mut cmd: Vec<String> = Vec::new();
    push_str(&mut cmd, "notify-send");
    push_str(&mut cmd, "-e");
    push_str(&mut cmd, "-a");
    push_str(&mut cmd, "System");
    push_str(&mut cmd, "-r");
    push_str(
        &mut cmd,
        if mic {
            "997"
        } else {
            "998"
        },
    );
    push_str(&mut cmd, "-h");
    push_string(
        &mut cmd,
        join(
            "string:x-canonical-private-synchronous:",
            if mic {
                "mic_notif"
            } else {
                "volume_notif"
            },
        ),
    );
    push_str(&mut cmd, "-h");
    push_string(
        &mut cmd,
        join(
            "int:value:",
            if muted {
                "0"
            } else {
                level
            },
        ),
    );
    push_str(&mut cmd, "-u");
    push_str(&mut cmd, "low");
    push_str(&mut cmd, "--icon");
    push_str(&mut cmd, icon);
    push_string(&mut cmd, label);
    assert(cmd.deep_view() =~= volume_notification_command(mic, muted, headphones, level@));
    cmd
}


fn wpctl_unmute(mic: bool) -> (cmd: Vec<String>)
    ensures
        cmd.deep_view() == unmute_command(mic),
{
    let mut cmd: Vec<String> = Vec::new();
    push_str(&mut cmd, "wpctl");
    push_str(&mut cmd, "set-mute");
    push_string(&mut cmd, target_name(mic));
    push_str(&mut cmd, "0");
    assert(cmd.deep_view() =~= unmute_command(mic));
    cmd
}

fn target_name(mic: bool) -> (t: String)
    ensures
        t@ == volume_target(mic),
{
    if mic {
        String::from_str("@DEFAULT_AUDIO_SOURCE@")
    } else {
        String::from_str("@DEFAULT_AUDIO_SINK@")
    }
}

fn wpctl_set_volume(mic: bool, capped: bool, step: &str) -> (cmd: Vec<String>)
    ensures
        capped ==> cmd.deep_view() == seq![
            "wpctl"@,
            "set-volume"@,
            "-l"@,
            "1.5"@,
            volume_target(mic),
            step@,
        ],
        !capped ==> cmd.deep_view() == seq!["wpctl"@, "set-volume"@, volume_target(mic), step@],
{
    let mut cmd: Vec<String> = Vec::new();
    push_str(&mut cmd, "wpctl");
    push_str(&mut cmd, "set-volume");
    if capped {
        push_str(&mut cmd, "-l");
        push_str(&mut cmd, "1.5");
    }
    push_string(&mut cmd, target_name(mic));
    push_str(&mut cmd, step);
    proof {
        if capped {
            assert(cmd.deep_view() =~= seq![
                "wpctl"@,
                "set-volume"@,
                "-l"@,
                "1.5"@,
                volume_target(mic),
                step@,
            ]);
        } else {
            assert(cmd.deep_view() =~= seq!["wpctl"@, "set-volume"@, volume_target(mic), step@]);
        }
    }
    cmd
}

/// The `wpctl` commands that carry out a request, in order.
pub fn command_list(req: VolumeRequest) -> (cmds: Vec<Vec<String>>)
    ensures
        cmds.deep_view() == volume_commands(req),
{
    let mut cmds: Vec<Vec<String>> = Vec::new();
    match req.action {
        VolumeAction::Toggle => {
            let mut cmd: Vec<String> = Vec::new();
            push_str(&mut cmd, "wpctl");
            push_str(&mut cmd, "set-mute");
            push_string(&mut cmd, target_name(req.mic));
            push_str(&mut cmd, "toggle");
            assert(cmd.deep_view() =~= seq![
                "wpctl"@,
                "set-mute"@,
                volume_target(req.mic),
                "toggle"@,
            ]);
            cmds.push(cmd);
        },
        VolumeAction::Raise => {
            cmds.push(wpctl_unmute(req.mic));
            cmds.push(wpctl_set_volume(req.mic, true, "0.05+"));
        },
        VolumeAction::Lower => {
            cmds.push(wpctl_unmute(req.mic));
            cmds.push(wpctl_set_volume(req.mic, false, "0.05-"));
        },
        VolumeAction::RaiseFine => {
            cmds.push(wpctl_unmute(req.mic));
            cmds.push(wpctl_set_volume(req.mic, true, "0.01+"));
        },
        VolumeAction::LowerFine => {
            cmds.push(wpctl_unmute(req.mic));
            cmds.push(wpctl_set_volume(req.mic, false, "0.01-"));
        },
        _ => {},
    }
    assert(cmds.deep_view().len() == volume_commands(req).len());
    assert forall|i: int| 0 <= i < cmds.deep_view().len() implies cmds.deep_view()[i]
        == volume_commands(req)[i] by {
        assert(cmds.deep_view()[i] == cmds@[i].deep_view());
    }
    assert(cmds.deep_view() =~= volume_commands(req));
    cmds
}

fn query_args(mic: bool) -> (cmd: Vec<String>)
    ensures
        cmd.deep_view() == query_command(mic),
{
    let mut cmd: Vec<String> = Vec::new();
    push_str(&mut cmd, "wpctl");
    push_str(&mut cmd, "get-volume");
    push_string(&mut cmd, target_name(mic));
    assert(cmd.deep_view() =~= query_command(mic));
    cmd
}

fn status_args() -> (cmd: Vec<String>)
    ensures
        cmd.deep_view() == status_command(),
{
    let mut cmd: Vec<String> = Vec::new();
    push_str(&mut cmd, "wpctl");
    push_str(&mut cmd, "status");
    assert(cmd.deep_view() =~= status_command());
    cmd
}

/// Where a volume session stands.
#[derive(Debug, Clone, Copy, PartialEq, Eq)]
pub enum VolumeStage {
    /// Nothing done yet.
    Start,
    /// The lock was asked for.
    AwaitLock,
    /// `done` of the request's commands were issued.
    Adjusting { done: usize },
    /// The level was asked for.
    Querying,
    /// The level field is being turned into a percentage.
    Converting { muted: bool },
    /// The sink overview was asked for, to pick the speaker icon.
    CheckingOutput { muted: bool },
    /// The level was announced.
    Notifying,
    /// The level was printed.
    Reporting,
    /// Waiting out the cool-down.
    Cooling,
    /// Over.
    Finished,
}

/// One invocation of the volume control; `level` keeps the percentage
/// while the sink overview is read.
pub struct VolumeSession {
    pub request: VolumeRequest,
    pub stage: VolumeStage,
    pub level: String,
}

/// The mathematical value of a `VolumeSession`.
pub struct VolumeModel {
    pub request: VolumeRequest,
    pub stage: VolumeStage,
    pub level: Seq<char>,
}

impl View for VolumeSession {
    type V = VolumeModel;

    open spec fn view(&self) -> VolumeModel {
        VolumeModel { request: self.request, stage: self.stage, level: self.level@ }
    }
}

pub open spec fn volume_at(req: VolumeRequest, stage: VolumeStage, level: Seq<char>) -> VolumeModel {
    VolumeModel { request: req, stage, level }
}

/// The transition of a volume session on a reply: the next session and the
/// effect to perform.
pub open spec fn volume_next(s: VolumeModel, r: ReplyView) -> (VolumeModel, EffectView) {
    let req = s.request;
    let cmds = volume_commands(req);
    match s.stage {
        VolumeStage::Start => (
            volume_at(req, VolumeStage::AwaitLock, s.level),
            EffectView::Lock("volume"@),
        ),
        VolumeStage::AwaitLock => {
            if !(r is Locked) {
                (volume_at(req, VolumeStage::Finished, s.level), EffectView::Done)
            } else if cmds.len() > 0 {
                (volume_at(req, VolumeStage::Adjusting { done: 1 }, s.level), EffectView::Run(cmds[0]))
            } else {
                (
                    volume_at(req, VolumeStage::Querying, s.level),
                    EffectView::Run(query_command(req.mic)),
                )
            }
        },
        VolumeStage::Adjusting { done } => {
            if done < cmds.len() {
                (
                    volume_at(req, VolumeStage::Adjusting { done: (done + 1) as usize }, s.level),
                    EffectView::Run(cmds[done as int]),
                )
            } else {
                (
                    volume_at(req, VolumeStage::Querying, s.level),
                    EffectView::Run(query_command(req.mic)),
                )
            }
        },
        VolumeStage::Querying => {
            let raw = output_of(r);
            (
                volume_at(req, VolumeStage::Converting { muted: is_muted(raw) }, s.level),
                EffectView::Percent(volume_field(raw)),
            )
        },
        VolumeStage::Converting { muted } => {
            let level = output_of(r);
            if req.action is Get {
                (volume_at(req, VolumeStage::Reporting, s.level), EffectView::Print(level))
            } else if req.mic {
                (
                    volume_at(req, VolumeStage::Notifying, s.level),
                    EffectView::Attached(volume_notification_command(true, muted, false, level)),
                )
            } else {
                (
                    volume_at(req, VolumeStage::CheckingOutput { muted }, level),
                    EffectView::Run(status_command()),
                )
            }
        },
        VolumeStage::CheckingOutput { muted } => (
            volume_at(req, VolumeStage::Notifying, s.level),
            EffectView::Attached(
                volume_notification_command(false, muted, headphones_active(output_of(r)), s.level),
            ),
        ),
        VolumeStage::Notifying => (volume_at(req, VolumeStage::Cooling, s.level), EffectView::Sleep(60)),
        VolumeStage::Reporting => (volume_at(req, VolumeStage::Finished, s.level), EffectView::Done),
        VolumeStage::Cooling => (volume_at(req, VolumeStage::Finished, s.level), EffectView::Done),
        VolumeStage::Finished => (volume_at(req, VolumeStage::Finished, s.level), EffectView::Done),
    }
}

impl VolumeSession {
    /// A fresh session for the command-line argument `arg`.
    pub fn new(arg: &str) -> (s: VolumeSession)
        ensures
            s@ == volume_at(volume_request(arg@), VolumeStage::Start, Seq::empty()),
    {
        VolumeSession { request: parse_volume_request(arg), stage: VolumeStage::Start, level: String::new() }
    }

    /// Advances the session on `reply` and returns what to do next.
    pub fn step(&mut self, reply: Reply) -> (e: Effect)
        ensures
            (final(self)@, e@) == volume_next(old(self)@, reply@),
    {
        let req = self.request;
        match self.stage {
            VolumeStage::Start => {
                self.stage = VolumeStage::AwaitLock;
                Effect::Lock(String::from_str("volume"))
            },
            VolumeStage::AwaitLock => {
                if let Reply::Locked = reply {
                    let mut cmds = command_list(req);
                    if cmds.len() > 0 {
                        self.stage = VolumeStage::Adjusting { done: 1 };
                        let first = cmds.remove(0);
                        Effect::Run(first)
                    } else {
                        self.stage = VolumeStage::Querying;
                        Effect::Run(query_args(req.mic))
                    }
                } else {
                    self.stage = VolumeStage::Finished;
                    Effect::Done
                }
            },
            VolumeStage::Adjusting { done } => {
                let mut cmds = command_list(req);
                if done < cmds.len() {
                    self.stage = VolumeStage::Adjusting { done: done + 1 };
                    let next = cmds.remove(done);
                    Effect::Run(next)
                } else {
                    self.stage = VolumeStage::Querying;
                    Effect::Run(query_args(req.mic))
                }
            },
            VolumeStage::Querying => {
                let raw = string_of(&reply_text(&reply));
                self.stage = VolumeStage::Converting { muted: reports_muted(raw.as_str()) };
                Effect::Percent(volume_reading(raw.as_str()))
            },
            VolumeStage::Converting { muted } => {
                let level = string_of(&reply_text(&reply));
                match req.action {
                    VolumeAction::Get => {
                        self.stage = VolumeStage::Reporting;
                        Effect::Print(level)
                    },
                    _ => {
                        if req.mic {
                            self.stage = VolumeStage::Notifying;
                            Effect::Attached(volume_notification(true, muted, false, level.as_str()))
                        } else {
                            self.stage = VolumeStage::CheckingOutput { muted };
                            self.level = level;
                            Effect::Run(status_args())
                        }
                    },
                }
            },
            VolumeStage::CheckingOutput { muted } => {
                let status = string_of(&reply_text(&reply));
                let headphones = is_headphones_connected(status.as_str());
                self.stage = VolumeStage::Notifying;
                Effect::Attached(volume_notification(false, muted, headphones, self.level.as_str()))
            },
            VolumeStage::Notifying => {
                self.stage = VolumeStage::Cooling;
                Effect::Sleep(COOL_DOWN_MS)
            },
            VolumeStage::Reporting => {
                self.stage = VolumeStage::Finished;
                Effect::Done
            },
            VolumeStage::Cooling => {
                self.stage = VolumeStage::Finished;
                Effect::Done
            },
            VolumeStage::Finished => Effect::Done,
        }
    }
}


/// Stages in which the session holds the single-instance lock.
pub open spec fn volume_locked(stage: VolumeStage) -> bool {
    !(stage is Start || stage is AwaitLock || stage is Finished)
}

/// Steps left before the session is over, at most.
pub open spec fn volume_rank(stage: VolumeStage) -> int {
    match stage {
        VolumeStage::Start => 12,
        VolumeStage::AwaitLock => 11,
        VolumeStage::Adjusting { done } => 10 - done,
        VolumeStage::Querying => 5,
        VolumeStage::Converting { .. } => 4,
        VolumeStage::CheckingOutput { .. } => 3,
        VolumeStage::Notifying => 2,
        VolumeStage::Reporting => 1,
        VolumeStage::Cooling => 1,
        VolumeStage::Finished => 0,
    }
}

/// The session states that a run from a fresh session can reach: an
/// adjustment stage counts commands of the request, and only speaker
/// requests that are not `--get` check the active output.
pub open spec fn volume_consistent(s: VolumeModel) -> bool {
    &&& (s.stage matches VolumeStage::Adjusting { done } ==> 1 <= done <= volume_commands(
        s.request,
    ).len())
    &&& (s.stage is CheckingOutput ==> !(s.request.action is Get) && !s.request.mic)
    &&& (s.stage is Reporting ==> s.request.action is Get)
}

/// A fresh session is consistent, and every step keeps it so.
pub proof fn lemma_volume_consistent(s: VolumeModel, r: ReplyView)
    ensures
        volume_consistent(volume_at(s.request, VolumeStage::Start, s.level)),
        volume_consistent(s) ==> volume_consistent(volume_next(s, r).0),
{
}

/// A volume session asks for its lock before it does anything else, and a
/// refused lock ends it at once.
pub proof fn lemma_volume_lock_protocol(s: VolumeModel, r: ReplyView)
    ensures
        s.stage is Start ==> volume_next(s, r).1 == EffectView::Lock("volume"@),
        (s.stage is AwaitLock && !(r is Locked)) ==> volume_next(s, r) == (
            volume_at(s.request, VolumeStage::Finished, s.level),
            EffectView::Done,
        ),
{
}

/// Commands, prints and waits happen only while the lock is held, and the
/// lock is held only after the driver granted it.
pub proof fn lemma_volume_acts_under_lock(s: VolumeModel, r: ReplyView)
    ensures
        ({
            let (n, e) = volume_next(s, r);
            &&& crate::control::is_action(e) ==> volume_locked(s.stage) || (s.stage is AwaitLock
                && r is Locked)
            &&& volume_locked(n.stage) ==> volume_locked(s.stage) || (s.stage is AwaitLock
                && r is Locked)
        }),
{
}

/// A session that took the lock ends only after the cool-down wait, except
/// for a `--get`, which ends right after printing.
pub proof fn lemma_volume_cools_down(s: VolumeModel, r: ReplyView)
    requires
        volume_consistent(s),
    ensures
        ({
            let (n, e) = volume_next(s, r);
            &&& (e is Done && volume_locked(s.stage)) ==> s.stage is Cooling || (s.stage is Reporting
                && s.request.action is Get)
            &&& (e is Done && volume_locked(s.stage) && !(s.request.action is Get)) ==> s.stage is Cooling
            &&& (n.stage is Cooling && !(s.stage is Cooling)) ==> e == EffectView::Sleep(60)
            &&& (n.stage is Reporting && !(s.stage is Reporting)) ==> s.request.action is Get
        }),
{
}

/// Every step of a consistent session before the end brings it closer to
/// the end, and an ended session stays ended.
pub proof fn lemma_volume_progress(s: VolumeModel, r: ReplyView)
    requires
        volume_consistent(s),
    ensures
        ({
            let (n, e) = volume_next(s, r);
            &&& !(s.stage is Finished) ==> 0 <= volume_rank(n.stage) < volume_rank(s.stage)
            &&& s.stage is Finished ==> n == s && e is Done
        }),
{
}

/// A `--get` request changes nothing and announces nothing: it issues no
/// `wpctl` adjustment and no notification.
pub proof fn lemma_volume_get_is_read_only(s: VolumeModel, r: ReplyView)
    requires
        volume_consistent(s),
        s.request.action is Get,
    ensures
        volume_commands(s.request).len() == 0,
        !(volume_next(s, r).1 is Attached),
        volume_next(s, r).1 matches EffectView::Run(cmd) ==> cmd == query_command(s.request.mic),
{
}

/// Raising and lowering first unmute the node; raising never goes past
/// 150%; every command is about the node the request names.
pub proof fn lemma_volume_commands_shape(req: VolumeRequest)
    ensures
        !(req.action is Toggle || req.action is Get || req.action is Other) ==> volume_commands(
            req,
        )[0] == unmute_command(req.mic),
        (req.action is Raise || req.action is RaiseFine) ==> volume_commands(req)[1].subrange(2, 4)
            == seq!["-l"@, "1.5"@],
        forall|i: int|
            0 <= i < volume_commands(req).len() ==> (#[trigger] volume_commands(req)[i]).contains(
                volume_target(req.mic),
            ),
{
    let cmds = volume_commands(req);
    if req.action is Raise || req.action is RaiseFine {
        assert(cmds[1].subrange(2, 4) =~= seq!["-l"@, "1.5"@]);
    }
    assert forall|i: int| 0 <= i < cmds.len() implies (#[trigger] cmds[i]).contains(
        volume_target(req.mic),
    ) by {
        if cmds[i].len() == 4 {
            assert(cmds[i][2] == volume_target(req.mic));
        } else {
            assert(cmds[i][4] == volume_target(req.mic));
        }
    }
}

/// A muted node is announced as muted, with a level of 0.
pub proof fn lemma_volume_muted_announcement(mic: bool, headphones: bool, level: Seq<char>)
    ensures
        ({
            let cmd = volume_notification_command(mic, true, headphones, level);
            &&& cmd[9] == "int:value:"@ + "0"@
            &&& cmd[14] == (if mic {
                "Microphone: "@
            } else {
                "Volume: "@
            }) + "Muted"@
        }),
{
}


/// The announcement of a level.  The speakers and the microphone each
/// replace their own earlier notification (ids 998 and 997); an unmuted
/// node with a level above zero shows `Volume: N%` or `Microphone: N%` and
/// the level as the progress value; the icon tells the microphone from the
/// speakers, muted from sounding, and headphones from other outputs.
pub proof fn lemma_volume_announcement(mic: bool, muted: bool, headphones: bool, level: Seq<char>)
    ensures
        ({
            let cmd = volume_notification_command(mic, muted, headphones, level);
            &&& cmd.len() == 15
            &&& cmd[0] == "notify-send"@
            &&& cmd[5] == (if mic { "997"@ } else { "998"@ })
            &&& !muted && level != "0"@ ==> cmd[9] == "int:value:"@ + level && cmd[14] == (if mic {
                "Microphone: "@
            } else {
                "Volume: "@
            }) + level + "%"@
            &&& !muted && level == "0"@ ==> cmd[14] == (if mic {
                "Microphone: "@
            } else {
                "Volume: "@
            }) + "Muted"@
            &&& mic && muted ==> cmd[13] == "audio-input-microphone-muted-symbolic"@
            &&& mic && !muted ==> cmd[13] == "audio-input-microphone-high-symbolic"@
            &&& !mic && muted && headphones ==> cmd[13] == "audio-volume-muted-headphones-symbolic"@
            &&& !mic && muted && !headphones ==> cmd[13] == "audio-volume-muted-symbolic"@
            &&& !mic && !muted && headphones ==> cmd[13] == "audio-volume-headphones-symbolic"@
            &&& !mic && !muted && !headphones ==> cmd[13] == "audio-volume-high-symbolic"@
        }),
{
}

/// The level read from `wpctl get-volume` is the number after `Volume: `,
/// whatever follows it after a space (such as ` [MUTED]`).
pub proof fn lemma_volume_field_level(level: Seq<char>, rest: Seq<char>)
    requires
        level.len() > 0,
        forall|j: int| 0 <= j < level.len() ==> !is_whitespace(#[trigger] level[j]),
        rest.len() == 0 || is_whitespace(rest[0]),
    ensures
        volume_field(seq!['V', 'o', 'l', 'u', 'm', 'e', ':', ' '] + level + rest) == level,
{
    let head = seq!['V', 'o', 'l', 'u', 'm', 'e', ':', ' '];
    let s = head + level + rest;
    let t = level + rest;
    assert(s[7] == ' ');
    assert forall|j: int| 0 <= j < 7 implies !is_whitespace(#[trigger] s[j]) by {
        assert(s[j] == head[j]);
    }
    lemma_find_space_at(s, 7);
    lemma_find_space_bound(s);
    let after = s.skip(7);
    assert(after[0] == ' ');
    lemma_words_skip_space(after, 1);
    assert(after.skip(1) =~= t);
    assert forall|j: int| 0 <= j < level.len() implies !is_whitespace(#[trigger] t[j]) by {
        assert(t[j] == level[j]);
    }
    if rest.len() > 0 {
        assert(t[level.len() as int] == rest[0]);
    }
    lemma_find_space_at(t, level.len() as int);
    lemma_find_space_bound(t);
    assert(t.take(level.len() as int) =~= level);
    assert(t.skip(level.len() as int) =~= rest);
    assert(words(t) == seq![level] + words(rest));
    assert(words(s) == seq![s.take(7)] + words(after));
    assert(words(s)[1] == level);
}

/// The session after the first `i` replies of `rs`, starting from `m`.
pub open spec fn volume_state_at(m: VolumeModel, rs: Seq<ReplyView>, i: nat) -> VolumeModel
    decreases i,
{
    if i == 0 {
        m
    } else {
        volume_next(volume_state_at(m, rs, (i - 1) as nat), rs[i - 1]).0
    }
}

/// The effect returned on the `i`-th reply of `rs`, starting from `m`.
pub open spec fn volume_effect_at(m: VolumeModel, rs: Seq<ReplyView>, i: nat) -> EffectView {
    volume_next(volume_state_at(m, rs, i), rs[i as int]).1
}

proof fn lemma_volume_run_consistent(m: VolumeModel, rs: Seq<ReplyView>, i: nat)
    requires
        volume_consistent(m),
    ensures
        volume_consistent(volume_state_at(m, rs, i)),
        volume_state_at(m, rs, i).request == m.request,
    decreases i,
{
    if i > 0 {
        lemma_volume_run_consistent(m, rs, (i - 1) as nat);
        lemma_volume_consistent(volume_state_at(m, rs, (i - 1) as nat), rs[i - 1]);
    }
}

proof fn lemma_volume_run_finished_stays(m: VolumeModel, rs: Seq<ReplyView>, a: nat, b: nat)
    requires
        a <= b,
        volume_state_at(m, rs, a).stage is Finished,
    ensures
        volume_state_at(m, rs, b).stage is Finished,
    decreases b - a,
{
    if b > a {
        lemma_volume_run_finished_stays(m, rs, a, (b - 1) as nat);
    }
}

proof fn lemma_volume_run_stays_locked(m: VolumeModel, rs: Seq<ReplyView>, i: nat, j: nat, k: nat)
    requires
        i <= j <= k,
        volume_locked(volume_state_at(m, rs, i).stage),
        volume_locked(volume_state_at(m, rs, k).stage),
    ensures
        volume_locked(volume_state_at(m, rs, j).stage),
    decreases j - i,
{
    if j > i {
        lemma_volume_run_stays_locked(m, rs, i, (j - 1) as nat, k);
        let s = volume_state_at(m, rs, (j - 1) as nat);
        let n = volume_state_at(m, rs, j);
        if !volume_locked(n.stage) {
            assert(n.stage is Finished);
            lemma_volume_run_finished_stays(m, rs, j, k);
        }
    }
}

/// Over a whole run of a volume session that was granted its lock and is
/// not a `--get`: every command, print and wait happens while the lock is
/// held; once taken, the lock stays held until the step that ends the run,
/// which releases it; and that end comes right after the 60 ms cool-down,
/// which itself follows the notification.
pub proof fn lemma_volume_run_holds_lock_through_cool_down(
    req: VolumeRequest,
    rs: Seq<ReplyView>,
    k: nat,
)
    requires
        !(req.action is Get),
        k < rs.len(),
        volume_effect_at(volume_at(req, VolumeStage::Start, Seq::empty()), rs, k) is Done,
        volume_locked(volume_state_at(volume_at(req, VolumeStage::Start, Seq::empty()), rs, k).stage),
    ensures
        ({
            let m = volume_at(req, VolumeStage::Start, Seq::empty());
            &&& k >= 2
            &&& volume_effect_at(m, rs, (k - 1) as nat) == EffectView::Sleep(60)
            &&& volume_effect_at(m, rs, (k - 2) as nat) is Attached
            &&& volume_state_at(m, rs, k + 1).stage is Finished
            &&& forall|j: nat|
                j < k && crate::control::is_action(#[trigger] volume_effect_at(m, rs, j))
                    ==> volume_locked(volume_state_at(m, rs, j + 1).stage)
            &&& forall|i: nat, j: nat|
                i <= j <= k && volume_locked(#[trigger] volume_state_at(m, rs, i).stage)
                    ==> volume_locked(#[trigger] volume_state_at(m, rs, j).stage)
        }),
{
    let m = volume_at(req, VolumeStage::Start, Seq::empty());
    lemma_volume_consistent(m, rs[0]);
    lemma_volume_run_consistent(m, rs, k);
    let sk = volume_state_at(m, rs, k);
    lemma_volume_cools_down(sk, rs[k as int]);
    assert(sk.stage is Cooling);
    assert(k >= 1);
    let s1 = volume_state_at(m, rs, (k - 1) as nat);
    assert(sk == volume_next(s1, rs[k - 1]).0);
    assert(s1.stage is Notifying);
    assert(k >= 2);
    let s2 = volume_state_at(m, rs, (k - 2) as nat);
    assert(s1 == volume_next(s2, rs[k - 2]).0);
    assert forall|j: nat|
        j < k && crate::control::is_action(#[trigger] volume_effect_at(m, rs, j))
            implies volume_locked(volume_state_at(m, rs, j + 1).stage) by {
        assert(volume_state_at(m, rs, j + 1) == volume_next(volume_state_at(m, rs, j), rs[j as int]).0);
    }
    assert forall|i: nat, j: nat|
        i <= j <= k && volume_locked(#[trigger] volume_state_at(m, rs, i).stage)
            implies volume_locked(#[trigger] volume_state_at(m, rs, j).stage) by {
        lemma_volume_run_stays_locked(m, rs, i, j, k);
    }
}


/// Lowering requests turn the level down and raising requests turn it up,
/// by five percent or, for the fine variants, by one: the level command is
/// `wpctl set-volume`, its last argument is the step followed by `-` for
/// lowering and `+` for raising, and only raising carries the 150% cap.
/// Toggling flips the mute state and is the only command then issued.
pub proof fn lemma_volume_step_direction(req: VolumeRequest)
    ensures
        ({
            let cmds = volume_commands(req);
            let lowering = req.action is Lower || req.action is LowerFine;
            let raising = req.action is Raise || req.action is RaiseFine;
            let fine = req.action is RaiseFine || req.action is LowerFine;
            &&& (lowering || raising) ==> cmds.len() == 2 && cmds[1][0] == seq!['w', 'p', 'c', 't', 'l']
                && cmds[1][1] == seq!['s', 'e', 't', '-', 'v', 'o', 'l', 'u', 'm', 'e']
                && cmds[1].last().drop_last() == (if fine {
                seq!['0', '.', '0', '1']
            } else {
                seq!['0', '.', '0', '5']
            })
            &&& lowering ==> cmds[1].last().last() == '-' && cmds[1].len() == 4
            &&& raising ==> cmds[1].last().last() == '+' && cmds[1][2] == seq!['-', 'l'] && cmds[1][3]
                == seq!['1', '.', '5']
            &&& req.action is Toggle ==> cmds.len() == 1 && cmds[0][1] == seq![
                's',
                'e',
                't',
                '-',
                'm',
                'u',
                't',
                'e',
            ] && cmds[0][3] == seq!['t', 'o', 'g', 'g', 'l', 'e']
            &&& !(lowering || raising || req.action is Toggle) ==> cmds.len() == 0
        }),
{
    reveal_strlit("wpctl");
    reveal_strlit("set-volume");
    reveal_strlit("set-mute");
    reveal_strlit("toggle");
    reveal_strlit("-l");
    reveal_strlit("1.5");
    reveal_strlit("0.05-");
    reveal_strlit("0.05+");
    reveal_strlit("0.01-");
    reveal_strlit("0.01+");
    let cmds = volume_commands(req);
    if req.action is Lower || req.action is LowerFine || req.action is Raise || req.action is RaiseFine {
        assert(cmds[1].last().drop_last() =~= (if req.action is RaiseFine || req.action is LowerFine {
            seq!['0', '.', '0', '1']
        } else {
            seq!['0', '.', '0', '5']
        }));
        assert(cmds[1][0] =~= seq!['w', 'p', 'c', 't', 'l']);
        assert(cmds[1][1] =~= seq!['s', 'e', 't', '-', 'v', 'o', 'l', 'u', 'm', 'e']);
    }
    if req.action is Raise || req.action is RaiseFine {
        assert(cmds[1][2] =~= seq!['-', 'l']);
        assert(cmds[1][3] =~= seq!['1', '.', '5']);
    }
    if req.action is Toggle {
        assert(cmds[0][1] =~= seq!['s', 'e', 't', '-', 'm', 'u', 't', 'e']);
        assert(cmds[0][3] =~= seq!['t', 'o', 'g', 'g', 'l', 'e']);
    }
}


/// The arguments the volume control understands: the plain ones act on the
/// speakers (`@DEFAULT_AUDIO_SINK@`), the `mic` ones on the microphone
/// (`@DEFAULT_AUDIO_SOURCE@`); `inc` raises, `dec` lowers, `-fine` takes
/// the small step, `toggle` flips the mute state and `get` only reads.
pub proof fn lemma_volume_requests()
    ensures
        volume_request(seq!['-', '-', 't', 'o', 'g', 'g', 'l', 'e']) == (VolumeRequest { action: VolumeAction::Toggle, mic: false }),
        volume_request(seq!['-', '-', 't', 'o', 'g', 'g', 'l', 'e', '-', 'm', 'i', 'c']) == (VolumeRequest { action: VolumeAction::Toggle, mic: true }),
        volume_request(seq!['-', '-', 'i', 'n', 'c']) == (VolumeRequest { action: VolumeAction::Raise, mic: false }),
        volume_request(seq!['-', '-', 'm', 'i', 'c', '-', 'i', 'n', 'c']) == (VolumeRequest { action: VolumeAction::Raise, mic: true }),
        volume_request(seq!['-', '-', 'd', 'e', 'c']) == (VolumeRequest { action: VolumeAction::Lower, mic: false }),
        volume_request(seq!['-', '-', 'm', 'i', 'c', '-', 'd', 'e', 'c']) == (VolumeRequest { action: VolumeAction::Lower, mic: true }),
        volume_request(seq!['-', '-', 'i', 'n', 'c', '-', 'f', 'i', 'n', 'e']) == (VolumeRequest { action: VolumeAction::RaiseFine, mic: false }),
        volume_request(seq!['-', '-', 'm', 'i', 'c', '-', 'i', 'n', 'c', '-', 'f', 'i', 'n', 'e']) == (VolumeRequest { action: VolumeAction::RaiseFine, mic: true }),
        volume_request(seq!['-', '-', 'd', 'e', 'c', '-', 'f', 'i', 'n', 'e']) == (VolumeRequest { action: VolumeAction::LowerFine, mic: false }),
        volume_request(seq!['-', '-', 'm', 'i', 'c', '-', 'd', 'e', 'c', '-', 'f', 'i', 'n', 'e']) == (VolumeRequest { action: VolumeAction::LowerFine, mic: true }),
        volume_request(seq!['-', '-', 'g', 'e', 't']) == (VolumeRequest { action: VolumeAction::Get, mic: false }),
        volume_request(seq!['-', '-', 'g', 'e', 't', '-', 'm', 'i', 'c']) == (VolumeRequest { action: VolumeAction::Get, mic: true }),
        volume_target(true) == seq![
            '@', 'D', 'E', 'F', 'A', 'U', 'L', 'T', '_', 'A', 'U', 'D', 'I', 'O', '_', 'S', 'O', 'U',
            'R', 'C', 'E', '@',
        ],
        volume_target(false) == seq![
            '@', 'D', 'E', 'F', 'A', 'U', 'L', 'T', '_', 'A', 'U', 'D', 'I', 'O', '_', 'S', 'I', 'N',
            'K', '@',
        ],
{
    reveal_strlit("--toggle");
    reveal_strlit("--toggle-mic");
    reveal_strlit("--inc");
    reveal_strlit("--mic-inc");
    reveal_strlit("--dec");
    reveal_strlit("--mic-dec");
    reveal_strlit("--inc-fine");
    reveal_strlit("--mic-inc-fine");
    reveal_strlit("--dec-fine");
    reveal_strlit("--mic-dec-fine");
    reveal_strlit("--get");
    reveal_strlit("--get-mic");
    reveal_strlit("mic");
    reveal_strlit("@DEFAULT_AUDIO_SOURCE@");
    reveal_strlit("@DEFAULT_AUDIO_SINK@");
    let mic = "mic"@;
    assert(mic[0] == 'm');
    let a0 = seq!['-', '-', 't', 'o', 'g', 'g', 'l', 'e'];
    assert(a0 =~= "--toggle"@);
    assert forall|i: int| !occurs_at(a0, mic, i) by {
        if occurs_at(a0, mic, i) {
            assert(a0.subrange(i, i + 3)[0] == a0[i]);
            assert(forall|j: int| 0 <= j < a0.len() ==> a0[j] != 'm');
        }
    }
    let a1 = seq!['-', '-', 't', 'o', 'g', 'g', 'l', 'e', '-', 'm', 'i', 'c'];
    assert(a1 =~= "--toggle-mic"@);
    assert(a1.subrange(9, 12) =~= mic);
    assert(occurs_at(a1, mic, 9));
    let a2 = seq!['-', '-', 'i', 'n', 'c'];
    assert(a2 =~= "--inc"@);
    assert forall|i: int| !occurs_at(a2, mic, i) by {
        if occurs_at(a2, mic, i) {
            assert(a2.subrange(i, i + 3)[0] == a2[i]);
            assert(forall|j: int| 0 <= j < a2.len() ==> a2[j] != 'm');
        }
    }
    let a3 = seq!['-', '-', 'm', 'i', 'c', '-', 'i', 'n', 'c'];
    assert(a3 =~= "--mic-inc"@);
    assert(a3.subrange(2, 5) =~= mic);
    assert(occurs_at(a3, mic, 2));
    let a4 = seq!['-', '-', 'd', 'e', 'c'];
    assert(a4 =~= "--dec"@);
    assert forall|i: int| !occurs_at(a4, mic, i) by {
        if occurs_at(a4, mic, i) {
            assert(a4.subrange(i, i + 3)[0] == a4[i]);
            assert(forall|j: int| 0 <= j < a4.len() ==> a4[j] != 'm');
        }
    }
    let a5 = seq!['-', '-', 'm', 'i', 'c', '-', 'd', 'e', 'c'];
    assert(a5 =~= "--mic-dec"@);
    assert(a5.subrange(2, 5) =~= mic);
    assert(occurs_at(a5, mic, 2));
    let a6 = seq!['-', '-', 'i', 'n', 'c', '-', 'f', 'i', 'n', 'e'];
    assert(a6 =~= "--inc-fine"@);
    assert forall|i: int| !occurs_at(a6, mic, i) by {
        if occurs_at(a6, mic, i) {
            assert(a6.subrange(i, i + 3)[0] == a6[i]);
            assert(forall|j: int| 0 <= j < a6.len() ==> a6[j] != 'm');
        }
    }
    let a7 = seq!['-', '-', 'm', 'i', 'c', '-', 'i', 'n', 'c', '-', 'f', 'i', 'n', 'e'];
    assert(a7 =~= "--mic-inc-fine"@);
    assert(a7.subrange(2, 5) =~= mic);
    assert(occurs_at(a7, mic, 2));
    let a8 = seq!['-', '-', 'd', 'e', 'c', '-', 'f', 'i', 'n', 'e'];
    assert(a8 =~= "--dec-fine"@);
    assert forall|i: int| !occurs_at(a8, mic, i) by {
        if occurs_at(a8, mic, i) {
            assert(a8.subrange(i, i + 3)[0] == a8[i]);
            assert(forall|j: int| 0 <= j < a8.len() ==> a8[j] != 'm');
        }
    }
    let a9 = seq!['-', '-', 'm', 'i', 'c', '-', 'd', 'e', 'c', '-', 'f', 'i', 'n', 'e'];
    assert(a9 =~= "--mic-dec-fine"@);
    assert(a9.subrange(2, 5) =~= mic);
    assert(occurs_at(a9, mic, 2));
    let a10 = seq!['-', '-', 'g', 'e', 't'];
    assert(a10 =~= "--get"@);
    assert forall|i: int| !occurs_at(a10, mic, i) by {
        if occurs_at(a10, mic, i) {
            assert(a10.subrange(i, i + 3)[0] == a10[i]);
            assert(forall|j: int| 0 <= j < a10.len() ==> a10[j] != 'm');
        }
    }
    let a11 = seq!['-', '-', 'g', 'e', 't', '-', 'm', 'i', 'c'];
    assert(a11 =~= "--get-mic"@);
    assert(a11.subrange(6, 9) =~= mic);
    assert(occurs_at(a11, mic, 6));
    assert(volume_target(true) =~= seq![
        '@', 'D', 'E', 'F', 'A', 'U', 'L', 'T', '_', 'A', 'U', 'D', 'I', 'O', '_', 'S', 'O', 'U',
        'R', 'C', 'E', '@',
    ]);
    assert(volume_target(false) =~= seq![
        '@', 'D', 'E', 'F', 'A', 'U', 'L', 'T', '_', 'A', 'U', 'D', 'I', 'O', '_', 'S', 'I', 'N',
        'K', '@',
    ]);
}

} // verus!
