//! The brightness control: parses the requested adjustment, reads the
//! current level from `brightnessctl -m`, and drives one locked session
//! (adjust, announce, cool down).
use vstd::prelude::*;
use crate::control::{Effect, EffectView, Reply, ReplyView, output_of, reply_text, COOL_DOWN_MS};
use crate::text::{
    chars_of, find, is_word, join, lemma_find_at, line_at, lines, push_str, push_string, remove_all,
    remove_char, split, split_nth, string_of,
};

verus! {

/// The adjustment a brightness invocation asks for.
#[derive(Debug, Clone, Copy, PartialEq, Eq)]
pub enum BrightnessRequest {
    /// `--inc`: five percent up.
    Raise,
    /// `--dec`: five percent down, never below the minimum of 1.
    Lower,
    /// `--inc-fine`: one percent up.
    RaiseFine,
    /// `--dec-fine`: one percent down, never below the minimum of 1.
    LowerFine,
    /// `--get`: print the current level.
    Get,
    /// Anything else: do nothing but hold the lock for the cool-down.
    Other,
}

pub open spec fn brightness_request(arg: Seq<char>) -> BrightnessRequest {
    if arg == "--inc"@ {
        BrightnessRequest::Raise
    } else if arg == "--dec"@ {
        BrightnessRequest::Lower
    } else if arg == "--inc-fine"@ {
        BrightnessRequest::RaiseFine
    } else if arg == "--dec-fine"@ {
        BrightnessRequest::LowerFine
    } else if arg == "--get"@ {
        BrightnessRequest::Get
    } else {
        BrightnessRequest::Other
    }
}

pub fn parse_brightness_request(arg: &str) -> (r: BrightnessRequest)
    ensures
        r == brightness_request(arg@),
{
    let a = chars_of(arg);
    if is_word(&a, "--inc") {
        BrightnessRequest::Raise
    } else if is_word(&a, "--dec") {
        BrightnessRequest::Lower
    } else if is_word(&a, "--inc-fine") {
        BrightnessRequest::RaiseFine
    } else if is_word(&a, "--dec-fine") {
        BrightnessRequest::LowerFine
    } else if is_word(&a, "--get") {
        BrightnessRequest::Get
    } else {
        BrightnessRequest::Other
    }
}

/// The `brightnessctl` command that performs an adjustment (empty for
/// requests that adjust nothing).
pub open spec fn adjust_command(req: BrightnessRequest) -> Seq<Seq<char>> {
    match req {
        BrightnessRequest::Raise => seq!["brightnessctl"@, "set"@, "5%+"@],
        BrightnessRequest::Lower => seq!["brightnessctl"@, "set"@, "5%-"@, "--min-value=1"@],
        BrightnessRequest::RaiseFine => seq!["brightnessctl"@, "set"@, "1%+"@],
        BrightnessRequest::LowerFine => seq!["brightnessctl"@, "set"@, "1%-"@, "--min-value=1"@],
        _ => Seq::empty(),
    }
}

/// The machine-readable status query.
pub open spec fn read_command() -> Seq<Seq<char>> {
    seq!["brightnessctl"@, "-m"@]
}

/// The level shown for a `brightnessctl -m` output: `N/A` when there is
/// no output, else the fourth comma-separated field of the first line with
/// its `%` signs removed, or `0` when that line has fewer fields.
pub open spec fn brightness_reading(out: Seq<char>) -> Seq<char> {
    if out.len() == 0 {
        "N/A"@
    } else {
        let fields = split(lines(out)[0], ',');
        if fields.len() > 3 {
            remove_char(fields[3], '%')
        } else {
            "0"@
        }
    }
}

/// The `notify-send` command announcing brightness level `level`.
pub open spec fn brightness_notification_command(level: Seq<char>) -> Seq<Seq<char>> {
    seq![
        "notify-send"@,
        "-a"@,
        "System"@,
        "-t"@,
        "1000"@,
        "-r"@,
        "999"@,
        "--icon"@,
        "display-brightness-high-symbolic"@,
        "-h"@,
        "int:value:"@ + level,
        "-h"@,
        "string:x-canonical-private-synchronous:brightness_notif"@,
        "-u"@,
        "low"@,
        "Brightness"@,
        level + "%"@,
    ]
}

/// The level to show, from the trimmed output of `brightnessctl -m`.
pub fn get_brightness(out: &str) -> (level: String)
    ensures
        level@ == brightness_reading(out@),
{
    let v = chars_of(out);
    if v.len() == 0 {
        return String::from_str("N/A");
    }
    let (first, _next) = line_at(&v, 0);
    assert(v@.skip(0) =~= v@);
    match split_nth(&first, ',', 3) {
        Some(field) => string_of(&remove_all(&field, '%')),
        None => String::from_str("0"),
    }
}

/// The notification announcing brightness level `level`.
pub fn brightness_notification(level: &str) -> (cmd: Vec<String>)
    ensures
        cmd.deep_view() == brightness_notification_command(level@),
{
    let mut cmd: Vec<String> = Vec::new();
    push_str(&mut cmd, "notify-send");
    push_str(&mut cmd, "-a");
    push_str(&mut cmd, "System");
    push_str(&mut cmd, "-t");
    push_str(&mut cmd, "1000");
    push_str(&mut cmd, "-r");
    push_str(&mut cmd, "999");
    push_str(&mut cmd, "--icon");
    push_str(&mut cmd, "display-brightness-high-symbolic");
    push_str(&mut cmd, "-h");
    push_string(&mut cmd, join("int:value:", level));
    push_str(&mut cmd, "-h");
    push_str(&mut cmd, "string:x-canonical-private-synchronous:brightness_notif");
    push_str(&mut cmd, "-u");
    push_str(&mut cmd, "low");
    push_str(&mut cmd, "Brightness");
    push_string(&mut cmd, join(level, "%"));
    assert(cmd.deep_view() =~= brightness_notification_command(level@));
    cmd
}


/// The `brightnessctl` command for an adjustment request.
pub fn adjust_args(req: &BrightnessRequest) -> (cmd: Vec<String>)
    ensures
        cmd.deep_view() == adjust_command(*req),
{
    let mut cmd: Vec<String> = Vec::new();
    match req {
        BrightnessRequest::Raise => {
            push_str(&mut cmd, "brightnessctl");
            push_str(&mut cmd, "set");
            push_str(&mut cmd, "5%+");
        },
        BrightnessRequest::Lower => {
            push_str(&mut cmd, "brightnessctl");
            push_str(&mut cmd, "set");
            push_str(&mut cmd, "5%-");
            push_str(&mut cmd, "--min-value=1");
        },
        BrightnessRequest::RaiseFine => {
            push_str(&mut cmd, "brightnessctl");
            push_str(&mut cmd, "set");
            push_str(&mut cmd, "1%+");
        },
        BrightnessRequest::LowerFine => {
            push_str(&mut cmd, "brightnessctl");
            push_str(&mut cmd, "set");
            push_str(&mut cmd, "1%-");
            push_str(&mut cmd, "--min-value=1");
        },
        _ => {},
    }
    assert(cmd.deep_view() =~= adjust_command(*req));
    cmd
}

fn read_args() -> (cmd: Vec<String>)
    ensures
        cmd.deep_view() == read_command(),
{
    let mut cmd: Vec<String> = Vec::new();
    push_str(&mut cmd, "brightnessctl");
    push_str(&mut cmd, "-m");
    assert(cmd.deep_view() =~= read_command());
    cmd
}

/// Where a brightness session stands.
#[derive(Debug, Clone, Copy, PartialEq, Eq)]
pub enum BrightnessStage {
    /// Nothing done yet.
    Start,
    /// The lock was asked for.
    AwaitLock,
    /// The adjustment was issued.
    Adjusting,
    /// The level was asked for; `print` when it is to be printed rather
    /// than announced.
    Reading { print: bool },
    /// The level was printed or announced.
    Reporting,
    /// Waiting out the cool-down.
    Cooling,
    /// Over.
    Finished,
}

/// One invocation of the brightness control.
pub struct BrightnessSession {
    pub request: BrightnessRequest,
    pub stage: BrightnessStage,
}

pub open spec fn brightness_at(req: BrightnessRequest, stage: BrightnessStage) -> BrightnessSession {
    BrightnessSession { request: req, stage }
}

/// The transition of a brightness session on a reply: the next session and
/// the effect to perform.
pub open spec fn brightness_next(s: BrightnessSession, r: ReplyView) -> (BrightnessSession, EffectView) {
    let req = s.request;
    match s.stage {
        BrightnessStage::Start => (
            brightness_at(req, BrightnessStage::AwaitLock),
            EffectView::Lock("brightness"@),
        ),
        BrightnessStage::AwaitLock => {
            if r is Locked {
                match req {
                    BrightnessRequest::Get => (
                        brightness_at(req, BrightnessStage::Reading { print: true }),
                        EffectView::Run(read_command()),
                    ),
                    BrightnessRequest::Other => (
                        brightness_at(req, BrightnessStage::Cooling),
                        EffectView::Sleep(60),
                    ),
                    _ => (
                        brightness_at(req, BrightnessStage::Adjusting),
                        EffectView::Quiet(adjust_command(req)),
                    ),
                }
            } else {
                (brightness_at(req, BrightnessStage::Finished), EffectView::Done)
            }
        },
        BrightnessStage::Adjusting => (
            brightness_at(req, BrightnessStage::Reading { print: false }),
            EffectView::Run(read_command()),
        ),
        BrightnessStage::Reading { print } => {
            let level = brightness_reading(output_of(r));
            if print {
                (brightness_at(req, BrightnessStage::Reporting), EffectView::Print(level))
            } else {
                (
                    brightness_at(req, BrightnessStage::Reporting),
                    EffectView::Quiet(brightness_notification_command(level)),
                )
            }
        },
        BrightnessStage::Reporting => (
            brightness_at(req, BrightnessStage::Cooling),
            EffectView::Sleep(60),
        ),
        BrightnessStage::Cooling => (brightness_at(req, BrightnessStage::Finished), EffectView::Done),
        BrightnessStage::Finished => (brightness_at(req, BrightnessStage::Finished), EffectView::Done),
    }
}

impl BrightnessSession {
    /// A fresh session for the command-line argument `arg`.
    pub fn new(arg: &str) -> (s: BrightnessSession)
        ensures
            s == brightness_at(brightness_request(arg@), BrightnessStage::Start),
    {
        BrightnessSession { request: parse_brightness_request(arg), stage: BrightnessStage::Start }
    }

    /// Advances the session on `reply` and returns what to do next.
    pub fn step(&mut self, reply: Reply) -> (e: Effect)
        ensures
            (*final(self), e@) == brightness_next(*old(self), reply@),
    {
        let req = match self.request {
            BrightnessRequest::Raise => BrightnessRequest::Raise,
            BrightnessRequest::Lower => BrightnessRequest::Lower,
            BrightnessRequest::RaiseFine => BrightnessRequest::RaiseFine,
            BrightnessRequest::LowerFine => BrightnessRequest::LowerFine,
            BrightnessRequest::Get => BrightnessRequest::Get,
            BrightnessRequest::Other => BrightnessRequest::Other,
        };
        match self.stage {
            BrightnessStage::Start => {
                self.stage = BrightnessStage::AwaitLock;
                Effect::Lock(String::from_str("brightness"))
            },
            BrightnessStage::AwaitLock => {
                if let Reply::Locked = reply {
                    match req {
                        BrightnessRequest::Get => {
                            self.stage = BrightnessStage::Reading { print: true };
                            Effect::Run(read_args())
                        },
                        BrightnessRequest::Other => {
                            self.stage = BrightnessStage::Cooling;
                            Effect::Sleep(COOL_DOWN_MS)
                        },
                        _ => {
                            self.stage = BrightnessStage::Adjusting;
                            Effect::Quiet(adjust_args(&req))
                        },
                    }
                } else {
                    self.stage = BrightnessStage::Finished;
                    Effect::Done
                }
            },
            BrightnessStage::Adjusting => {
                self.stage = BrightnessStage::Reading { print: false };
                Effect::Run(read_args())
            },
            BrightnessStage::Reading { print } => {
                let out = string_of(&reply_text(&reply));
                let level = get_brightness(out.as_str());
                self.stage = BrightnessStage::Reporting;
                if print {
                    Effect::Print(level)
                } else {
                    Effect::Quiet(brightness_notification(level.as_str()))
                }
            },
            BrightnessStage::Reporting => {
                self.stage = BrightnessStage::Cooling;
                Effect::Sleep(COOL_DOWN_MS)
            },
            BrightnessStage::Cooling => {
                self.stage = BrightnessStage::Finished;
                Effect::Done
            },
            BrightnessStage::Finished => Effect::Done,
        }
    }
}


/// Stages in which the session holds the single-instance lock.
pub open spec fn brightness_locked(stage: BrightnessStage) -> bool {
    stage is Adjusting || stage is Reading || stage is Reporting || stage is Cooling
}

/// Steps left before the session is over, at most.
pub open spec fn brightness_rank(stage: BrightnessStage) -> nat {
    match stage {
        BrightnessStage::Start => 6,
        BrightnessStage::AwaitLock => 5,
        BrightnessStage::Adjusting => 4,
        BrightnessStage::Reading { .. } => 3,
        BrightnessStage::Reporting => 2,
        BrightnessStage::Cooling => 1,
        BrightnessStage::Finished => 0,
    }
}

/// A brightness session asks for its lock before it does anything else.
pub proof fn lemma_brightness_locks_first(req: BrightnessRequest, r: ReplyView)
    ensures
        brightness_next(brightness_at(req, BrightnessStage::Start), r).1 == EffectView::Lock(
            "brightness"@,
        ),
{
}

/// When another instance holds the lock, the session ends at once and
/// changes nothing.
pub proof fn lemma_brightness_busy_ends(req: BrightnessRequest, r: ReplyView)
    requires
        !(r is Locked),
    ensures
        brightness_next(brightness_at(req, BrightnessStage::AwaitLock), r) == (
            brightness_at(req, BrightnessStage::Finished),
            EffectView::Done,
        ),
{
}

/// Commands, prints and waits happen only while the lock is held, and the
/// lock is held only after the driver granted it.
pub proof fn lemma_brightness_acts_under_lock(s: BrightnessSession, r: ReplyView)
    ensures
        ({
            let (n, e) = brightness_next(s, r);
            &&& crate::control::is_action(e) ==> brightness_locked(s.stage) || (s.stage is AwaitLock
                && r is Locked)
            &&& brightness_locked(n.stage) ==> brightness_locked(s.stage) || (s.stage is AwaitLock
                && r is Locked)
        }),
{
}

/// A session that took the lock ends only after the cool-down wait, and
/// that wait is `COOL_DOWN_MS` long.
pub proof fn lemma_brightness_cools_down(s: BrightnessSession, r: ReplyView)
    ensures
        ({
            let (n, e) = brightness_next(s, r);
            &&& (e is Done && brightness_locked(s.stage)) ==> s.stage is Cooling
            &&& (n.stage is Cooling && !(s.stage is Cooling)) ==> e == EffectView::Sleep(60)
        }),
{
}

/// Every step before the end brings the session closer to it, and an
/// ended session stays ended.
pub proof fn lemma_brightness_progress(s: BrightnessSession, r: ReplyView)
    ensures
        ({
            let (n, e) = brightness_next(s, r);
            &&& !(s.stage is Finished) ==> brightness_rank(n.stage) < brightness_rank(s.stage)
            &&& s.stage is Finished ==> n == s && e is Done
        }),
{
}


/// Lowering requests turn the backlight down and raising requests turn it
/// up, by five percent or, for the fine variants, by one: the command is
/// `brightnessctl set <n>%<sign>` with `-` for lowering and `+` for
/// raising, and lowering keeps a minimum of 1.  Other requests adjust
/// nothing.
pub proof fn lemma_brightness_step_direction(req: BrightnessRequest)
    ensures
        ({
            let cmd = adjust_command(req);
            let lowering = req is Lower || req is LowerFine;
            let raising = req is Raise || req is RaiseFine;
            let fine = req is RaiseFine || req is LowerFine;
            &&& (lowering || raising) ==> cmd[0] == seq![
                'b',
                'r',
                'i',
                'g',
                'h',
                't',
                'n',
                'e',
                's',
                's',
                'c',
                't',
                'l',
            ] && cmd[1] == seq!['s', 'e', 't'] && cmd[2].len() == 3 && cmd[2][0] == (if fine {
                '1'
            } else {
                '5'
            }) && cmd[2][1] == '%'
            &&& lowering ==> cmd.len() == 4 && cmd[2][2] == '-' && cmd[3] == seq![
                '-',
                '-',
                'm',
                'i',
                'n',
                '-',
                'v',
                'a',
                'l',
                'u',
                'e',
                '=',
                '1',
            ]
            &&& raising ==> cmd.len() == 3 && cmd[2][2] == '+'
            &&& !(lowering || raising) ==> cmd.len() == 0
        }),
{
    reveal_strlit("brightnessctl");
    reveal_strlit("set");
    reveal_strlit("5%+");
    reveal_strlit("5%-");
    reveal_strlit("1%+");
    reveal_strlit("1%-");
    reveal_strlit("--min-value=1");
    let cmd = adjust_command(req);
    if req is Lower || req is LowerFine || req is Raise || req is RaiseFine {
        assert(cmd[0] =~= seq!['b', 'r', 'i', 'g', 'h', 't', 'n', 'e', 's', 's', 'c', 't', 'l']);
        assert(cmd[1] =~= seq!['s', 'e', 't']);
    }
    if req is Lower || req is LowerFine {
        assert(cmd[3] =~= seq!['-', '-', 'm', 'i', 'n', '-', 'v', 'a', 'l', 'u', 'e', '=', '1']);
    }
}

/// The arguments the brightness control understands.
pub proof fn lemma_brightness_requests()
    ensures
        brightness_request(seq!['-', '-', 'i', 'n', 'c']) is Raise,
        brightness_request(seq!['-', '-', 'd', 'e', 'c']) is Lower,
        brightness_request(seq!['-', '-', 'i', 'n', 'c', '-', 'f', 'i', 'n', 'e']) is RaiseFine,
        brightness_request(seq!['-', '-', 'd', 'e', 'c', '-', 'f', 'i', 'n', 'e']) is LowerFine,
        brightness_request(seq!['-', '-', 'g', 'e', 't']) is Get,
{
    reveal_strlit("--inc");
    reveal_strlit("--dec");
    reveal_strlit("--inc-fine");
    reveal_strlit("--dec-fine");
    reveal_strlit("--get");
    assert(seq!['-', '-', 'i', 'n', 'c'] =~= "--inc"@);
    assert(seq!['-', '-', 'd', 'e', 'c'] =~= "--dec"@);
    assert(seq!['-', '-', 'i', 'n', 'c', '-', 'f', 'i', 'n', 'e'] =~= "--inc-fine"@);
    assert(seq!['-', '-', 'd', 'e', 'c', '-', 'f', 'i', 'n', 'e'] =~= "--dec-fine"@);
    assert(seq!['-', '-', 'g', 'e', 't'] =~= "--get"@);
}

/// The brightness announcement replaces the previous one (id 999) and
/// shows the level read both as the progress value and as `N%` under the
/// title `Brightness`.
pub proof fn lemma_brightness_announcement(level: Seq<char>)
    ensures
        ({
            let cmd = brightness_notification_command(level);
            &&& cmd.len() == 17
            &&& cmd[0] == "notify-send"@
            &&& cmd[5] == "-r"@ && cmd[6] == "999"@
            &&& cmd[10] == "int:value:"@ + level
            &&& cmd[15] == "Brightness"@
            &&& cmd[16] == level + "%"@
        }),
{
}

/// `s` has no character `c`.
pub open spec fn lacks(s: Seq<char>, c: char) -> bool {
    forall|j: int| 0 <= j < s.len() ==> s[j] != c
}

proof fn lemma_split_first_piece(a: Seq<char>, rest: Seq<char>)
    requires
        lacks(a, ','),
    ensures
        split(a + seq![','] + rest, ',') == seq![a] + split(rest, ','),
{
    let s = a + seq![','] + rest;
    assert(s[a.len() as int] == ',');
    assert forall|j: int| 0 <= j < a.len() implies s[j] != ',' by {
        assert(s[j] == a[j]);
    }
    lemma_find_at(s, ',', a.len() as int);
    assert(s.take(a.len() as int) =~= a);
    assert(s.skip(a.len() + 1int) =~= rest);
}

proof fn lemma_remove_absent(s: Seq<char>, c: char)
    requires
        lacks(s, c),
    ensures
        remove_char(s, c) == s,
    decreases s.len(),
{
    if s.len() > 0 {
        assert(s.last() == s[s.len() - 1]);
        lemma_remove_absent(s.drop_last(), c);
        assert(s.drop_last().push(s.last()) =~= s);
    }
}

/// The level shown is the percentage field of `brightnessctl -m`: on its
/// line `device,class,current,percent%,max` the fourth field, with its `%`
/// sign dropped.
pub proof fn lemma_brightness_reading_field(
    device: Seq<char>,
    class: Seq<char>,
    current: Seq<char>,
    percent: Seq<char>,
    max: Seq<char>,
)
    requires
        lacks(device, ',') && lacks(class, ',') && lacks(current, ',') && lacks(percent, ','),
        lacks(max, ','),
        lacks(device, '\n') && lacks(class, '\n') && lacks(current, '\n') && lacks(percent, '\n'),
        lacks(max, '\n'),
        lacks(percent, '%'),
    ensures
        brightness_reading(
            device + seq![','] + class + seq![','] + current + seq![','] + percent + seq!['%', ',']
                + max,
        ) == percent,
{
    let p = percent + seq!['%'];
    let out = device + seq![','] + class + seq![','] + current + seq![','] + percent + seq!['%', ',']
        + max;
    let r3 = p + seq![','] + max;
    let r2 = current + seq![','] + r3;
    let r1 = class + seq![','] + r2;
    assert(out =~= device + seq![','] + r1);
    assert(lacks(p, ',')) by {
        assert forall|j: int| 0 <= j < p.len() implies p[j] != ',' by {
            if j < percent.len() {
                assert(p[j] == percent[j]);
            }
        }
    }
    lemma_split_first_piece(device, r1);
    lemma_split_first_piece(class, r2);
    lemma_split_first_piece(current, r3);
    lemma_split_first_piece(p, max);
    lemma_find_at(max, ',', max.len() as int);
    let fields = split(out, ',');
    assert(fields =~= seq![device, class, current, p, max]);
    assert forall|j: int| 0 <= j < out.len() implies out[j] != '\n' by {
        if j < device.len() {
            assert(out[j] == device[j]);
        } else if j < device.len() + 1 + class.len() + 1 + current.len() + 1 {
            assert(out[j] == (device + seq![','] + class + seq![','] + current + seq![','])[j]);
            if j < device.len() + 1 {
                assert(j == device.len() || out[j] == device[j]);
            } else if j < device.len() + 1 + class.len() + 1 {
                assert(out[j] == r1[j - device.len() - 1]);
            } else {
                assert(out[j] == r2[j - device.len() - 1 - class.len() - 1]);
            }
        } else {
            assert(out[j] == r3[j - device.len() - 1 - class.len() - 1 - current.len() - 1]);
            let k = j - device.len() - 1 - class.len() - 1 - current.len() - 1;
            if k < percent.len() {
                assert(r3[k] == percent[k]);
            } else if k >= percent.len() + 2 {
                assert(r3[k] == max[k - percent.len() - 2]);
            }
        }
    }
    lemma_find_at(out, '\n', out.len() as int);
    assert(lines(out) =~= seq![out]);
    lemma_remove_absent(percent, '%');
    assert(p.drop_last() =~= percent);
    assert(p.last() == '%');
    assert(remove_char(p, '%') == remove_char(percent, '%'));
}

} // verus!
