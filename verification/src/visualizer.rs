//! The audio-visualiser bar formatter: raw 8-bit bar heights become a line
//! of block glyphs, and the single-instance guard records and reads back
//! the running process id.
use vstd::prelude::*;
use crate::number::{
    decimal, decimal_chars, is_digit, lemma_decimal, parse_i32, parse_i32_chars, signed_decimal,
    signed_decimal_chars,
};
use crate::text::{chars_of, lemma_find_at, line_at, lines, push_str, push_string, string_of, strip_cr};

verus! {

/// Bar heights per glyph step: `255 / 7`.
pub const STEP: u8 = 36;

/// The glyph index for a bar height: `min(value / STEP, 7)`.
pub open spec fn bar_level(value: u8) -> nat {
    let q = (value / 36) as nat;
    if q < 7 {
        q
    } else {
        7
    }
}

/// The eight block glyphs `▁▂▃▄▅▆▇█`, lowest first.
pub open spec fn bar_glyph(value: u8) -> char {
    ((0x2581 + bar_level(value)) as u32) as char
}

/// One line of bars: one glyph per height, in order.
pub open spec fn bar_line(frame: Seq<u8>) -> Seq<char> {
    Seq::new(frame.len(), |i: int| bar_glyph(frame[i]))
}

/// The glyph for one bar height.
pub fn glyph_for(value: u8) -> (c: char)
    ensures
        c == bar_glyph(value),
{
    let glyphs: [char; 8] = ['▁', '▂', '▃', '▄', '▅', '▆', '▇', '█'];
    let q = value / STEP;
    let index: usize = if q < 7 {
        q as usize
    } else {
        7
    };
    assert(glyphs@ == seq!['▁', '▂', '▃', '▄', '▅', '▆', '▇', '█']);
    glyphs[index]
}

/// Renders one frame of bar heights as a line of block glyphs.
pub fn format_bars(frame: &[u8]) -> (line: String)
    ensures
        line@ == bar_line(frame@),
{
    let mut glyphs: Vec<char> = Vec::new();
    let mut i: usize = 0;
    while i < frame.len()
        invariant
            i <= frame.len(),
            glyphs@ == bar_line(frame@.take(i as int)),
        decreases frame.len() - i,
    {
        glyphs.push(glyph_for(frame[i]));
        i = i + 1;
        assert(glyphs@ =~= bar_line(frame@.take(i as int)));
    }
    assert(frame@.take(frame.len() as int) =~= frame@);
    string_of(&glyphs)
}

/// What the guard writes into its lock file: the pid and a line break.
pub open spec fn pid_record_text(pid: u32) -> Seq<char> {
    decimal(pid as nat).push('\n')
}

/// What the guard reads back from a lock file: the first line as an `i32`.
pub open spec fn pid_from_text(contents: Seq<char>) -> Option<i32> {
    if lines(contents).len() == 0 {
        None
    } else {
        parse_i32(lines(contents)[0])
    }
}

/// The lock-file contents that announce process `pid`.
pub fn pid_record(pid: u32) -> (s: String)
    ensures
        s@ == pid_record_text(pid),
{
    let mut v = decimal_chars(pid as u64);
    v.push('\n');
    string_of(&v)
}

/// The process id recorded in a lock file, if its first line is one.
pub fn read_pid(contents: &str) -> (pid: Option<i32>)
    ensures
        pid == pid_from_text(contents@),
{
    let v = chars_of(contents);
    if v.len() == 0 {
        return None;
    }
    let (first, _next) = line_at(&v, 0);
    assert(v@.skip(0) =~= v@);
    parse_i32_chars(&first)
}

/// Kill the previous instance: `kill -9 <pid>`.
pub fn kill_command(pid: i32) -> (cmd: Vec<String>)
    ensures
        cmd.deep_view() == kill_command_text(pid),
{
    let mut cmd: Vec<String> = Vec::new();
    push_str(&mut cmd, "kill");
    push_str(&mut cmd, "-9");
    push_string(&mut cmd, string_of(&signed_decimal_chars(pid as i64)));
    assert(cmd.deep_view() =~= kill_command_text(pid));
    cmd
}

/// `kill -9 <pid>`.
pub open spec fn kill_command_text(pid: i32) -> Seq<Seq<char>> {
    seq!["kill"@, "-9"@, signed_decimal(pid as int)]
}

/// A process id that fits in an `i32`, written to the lock file by one
/// instance, is read back unchanged by the next one.
pub proof fn lemma_pid_round_trip(pid: u32)
    requires
        pid <= i32::MAX,
    ensures
        pid_from_text(pid_record_text(pid)) == Some(pid as i32),
{
    let d = decimal(pid as nat);
    let s = pid_record_text(pid);
    lemma_decimal(pid as nat);
    assert forall|j: int| 0 <= j < d.len() implies s[j] != '\n' by {
        assert(s[j] == d[j]);
        assert(is_digit(d[j]));
    }
    lemma_find_at(s, '\n', d.len() as int);
    assert(s.take(d.len() as int) =~= d);
    assert(is_digit(d[d.len() - 1]));
    assert(strip_cr(d) == d);
    assert(lines(s)[0] == d);
    crate::number::lemma_parse_signed_decimal(pid as i32);
}

/// Taller bars never get a lower glyph.
pub proof fn lemma_bar_level_monotone(a: u8, b: u8)
    requires
        a <= b,
    ensures
        bar_level(a) <= bar_level(b),
{
    assert(a / 36 <= b / 36) by (nonlinear_arith)
        requires
            a <= b,
    ;
}


/// The bars use the eight block glyphs from `▁` to `█`: silence is the
/// lowest block, full level the highest; a bar gets the lowest block
/// exactly below one step of 36 and the full block from seven steps on,
/// and each further step of 36 raises it by one block.
pub proof fn lemma_bar_glyph_scale(value: u8)
    ensures
        '▁' <= bar_glyph(value) <= '█',
        bar_glyph(0) == '▁',
        bar_glyph(255) == '█',
        bar_glyph(value) == '▁' <==> value < 36,
        bar_glyph(value) == '█' <==> value >= 252,
        value <= 215 ==> bar_glyph((value + 36) as u8) as u32 == bar_glyph(value) as u32 + 1,
{
    assert('▁' as u32 == 0x2581);
    assert('█' as u32 == 0x2588);
    assert(0u8 / 36 == 0);
    assert(255u8 / 36 == 7);
    if value <= 215 {
        assert(((value + 36) as u8) / 36 == value / 36 + 1) by (nonlinear_arith)
            requires
                value <= 215,
        ;
    }
    assert(value < 36 <==> value / 36 == 0) by (nonlinear_arith);
    assert(value >= 252 <==> value / 36 >= 7) by (nonlinear_arith);
}


/// Something the single-instance guard needs done outside the library.
#[derive(Debug, PartialEq, Eq)]
pub enum GuardEffect {
    /// Try to take the lock on the lock file without waiting; answer
    /// `Locked` or `Busy`.
    TryLock,
    /// Print the line on standard output.
    Print(String),
    /// Read the lock file; answer `Text` (what could be read), or
    /// `Unreadable` when it cannot be opened.
    ReadPidFile,
    /// Run the command, ignoring its outcome; answer `Ack`.
    Kill(Vec<String>),
    /// Wait this many milliseconds.
    Sleep(u64),
    /// Wait for the lock; answer `Locked`, or `Unreadable` on failure.
    WaitLock,
    /// Replace the lock file's contents with this text; answer `Ack`, or
    /// `Unreadable` on failure.
    WritePid(String),
    /// Stop with the error the last answer reported.
    Abort,
    /// The lock is held and announces this process.
    Done,
}

/// What the driver reports back after an effect.
#[derive(Debug, PartialEq, Eq)]
pub enum GuardReply {
    Locked,
    Busy,
    Text(String),
    Unreadable,
    Ack,
}

/// The mathematical value of a `GuardEffect`.
pub enum GuardEffectView {
    TryLock,
    Print(Seq<char>),
    ReadPidFile,
    Kill(Seq<Seq<char>>),
    Sleep(u64),
    WaitLock,
    WritePid(Seq<char>),
    Abort,
    Done,
}

impl View for GuardEffect {
    type V = GuardEffectView;

    open spec fn view(&self) -> GuardEffectView {
        match self {
            GuardEffect::TryLock => GuardEffectView::TryLock,
            GuardEffect::Print(line) => GuardEffectView::Print(line@),
            GuardEffect::ReadPidFile => GuardEffectView::ReadPidFile,
            GuardEffect::Kill(cmd) => GuardEffectView::Kill(cmd.deep_view()),
            GuardEffect::Sleep(ms) => GuardEffectView::Sleep(*ms),
            GuardEffect::WaitLock => GuardEffectView::WaitLock,
            GuardEffect::WritePid(text) => GuardEffectView::WritePid(text@),
            GuardEffect::Abort => GuardEffectView::Abort,
            GuardEffect::Done => GuardEffectView::Done,
        }
    }
}

/// Where the guard stands.
#[derive(Debug, Clone, Copy, PartialEq, Eq)]
pub enum GuardStage {
    Start,
    /// The lock was tried.
    Trying,
    /// The takeover was announced.
    Announcing,
    /// The lock file was asked for.
    Reading,
    /// The previous instance is being killed.
    Killing,
    /// Giving it time to die.
    Pausing,
    /// Waiting for the lock.
    Waiting,
    /// The process id is being written.
    Writing,
    Finished,
}

/// The single-instance guard of process `pid`: a newer instance takes over
/// from a running one.
#[derive(Debug, Clone, Copy, PartialEq, Eq)]
pub struct InstanceGuard {
    pub pid: u32,
    pub stage: GuardStage,
}

/// Milliseconds given to a killed instance to release the lock.
pub const KILL_WAIT_MS: u64 = 100;

/// The line announcing the takeover of a running instance.
pub open spec fn takeover_message() -> Seq<char> {
    "他のインスタンスが動作中。古いプロセスを終了させます..."@
}

pub open spec fn guard_at(pid: u32, stage: GuardStage) -> InstanceGuard {
    InstanceGuard { pid, stage }
}

/// The transition of the guard on a reply.
pub open spec fn guard_next(g: InstanceGuard, r: GuardReply) -> (InstanceGuard, GuardEffectView) {
    let pid = g.pid;
    match g.stage {
        GuardStage::Start => (guard_at(pid, GuardStage::Trying), GuardEffectView::TryLock),
        GuardStage::Trying => if r is Locked {
            (guard_at(pid, GuardStage::Writing), GuardEffectView::WritePid(pid_record_text(pid)))
        } else {
            (guard_at(pid, GuardStage::Announcing), GuardEffectView::Print(takeover_message()))
        },
        GuardStage::Announcing => (guard_at(pid, GuardStage::Reading), GuardEffectView::ReadPidFile),
        GuardStage::Reading => match r {
            GuardReply::Text(t) => match pid_from_text(t@) {
                Some(old) => (
                    guard_at(pid, GuardStage::Killing),
                    GuardEffectView::Kill(kill_command_text(old)),
                ),
                None => (guard_at(pid, GuardStage::Waiting), GuardEffectView::WaitLock),
            },
            _ => (guard_at(pid, GuardStage::Finished), GuardEffectView::Abort),
        },
        GuardStage::Killing => (guard_at(pid, GuardStage::Pausing), GuardEffectView::Sleep(100)),
        GuardStage::Pausing => (guard_at(pid, GuardStage::Waiting), GuardEffectView::WaitLock),
        GuardStage::Waiting => if r is Locked {
            (guard_at(pid, GuardStage::Writing), GuardEffectView::WritePid(pid_record_text(pid)))
        } else {
            (guard_at(pid, GuardStage::Finished), GuardEffectView::Abort)
        },
        GuardStage::Writing => if r is Ack {
            (guard_at(pid, GuardStage::Finished), GuardEffectView::Done)
        } else {
            (guard_at(pid, GuardStage::Finished), GuardEffectView::Abort)
        },
        GuardStage::Finished => (guard_at(pid, GuardStage::Finished), GuardEffectView::Done),
    }
}

impl InstanceGuard {
    /// The guard of process `pid`, before anything is done.
    pub fn new(pid: u32) -> (g: InstanceGuard)
        ensures
            g == guard_at(pid, GuardStage::Start),
    {
        InstanceGuard { pid, stage: GuardStage::Start }
    }

    /// Advances the guard on `reply` and returns what to do next.
    pub fn step(&mut self, reply: GuardReply) -> (e: GuardEffect)
        ensures
            (*final(self), e@) == guard_next(*old(self), reply),
    {
        match self.stage {
            GuardStage::Start => {
                self.stage = GuardStage::Trying;
                GuardEffect::TryLock
            },
            GuardStage::Trying => {
                if let GuardReply::Locked = reply {
                    self.stage = GuardStage::Writing;
                    GuardEffect::WritePid(pid_record(self.pid))
                } else {
                    self.stage = GuardStage::Announcing;
                    GuardEffect::Print(
                        String::from_str("他のインスタンスが動作中。古いプロセスを終了させます..."),
                    )
                }
            },
            GuardStage::Announcing => {
                self.stage = GuardStage::Reading;
                GuardEffect::ReadPidFile
            },
            GuardStage::Reading => {
                if let GuardReply::Text(t) = reply {
                    match read_pid(t.as_str()) {
                        Some(old) => {
                            self.stage = GuardStage::Killing;
                            GuardEffect::Kill(kill_command(old))
                        },
                        None => {
                            self.stage = GuardStage::Waiting;
                            GuardEffect::WaitLock
                        },
                    }
                } else {
                    self.stage = GuardStage::Finished;
                    GuardEffect::Abort
                }
            },
            GuardStage::Killing => {
                self.stage = GuardStage::Pausing;
                GuardEffect::Sleep(KILL_WAIT_MS)
            },
            GuardStage::Pausing => {
                self.stage = GuardStage::Waiting;
                GuardEffect::WaitLock
            },
            GuardStage::Waiting => {
                if let GuardReply::Locked = reply {
                    self.stage = GuardStage::Writing;
                    GuardEffect::WritePid(pid_record(self.pid))
                } else {
                    self.stage = GuardStage::Finished;
                    GuardEffect::Abort
                }
            },
            GuardStage::Writing => {
                self.stage = GuardStage::Finished;
                if let GuardReply::Ack = reply {
                    GuardEffect::Done
                } else {
                    GuardEffect::Abort
                }
            },
            GuardStage::Finished => GuardEffect::Done,
        }
    }
}

/// Steps left before the guard is done, at most.
pub open spec fn guard_rank(stage: GuardStage) -> nat {
    match stage {
        GuardStage::Start => 8,
        GuardStage::Trying => 7,
        GuardStage::Announcing => 6,
        GuardStage::Reading => 5,
        GuardStage::Killing => 4,
        GuardStage::Pausing => 3,
        GuardStage::Waiting => 2,
        GuardStage::Writing => 1,
        GuardStage::Finished => 0,
    }
}

/// The guard succeeds only by writing this process's own id into the
/// lock file while holding the lock, and every step brings it closer to
/// the end.
pub proof fn lemma_guard_claims_lock(g: InstanceGuard, r: GuardReply)
    ensures
        ({
            let (n, e) = guard_next(g, r);
            &&& (e is Done && !(g.stage is Finished)) ==> g.stage is Writing && r is Ack
            &&& e is WritePid ==> e == GuardEffectView::WritePid(pid_record_text(g.pid)) && r is Locked
            &&& !(g.stage is Finished) ==> guard_rank(n.stage) < guard_rank(g.stage)
            &&& n.pid == g.pid
        }),
{
}

/// A running instance is killed only when the lock file names it, and the
/// signal goes to exactly the process id read there.
pub proof fn lemma_guard_kills_recorded_pid(g: InstanceGuard, r: GuardReply)
    ensures
        guard_next(g, r).1 is Kill ==> (r matches GuardReply::Text(t) && pid_from_text(t@) is Some
            && guard_next(g, r).1 == GuardEffectView::Kill(
            kill_command_text(pid_from_text(t@)->0),
        )),
{
}

} // verus!
