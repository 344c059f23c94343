//! The dropdown terminal for Hyprland: which terminal window is ours, what
//! to do with it (show, hide or spawn), and the exact `hyprctl` dispatches,
//! with the slide animation, that do it.
use vstd::prelude::*;
use crate::number::{signed_decimal, signed_decimal_chars};
use crate::text::{
    chars_of, is_whitespace, join, lemma_find_space_at, nth_word, push_str, push_string, same_chars,
    string_of, words,
};
use vstd::arithmetic::div_mod::{lemma_div_by_multiple, lemma_div_is_ordered};
use vstd::arithmetic::mul::lemma_mul_inequality;

verus! {

/// A Hyprland workspace.
#[derive(Debug, PartialEq, Eq)]
pub struct Workspace {
    pub id: i32,
    pub name: String,
}

/// A Hyprland window, as `hyprctl clients -j` describes it.
#[derive(Debug, PartialEq, Eq)]
pub struct Client {
    pub address: String,
    pub workspace: Workspace,
    /// Top-left corner.
    pub at: [i32; 2],
    /// Width and height.
    pub size: [i32; 2],
    /// 0 for the window focused last, counting up for older ones.
    pub focus_history_id: i32,
}

/// A Hyprland monitor, as `hyprctl monitors -j` describes it, without its
/// scale factor (which only the pixel measurements use).
#[derive(Debug, PartialEq, Eq)]
pub struct Monitor {
    pub name: String,
    pub focused: bool,
    pub x: i32,
    pub y: i32,
    pub width: i32,
    pub height: i32,
}

/// The special workspace that holds the hidden terminal.
pub open spec fn scratchpad() -> Seq<char> {
    "special:scratchpad"@
}

/// A monitor together with its measurements in logical pixels.
#[derive(Debug, PartialEq, Eq)]
pub struct Screen {
    pub monitor: Monitor,
    pub measure: Measure,
}

/// `k` is the first focused screen.
pub open spec fn is_first_focused(screens: Seq<Screen>, k: int) -> bool {
    &&& 0 <= k < screens.len()
    &&& screens[k].monitor.focused
    &&& forall|j: int| 0 <= j < k ==> !(#[trigger] screens[j]).monitor.focused
}

/// Index of the first focused screen.
pub open spec fn focused_screen(screens: Seq<Screen>) -> Option<int> {
    if exists|k: int| is_first_focused(screens, k) {
        Some(choose|k: int| is_first_focused(screens, k))
    } else {
        None
    }
}

/// The first focused screen, if any.
pub fn find_focused_monitor(screens: &Vec<Screen>) -> (r: Option<usize>)
    ensures
        match r {
            Some(i) => focused_screen(screens@) == Some(i as int),
            None => focused_screen(screens@) is None,
        },
        r matches Some(i) ==> i < screens.len(),
{
    let mut i: usize = 0;
    while i < screens.len()
        invariant
            i <= screens.len(),
            forall|j: int| 0 <= j < i ==> !(#[trigger] screens@[j]).monitor.focused,
        decreases screens.len() - i,
    {
        if screens[i].monitor.focused {
            proof {
                assert(is_first_focused(screens@, i as int));
                let k = choose|k: int| is_first_focused(screens@, k);
                assert(k == i) by {
                    if k < i {
                        assert(!screens@[k].monitor.focused);
                    } else if k > i {
                        assert(!screens@[i as int].monitor.focused);
                    }
                }
            }
            return Some(i);
        }
        i = i + 1;
    }
    assert(!exists|k: int| is_first_focused(screens@, k));
    None
}

/// `k` is the first window with address `address`.
pub open spec fn is_first_with_address(clients: Seq<Client>, address: Seq<char>, k: int) -> bool {
    &&& 0 <= k < clients.len()
    &&& clients[k].address@ == address
    &&& forall|j: int| 0 <= j < k ==> (#[trigger] clients[j]).address@ != address
}

/// Index of the first window with address `address`.
pub open spec fn client_with_address(clients: Seq<Client>, address: Seq<char>) -> Option<int> {
    if exists|k: int| is_first_with_address(clients, address, k) {
        Some(choose|k: int| is_first_with_address(clients, address, k))
    } else {
        None
    }
}

/// The first window with the given address, if any.
pub fn find_client(clients: &Vec<Client>, address: &str) -> (r: Option<usize>)
    ensures
        match r {
            Some(i) => client_with_address(clients@, address@) == Some(i as int),
            None => client_with_address(clients@, address@) is None,
        },
        r matches Some(i) ==> i < clients.len(),
{
    let wanted = chars_of(address);
    let mut i: usize = 0;
    while i < clients.len()
        invariant
            i <= clients.len(),
            wanted@ == address@,
            forall|j: int| 0 <= j < i ==> (#[trigger] clients@[j]).address@ != address@,
        decreases clients.len() - i,
    {
        if same_chars(&chars_of(clients[i].address.as_str()), &wanted) {
            proof {
                assert(is_first_with_address(clients@, address@, i as int));
                let k = choose|k: int| is_first_with_address(clients@, address@, k);
                assert(k == i) by {
                    if k < i {
                        assert(clients@[k].address@ != address@);
                    } else if k > i {
                        assert(clients@[i as int].address@ != address@);
                    }
                }
            }
            return Some(i);
        }
        i = i + 1;
    }
    assert(!exists|k: int| is_first_with_address(clients@, address@, k));
    None
}

/// `k` holds the greatest focus-history id (the least recently focused
/// window; a window that was never focused counts as the oldest), and
/// every later window a smaller one (`max_by_key` keeps the last of equal
/// maxima).
pub open spec fn is_newest(clients: Seq<Client>, k: int) -> bool {
    &&& 0 <= k < clients.len()
    &&& forall|j: int|
        0 <= j < clients.len() ==> (#[trigger] clients[j]).focus_history_id
            <= clients[k].focus_history_id
    &&& forall|j: int|
        k < j < clients.len() ==> (#[trigger] clients[j]).focus_history_id
            < clients[k].focus_history_id
}

/// Index of the window with the greatest focus-history id; none for an
/// empty list.
pub open spec fn newest_of(clients: Seq<Client>) -> Option<int> {
    if clients.len() == 0 {
        None
    } else {
        Some(choose|k: int| is_newest(clients, k))
    }
}

/// The window with the greatest focus-history id (the least recently
/// focused one, or a new window that was never focused), the last such
/// window on a tie.
pub fn newest_client(clients: &Vec<Client>) -> (r: Option<usize>)
    ensures
        match r {
            Some(i) => newest_of(clients@) == Some(i as int),
            None => newest_of(clients@) is None,
        },
        r matches Some(i) ==> i < clients.len() && is_newest(clients@, i as int),
{
    if clients.len() == 0 {
        return None;
    }
    let mut best: usize = 0;
    let mut i: usize = 1;
    while i < clients.len()
        invariant
            1 <= i <= clients.len(),
            best < i,
            forall|j: int|
                0 <= j < i ==> (#[trigger] clients@[j]).focus_history_id
                    <= clients@[best as int].focus_history_id,
            forall|j: int|
                best < j < i ==> (#[trigger] clients@[j]).focus_history_id
                    < clients@[best as int].focus_history_id,
        decreases clients.len() - i,
    {
        if clients[i].focus_history_id >= clients[best].focus_history_id {
            best = i;
        }
        i = i + 1;
    }
    proof {
        assert(is_newest(clients@, best as int));
        let k = choose|k: int| is_newest(clients@, k);
        assert(k == best) by {
            if k < best {
                assert(clients@[best as int].focus_history_id < clients@[k].focus_history_id);
            } else if k > best {
                assert(clients@[k].focus_history_id < clients@[best as int].focus_history_id);
            }
        }
    }
    Some(best)
}

/// The address remembered in the state file: its first word.
pub open spec fn remembered_address(data: Seq<char>) -> Option<Seq<char>> {
    if words(data).len() > 0 {
        Some(words(data)[0])
    } else {
        None
    }
}

/// The address remembered in the state file, if any.
pub fn stored_address(data: &str) -> (r: Option<String>)
    ensures
        r matches Some(a) ==> remembered_address(data@) == Some(a@),
        r is None ==> remembered_address(data@) is None,
{
    match nth_word(&chars_of(data), 0) {
        Some(w) => Some(string_of(&w)),
        None => None,
    }
}

/// What a toggle does.
#[derive(Debug, PartialEq, Eq)]
pub enum Toggle {
    /// Bring the hidden terminal down onto the current workspace.
    Show,
    /// Slide the visible terminal up and park it in the scratchpad.
    Hide,
    /// Start a new terminal.
    Spawn,
}

/// A remembered terminal in the scratchpad is shown, one elsewhere is
/// hidden, and without one a new terminal is started.
pub open spec fn toggle_for(found: Option<Client>) -> Toggle {
    match found {
        Some(c) => if c.workspace.name@ == scratchpad() {
            Toggle::Show
        } else {
            Toggle::Hide
        },
        None => Toggle::Spawn,
    }
}

pub fn choose_toggle(found: Option<&Client>) -> (t: Toggle)
    ensures
        t == toggle_for(
            match found {
                Some(c) => Some(*c),
                None => None,
            },
        ),
{
    match found {
        Some(c) => {
            if same_chars(&chars_of(c.workspace.name.as_str()), &chars_of("special:scratchpad")) {
                Toggle::Show
            } else {
                Toggle::Hide
            }
        },
        None => Toggle::Spawn,
    }
}


/// One step of a terminal toggle.
#[derive(Debug, PartialEq, Eq)]
pub enum HyprStep {
    /// `hyprctl` with these arguments.
    Dispatch(Vec<String>),
    /// Wait this many milliseconds.
    Pause(u64),
}

/// The mathematical value of a `HyprStep`.
pub enum HyprStepView {
    Dispatch(Seq<Seq<char>>),
    Pause(u64),
}

impl View for HyprStep {
    type V = HyprStepView;

    open spec fn view(&self) -> HyprStepView {
        match self {
            HyprStep::Dispatch(args) => HyprStepView::Dispatch(args.deep_view()),
            HyprStep::Pause(ms) => HyprStepView::Pause(*ms),
        }
    }
}

/// The values of a list of steps.
pub open spec fn steps_view(steps: Seq<HyprStep>) -> Seq<HyprStepView> {
    steps.map_values(|s: HyprStep| s@)
}

/// Integer division rounding toward zero, as `/` on `i32` does.
pub open spec fn trunc_div(a: int, b: int) -> int {
    if a >= 0 {
        a / b
    } else {
        -((-a) / b)
    }
}

/// Coordinate `i` of `steps` on the way from `start` to `end`.
pub open spec fn slide_coord(start: int, end: int, i: int, steps: int) -> int {
    start + trunc_div((end - start) * i, steps)
}

/// The `hyprctl` window selector for `address`.
pub open spec fn address_of(address: Seq<char>) -> Seq<char> {
    "address:"@ + address
}

/// `exact <x> <y>,address:<address>`.
pub open spec fn exact_for(x: int, y: int, address: Seq<char>) -> Seq<char> {
    "exact "@ + signed_decimal(x) + " "@ + signed_decimal(y) + ","@ + address_of(address)
}

pub open spec fn move_command(address: Seq<char>, x: int, y: int) -> Seq<Seq<char>> {
    seq!["dispatch"@, "movewindowpixel"@, exact_for(x, y, address)]
}

/// Pause between animation frames.
pub const FRAME_MS: u64 = 20;

/// The slide of window `address` from `(sx, sy)` to `(ex, ey)`: `steps + 1`
/// frames, each a move followed by a 20 ms pause.
pub open spec fn slide_steps(address: Seq<char>, sx: int, sy: int, ex: int, ey: int, steps: int) -> Seq<
    HyprStepView,
> {
    if steps < 0 {
        Seq::empty()
    } else {
        Seq::new(
            (2 * (steps + 1)) as nat,
            |k: int|
                if k % 2 == 0 {
                    HyprStepView::Dispatch(
                        move_command(
                            address,
                            slide_coord(sx, ex, k / 2, steps),
                            slide_coord(sy, ey, k / 2, steps),
                        ),
                    )
                } else {
                    HyprStepView::Pause(20)
                },
        )
    }
}

/// No `i32` arithmetic of a slide over `steps` frames from `start` to `end`
/// overflows.
pub open spec fn slide_fits(start: int, end: int, steps: int) -> bool {
    &&& i32::MIN <= end - start <= i32::MAX
    &&& i32::MIN <= (end - start) * steps <= i32::MAX
}

proof fn lemma_slide_bounds(d: int, i: int, steps: int)
    requires
        steps > 0,
        0 <= i <= steps,
    ensures
        d >= 0 ==> 0 <= d * i <= d * steps && 0 <= (d * i) / steps <= d,
        d < 0 ==> d * steps <= d * i <= 0 && 0 <= (-(d * i)) / steps <= -d,
{
    if d >= 0 {
        lemma_mul_inequality(i, steps, d);
        assert(0 <= d * i) by (nonlinear_arith)
            requires
                d >= 0,
                i >= 0,
        ;
        assert(i * d == d * i) by (nonlinear_arith);
        assert(steps * d == d * steps) by (nonlinear_arith);
        lemma_div_is_ordered(d * i, d * steps, steps);
        lemma_div_by_multiple(d, steps);
        lemma_div_is_ordered(0, d * i, steps);
    } else {
        let e = -d;
        lemma_mul_inequality(i, steps, e);
        assert(0 <= e * i) by (nonlinear_arith)
            requires
                e >= 0,
                i >= 0,
        ;
        assert(i * e == e * i) by (nonlinear_arith);
        assert(steps * e == e * steps) by (nonlinear_arith);
        assert(e * i == -(d * i)) by (nonlinear_arith)
            requires
                e == -d,
        ;
        assert(e * steps == -(d * steps)) by (nonlinear_arith)
            requires
                e == -d,
        ;
        lemma_div_is_ordered(e * i, e * steps, steps);
        lemma_div_by_multiple(e, steps);
        lemma_div_is_ordered(0, e * i, steps);
    }
}

/// Coordinate `i` of `steps` of a slide.
pub fn slide_position(start: i32, end: i32, i: i32, steps: i32) -> (c: i32)
    requires
        0 <= i <= steps,
        steps > 0,
        slide_fits(start as int, end as int, steps as int),
    ensures
        c == slide_coord(start as int, end as int, i as int, steps as int),
{
    let d = end - start;
    proof {
        lemma_slide_bounds(d as int, i as int, steps as int);
    }
    let q = d * i / steps;
    start + q
}

fn address_arg(address: &str) -> (r: String)
    ensures
        r@ == address_of(address@),
{
    join("address:", address)
}

fn decimal_string(n: i32) -> (r: String)
    ensures
        r@ == signed_decimal(n as int),
{
    string_of(&signed_decimal_chars(n as i64))
}

fn exact_arg(x: i32, y: i32, address: &str) -> (r: String)
    ensures
        r@ == exact_for(x as int, y as int, address@),
{
    let xs = decimal_string(x);
    let ys = decimal_string(y);
    let tail = address_arg(address);
    let r = join("exact ", xs.as_str()).concat(" ").concat(ys.as_str()).concat(",").concat(
        tail.as_str(),
    );
    assert(r@ =~= exact_for(x as int, y as int, address@));
    r
}

fn dispatch3(a: &str, b: &str, c: String) -> (step: HyprStep)
    ensures
        step@ == HyprStepView::Dispatch(seq![a@, b@, c@]),
{
    let mut args: Vec<String> = Vec::new();
    push_str(&mut args, a);
    push_str(&mut args, b);
    push_string(&mut args, c);
    assert(args.deep_view() =~= seq![a@, b@, c@]);
    HyprStep::Dispatch(args)
}

/// The frames that slide window `address` from `(start_x, start_y)` to
/// `(end_x, end_y)` in `steps` equal moves, appended to `out`.
pub fn animate_slide(
    out: &mut Vec<HyprStep>,
    address: &str,
    start_x: i32,
    start_y: i32,
    end_x: i32,
    end_y: i32,
    steps: i32,
)
    requires
        steps != 0,
        steps > 0 ==> slide_fits(start_x as int, end_x as int, steps as int),
        steps > 0 ==> slide_fits(start_y as int, end_y as int, steps as int),
    ensures
        steps_view(final(out)@) == steps_view(old(out)@) + slide_steps(
            address@,
            start_x as int,
            start_y as int,
            end_x as int,
            end_y as int,
            steps as int,
        ),
{
    let ghost base = steps_view(out@);
    let ghost frames = slide_steps(
        address@,
        start_x as int,
        start_y as int,
        end_x as int,
        end_y as int,
        steps as int,
    );
    if steps < 0 {
        assert(frames =~= Seq::<HyprStepView>::empty());
        assert(steps_view(out@) =~= base + frames);
        return;
    }
    let mut i: i64 = 0;
    while i <= steps as i64
        invariant
            0 <= i <= steps + 1,
            steps > 0,
            slide_fits(start_x as int, end_x as int, steps as int),
            slide_fits(start_y as int, end_y as int, steps as int),
            frames == slide_steps(
                address@,
                start_x as int,
                start_y as int,
                end_x as int,
                end_y as int,
                steps as int,
            ),
            frames.len() == 2 * (steps + 1),
            steps_view(out@) == base + frames.take(2 * i),
        decreases steps + 1 - i,
    {
        let x = slide_position(start_x, end_x, i as i32, steps);
        let y = slide_position(start_y, end_y, i as i32, steps);
        let ghost prev = out@;
        let s1 = dispatch3("dispatch", "movewindowpixel", exact_arg(x, y, address));
        let s2 = HyprStep::Pause(FRAME_MS);
        let ghost v1 = s1@;
        let ghost v2 = s2@;
        out.push(s1);
        out.push(s2);
        proof {
            let k = 2 * i;
            assert(k % 2 == 0 && k / 2 == i);
            assert((k + 1) % 2 == 1);
            assert(frames[k] == v1);
            assert(frames[k + 1] == v2);
            assert(out@ =~= prev.push(out@[prev.len() as int]).push(out@[prev.len() + 1int]));
            assert(steps_view(out@) =~= steps_view(prev).push(v1).push(v2));
            assert(frames.take(k + 2) =~= frames.take(k).push(v1).push(v2));
        }
        i = i + 1;
    }
    assert(frames.take(2 * steps + 2) =~= frames);
}


pub open spec fn dispatch_view(a: Seq<char>, b: Seq<char>, c: Seq<char>) -> HyprStepView {
    HyprStepView::Dispatch(seq![a, b, c])
}

/// Where the hide slide ends: the window's height plus 50 pixels above its
/// current top edge.
pub open spec fn hide_target_y(c: Client) -> int {
    c.at@[1] - c.size@[1] - 50
}

/// The hide animation of `c` stays within `i32`.
pub open spec fn hide_fits(c: Client) -> bool {
    &&& i32::MIN <= c.at@[1] - c.size@[1] <= i32::MAX
    &&& i32::MIN <= hide_target_y(c) <= i32::MAX
    &&& slide_fits(c.at@[1] as int, hide_target_y(c), 5)
}

/// Hiding `c`: slide it up out of sight in five moves, unpin it, and park it
/// in the scratchpad.
pub open spec fn hide_steps(c: Client) -> Seq<HyprStepView> {
    let a = c.address@;
    slide_steps(a, c.at@[0] as int, c.at@[1] as int, c.at@[0] as int, hide_target_y(c), 5) + seq![
        dispatch_view("dispatch"@, "pin"@, address_of(a)),
        dispatch_view("dispatch"@, "movetoworkspacesilent"@, scratchpad() + ","@ + address_of(a)),
    ]
}

/// Whether hiding `c` stays within `i32`.
pub fn can_hide(c: &Client) -> (r: bool)
    ensures
        r == hide_fits(*c),
{
    let y = c.at[1] as i64;
    let h = c.size[1] as i64;
    let target = y - h - 50;
    let d = target - y;
    i32::MIN as i64 <= y - h && y - h <= i32::MAX as i64 && i32::MIN as i64 <= target && target
        <= i32::MAX as i64 && i32::MIN as i64 <= d && d <= i32::MAX as i64 && i32::MIN as i64 <= d
        * 5 && d * 5 <= i32::MAX as i64
}

/// The steps that hide terminal window `c`.
pub fn hide_terminal(c: &Client) -> (steps: Vec<HyprStep>)
    requires
        hide_fits(*c),
    ensures
        steps_view(steps@) == hide_steps(*c),
{
    let mut steps: Vec<HyprStep> = Vec::new();
    let x = c.at[0];
    let y = c.at[1];
    let target = y - c.size[1] - 50;
    animate_slide(&mut steps, c.address.as_str(), x, y, x, target, 5);
    let ghost slid = steps_view(steps@);
    let pin = dispatch3("dispatch", "pin", address_arg(c.address.as_str()));
    let park_to = join("special:scratchpad,", address_arg(c.address.as_str()).as_str());
    let park = dispatch3("dispatch", "movetoworkspacesilent", park_to);
    let ghost v1 = pin@;
    let ghost v2 = park@;
    let ghost prev = steps@;
    steps.push(pin);
    steps.push(park);
    proof {
        assert(steps@ =~= prev.push(steps@[prev.len() as int]).push(steps@[prev.len() + 1int]));
        assert(steps_view(steps@) =~= slid.push(v1).push(v2));
        assert(park_to@ =~= scratchpad() + ","@ + address_of(c.address@)) by {
            reveal_strlit("special:scratchpad,");
            reveal_strlit("special:scratchpad");
            reveal_strlit(",");
        }
        assert(steps_view(steps@) =~= hide_steps(*c));
    }
    steps
}

/// The size and position of the shown terminal.
#[derive(Debug, Clone, Copy, PartialEq, Eq)]
pub struct Placement {
    pub width: i32,
    pub height: i32,
    pub x: i32,
    pub y: i32,
}

/// Pixel measurements of a monitor, in logical (scaled) pixels: its full
/// width, half its width and height (the terminal's size), and a twentieth
/// of its height (the gap above the terminal).
#[derive(Debug, Clone, Copy, PartialEq, Eq)]
pub struct Measure {
    pub logical_width: i32,
    pub width: i32,
    pub height: i32,
    pub top_margin: i32,
}

/// The terminal is centred horizontally and hangs `top_margin` below the
/// monitor's top edge.
pub open spec fn placement_x(m: Monitor, k: Measure) -> int {
    m.x + trunc_div(k.logical_width - k.width, 2)
}

pub open spec fn placement_y(m: Monitor, k: Measure) -> int {
    m.y + k.top_margin
}

pub open spec fn placement_fits(m: Monitor, k: Measure) -> bool {
    &&& i32::MIN <= k.logical_width - k.width <= i32::MAX
    &&& i32::MIN <= placement_x(m, k) <= i32::MAX
    &&& i32::MIN <= placement_y(m, k) <= i32::MAX
}

/// Whether placing the terminal stays within `i32`.
pub fn can_place(m: &Monitor, k: &Measure) -> (r: bool)
    ensures
        r == placement_fits(*m, *k),
{
    let d = k.logical_width as i64 - k.width as i64;
    let x = m.x as i64 + d / 2;
    let y = m.y as i64 + k.top_margin as i64;
    i32::MIN as i64 <= d && d <= i32::MAX as i64 && i32::MIN as i64 <= x && x <= i32::MAX as i64
        && i32::MIN as i64 <= y && y <= i32::MAX as i64
}

/// Where the terminal goes on monitor `m`.
pub fn place_terminal(m: &Monitor, k: &Measure) -> (p: Placement)
    requires
        placement_fits(*m, *k),
    ensures
        p.width == k.width,
        p.height == k.height,
        p.x == placement_x(*m, *k),
        p.y == placement_y(*m, *k),
{
    Placement {
        width: k.width,
        height: k.height,
        x: m.x + (k.logical_width - k.width) / 2,
        y: m.y + k.top_margin,
    }
}

/// The show animation stays within `i32`.
pub open spec fn show_fits(p: Placement) -> bool {
    &&& i32::MIN <= p.y - p.height <= i32::MAX
    &&& slide_fits(p.y - p.height, p.y as int, 5)
}

/// Showing window `address` at `p` on workspace `workspace_id`: move it
/// there, pin it, size it, slide it down from above its place in five moves,
/// and focus it.
pub open spec fn show_steps(address: Seq<char>, workspace_id: i32, p: Placement) -> Seq<HyprStepView> {
    seq![
        dispatch_view(
            "dispatch"@,
            "movetoworkspacesilent"@,
            signed_decimal(workspace_id as int) + ","@ + address_of(address),
        ),
        dispatch_view("dispatch"@, "pin"@, address_of(address)),
        dispatch_view(
            "dispatch"@,
            "resizewindowpixel"@,
            exact_for(p.width as int, p.height as int, address),
        ),
    ] + slide_steps(address, p.x as int, p.y - p.height, p.x as int, p.y as int, 5) + seq![
        dispatch_view("dispatch"@, "focuswindow"@, address_of(address)),
    ]
}

/// Whether showing the terminal at `p` stays within `i32`.
pub fn can_show(p: &Placement) -> (r: bool)
    ensures
        r == show_fits(*p),
{
    let top = p.y as i64 - p.height as i64;
    let d = p.y as i64 - top;
    i32::MIN as i64 <= top && top <= i32::MAX as i64 && i32::MIN as i64 <= d && d <= i32::MAX as i64
        && i32::MIN as i64 <= d * 5 && d * 5 <= i32::MAX as i64
}

/// The steps that show terminal window `address` at `p` on the active
/// workspace `workspace_id`.
pub fn show_terminal(address: &str, workspace_id: i32, p: &Placement) -> (steps: Vec<HyprStep>)
    requires
        show_fits(*p),
    ensures
        steps_view(steps@) == show_steps(address@, workspace_id, *p),
{
    let mut steps: Vec<HyprStep> = Vec::new();
    let target = join(decimal_string(workspace_id).as_str(), ",").concat(
        address_arg(address).as_str(),
    );
    let s1 = dispatch3("dispatch", "movetoworkspacesilent", target);
    let s2 = dispatch3("dispatch", "pin", address_arg(address));
    let s3 = dispatch3("dispatch", "resizewindowpixel", exact_arg(p.width, p.height, address));
    let ghost v = seq![s1@, s2@, s3@];
    steps.push(s1);
    steps.push(s2);
    steps.push(s3);
    assert(steps_view(steps@) =~= v);
    animate_slide(&mut steps, address, p.x, p.y - p.height, p.x, p.y, 5);
    let ghost slid = steps_view(steps@);
    let s4 = dispatch3("dispatch", "focuswindow", address_arg(address));
    let ghost v4 = s4@;
    let ghost prev = steps@;
    steps.push(s4);
    proof {
        assert(steps@ =~= prev.push(steps@[prev.len() as int]));
        assert(steps_view(steps@) =~= slid.push(v4));
        assert(steps_view(steps@) =~= show_steps(address@, workspace_id, *p));
    }
    steps
}

/// Pause that lets a new terminal appear before it is looked for.
pub const SPAWN_WAIT_MS: u64 = 300;

/// The exec rule that starts `cmd` as a floating `width` x `height` window
/// in the scratchpad, without switching to it.
pub open spec fn spawn_rule(width: i32, height: i32, cmd: Seq<char>) -> Seq<char> {
    "[float; size "@ + signed_decimal(width as int) + " "@ + signed_decimal(height as int)
        + "; workspace special:scratchpad silent] "@ + cmd
}

/// Starting a terminal: dispatch the exec rule, then give it time to appear.
pub open spec fn spawn_steps(width: i32, height: i32, cmd: Seq<char>) -> Seq<HyprStepView> {
    seq![dispatch_view("dispatch"@, "exec"@, spawn_rule(width, height, cmd)), HyprStepView::Pause(300)]
}

/// The steps that start a new terminal running `cmd`.
pub fn spawn_terminal(width: i32, height: i32, cmd: &str) -> (steps: Vec<HyprStep>)
    ensures
        steps_view(steps@) == spawn_steps(width, height, cmd@),
{
    let rule = join("[float; size ", decimal_string(width).as_str()).concat(" ").concat(
        decimal_string(height).as_str(),
    ).concat("; workspace special:scratchpad silent] ").concat(cmd);
    let s1 = dispatch3("dispatch", "exec", rule);
    let s2 = HyprStep::Pause(SPAWN_WAIT_MS);
    let ghost v = seq![s1@, s2@];
    let mut steps: Vec<HyprStep> = Vec::new();
    steps.push(s1);
    steps.push(s2);
    assert(steps_view(steps@) =~= v);
    steps
}

/// What the state file records for a new terminal: its address and the
/// monitor it was started on, separated by a space.
pub open spec fn record_text(address: Seq<char>, monitor: Seq<char>) -> Seq<char> {
    address + " "@ + monitor
}

pub fn address_record(address: &str, monitor: &str) -> (r: String)
    ensures
        r@ == record_text(address@, monitor@),
{
    join(address, " ").concat(monitor)
}


/// A slide starts exactly at its start point and ends exactly at its end
/// point.
pub proof fn lemma_slide_endpoints(start: int, end: int, steps: int)
    requires
        steps > 0,
    ensures
        slide_coord(start, end, 0, steps) == start,
        slide_coord(start, end, steps, steps) == end,
{
    let d = end - start;
    assert(d * 0 == 0);
    if d >= 0 {
        lemma_div_by_multiple(d, steps);
    } else {
        lemma_div_by_multiple(-d, steps);
        assert((-d) * steps == -(d * steps)) by (nonlinear_arith);
    }
}

/// The address recorded when a terminal is spawned is the one the next
/// toggle reads back, whatever monitor name follows it.
pub proof fn lemma_record_round_trip(address: Seq<char>, monitor: Seq<char>)
    requires
        address.len() > 0,
        forall|i: int| 0 <= i < address.len() ==> !is_whitespace(#[trigger] address[i]),
    ensures
        remembered_address(record_text(address, monitor)) == Some(address),
{
    let s = record_text(address, monitor);
    assert(" "@ == seq![' ']) by {
        reveal_strlit(" ");
    }
    assert forall|j: int| 0 <= j < address.len() implies !is_whitespace(#[trigger] s[j]) by {
        assert(s[j] == address[j]);
    }
    assert(s[address.len() as int] == ' ');
    lemma_find_space_at(s, address.len() as int);
    assert(s[0] == address[0]);
    assert(s.take(address.len() as int) =~= address);
}


/// The terminal's place is relative to the focused monitor: moving the
/// monitor by `(dx, dy)` moves the terminal by the same amount.
pub proof fn lemma_placement_follows_monitor(m: Monitor, k: Measure, dx: int, dy: int)
    requires
        i32::MIN <= m.x + dx <= i32::MAX,
        i32::MIN <= m.y + dy <= i32::MAX,
    ensures
        ({
            let moved = Monitor { x: (m.x + dx) as i32, y: (m.y + dy) as i32, ..m };
            &&& placement_x(moved, k) == placement_x(m, k) + dx
            &&& placement_y(moved, k) == placement_y(m, k) + dy
        }),
{
}

/// The terminal lies on the focused monitor: horizontally centred within
/// its logical width, and its top edge `top_margin` below the monitor's
/// top edge, so inside the monitor whenever the margin is smaller than the
/// monitor's height.
pub proof fn lemma_placement_on_monitor(m: Monitor, k: Measure)
    ensures
        0 <= k.width <= k.logical_width ==> m.x <= placement_x(m, k) && placement_x(m, k) + k.width
            <= m.x + k.logical_width,
        0 <= k.width <= k.logical_width ==> placement_x(m, k) - m.x == (k.logical_width - k.width)
            / 2,
        placement_y(m, k) - m.y == k.top_margin,
        0 <= k.top_margin < m.height ==> m.y <= placement_y(m, k) < m.y + m.height,
{
}

/// Hiding slides the terminal straight up out of sight: the slide starts
/// where the window is, keeps its column, and ends the window's height
/// plus 50 pixels higher; then the window is unpinned and parked in the
/// special scratchpad workspace.
pub proof fn lemma_hide_slides_up(c: Client)
    ensures
        hide_steps(c).len() == 14,
        hide_steps(c)[0] == HyprStepView::Dispatch(
            move_command(c.address@, c.at@[0] as int, c.at@[1] as int),
        ),
        hide_steps(c)[10] == HyprStepView::Dispatch(
            move_command(c.address@, c.at@[0] as int, c.at@[1] - c.size@[1] - 50),
        ),
        c.size@[1] >= 0 ==> c.at@[1] - c.size@[1] - 50 < c.at@[1],
        hide_steps(c)[12] == dispatch_view("dispatch"@, "pin"@, address_of(c.address@)),
        hide_steps(c)[13] == dispatch_view(
            "dispatch"@,
            "movetoworkspacesilent"@,
            seq![
                's', 'p', 'e', 'c', 'i', 'a', 'l', ':', 's', 'c', 'r', 'a', 't', 'c', 'h', 'p', 'a',
                'd', ',',
            ] + address_of(c.address@),
        ),
{
    let a = c.address@;
    let x = c.at@[0] as int;
    let y = c.at@[1] as int;
    let t = hide_target_y(c);
    let slide = slide_steps(a, x, y, x, t, 5);
    lemma_slide_endpoints(x, x, 5);
    lemma_slide_endpoints(y, t, 5);
    assert(slide.len() == 12);
    assert(hide_steps(c)[0] == slide[0]);
    assert(hide_steps(c)[10] == slide[10]);
    assert(10int / 2 == 5);
    assert(10int % 2 == 0);
    assert(0int % 2 == 0);
    reveal_strlit("special:scratchpad");
    reveal_strlit(",");
    assert(scratchpad() + ","@ =~= seq![
        's', 'p', 'e', 'c', 'i', 'a', 'l', ':', 's', 'c', 'r', 'a', 't', 'c', 'h', 'p', 'a', 'd', ',',
    ]);
}

/// Showing brings the terminal to the active workspace, pins it, gives it
/// its size, slides it straight down from one window height above its
/// place to exactly its place, and focuses it.
pub proof fn lemma_show_slides_down(address: Seq<char>, workspace_id: i32, p: Placement)
    ensures
        show_steps(address, workspace_id, p).len() == 16,
        show_steps(address, workspace_id, p)[0] == dispatch_view(
            "dispatch"@,
            "movetoworkspacesilent"@,
            signed_decimal(workspace_id as int) + ","@ + address_of(address),
        ),
        show_steps(address, workspace_id, p)[1] == dispatch_view("dispatch"@, "pin"@, address_of(address)),
        show_steps(address, workspace_id, p)[2] == dispatch_view(
            "dispatch"@,
            "resizewindowpixel"@,
            exact_for(p.width as int, p.height as int, address),
        ),
        show_steps(address, workspace_id, p)[3] == HyprStepView::Dispatch(
            move_command(address, p.x as int, p.y - p.height),
        ),
        show_steps(address, workspace_id, p)[13] == HyprStepView::Dispatch(
            move_command(address, p.x as int, p.y as int),
        ),
        p.height > 0 ==> p.y - p.height < p.y,
        show_steps(address, workspace_id, p)[15] == dispatch_view(
            "dispatch"@,
            "focuswindow"@,
            address_of(address),
        ),
{
    let x = p.x as int;
    let slide = slide_steps(address, x, p.y - p.height, x, p.y as int, 5);
    lemma_slide_endpoints(x, x, 5);
    lemma_slide_endpoints(p.y - p.height, p.y as int, 5);
    let s = show_steps(address, workspace_id, p);
    assert(slide.len() == 12);
    assert(s[3] == slide[0]);
    assert(s[13] == slide[10]);
    assert(10int / 2 == 5);
    assert(10int % 2 == 0);
    assert(0int % 2 == 0);
}


/// A toggle shows the remembered terminal exactly when it is parked in the
/// workspace `special:scratchpad`, hides it when it is anywhere else, and
/// starts a new one when there is none.
pub proof fn lemma_toggle_choice(found: Option<Client>)
    ensures
        found matches Some(c) ==> (toggle_for(found) is Show <==> c.workspace.name@ == seq![
            's', 'p', 'e', 'c', 'i', 'a', 'l', ':', 's', 'c', 'r', 'a', 't', 'c', 'h', 'p', 'a', 'd',
        ]),
        found matches Some(c) ==> (toggle_for(found) is Hide <==> c.workspace.name@ != seq![
            's', 'p', 'e', 'c', 'i', 'a', 'l', ':', 's', 'c', 'r', 'a', 't', 'c', 'h', 'p', 'a', 'd',
        ]),
        found is None <==> toggle_for(found) is Spawn,
{
    reveal_strlit("special:scratchpad");
    assert(scratchpad() =~= seq![
        's', 'p', 'e', 'c', 'i', 'a', 'l', ':', 's', 'c', 'r', 'a', 't', 'c', 'h', 'p', 'a', 'd',
    ]);
}

} // verus!
