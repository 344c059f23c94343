//! One run of the dropdown terminal toggle as a state machine: it asks
//! its driver for Hyprland's monitors and windows and for the state file,
//! decides whether to show, hide or spawn the terminal, and hands back
//! the exact steps to carry out.
use vstd::prelude::*;
use crate::terminal::{lemma_record_round_trip, scratchpad, 
    address_record, can_hide, can_place, can_show, choose_toggle, client_with_address,
    find_client, find_focused_monitor, focused_screen, hide_fits, hide_steps, hide_terminal,
    newest_client, newest_of, place_terminal, placement_fits, placement_x, placement_y,
    record_text, remembered_address, show_fits, show_steps, show_terminal, spawn_steps,
    spawn_terminal, steps_view, stored_address, toggle_for, Client, HyprStep, HyprStepView,
    Placement, Screen, Toggle, Workspace,
};

verus! {

/// Something a toggle run needs done outside the library.
#[derive(Debug, PartialEq, Eq)]
pub enum TerminalEffect {
    /// List the monitors (`hyprctl monitors -j`) and measure each; answer
    /// `Screens`, or `Unreadable` when the answer does not parse.
    ListMonitors,
    /// Read the state file; answer `Text`, or `Unreadable` when it cannot
    /// be read.
    ReadRecord,
    /// List the windows (`hyprctl clients -j`); answer `Clients`, or
    /// `Unreadable` when the answer does not parse.
    ListClients,
    /// Ask for the active workspace (`hyprctl activeworkspace -j`); answer
    /// `Workspace`, or `Unreadable` when the answer does not parse.
    ActiveWorkspace,
    /// Carry out these steps; answer `Ack`.
    Perform(Vec<HyprStep>),
    /// Write this text to the state file; answer `Ack`, or `Unreadable`
    /// when it cannot be written.
    SaveRecord(String),
    /// Stop the program with this message.
    Panic(String),
    /// Stop with the error the last answer reported.
    Abort,
    /// The run is over.
    Done,
}

/// What the driver reports back after an effect.
#[derive(Debug, PartialEq, Eq)]
pub enum TerminalReply {
    Screens(Vec<Screen>),
    Text(String),
    Clients(Vec<Client>),
    Workspace(Workspace),
    Unreadable,
    Ack,
}

/// The mathematical value of a `TerminalEffect`.
pub enum TerminalEffectView {
    ListMonitors,
    ReadRecord,
    ListClients,
    ActiveWorkspace,
    Perform(Seq<HyprStepView>),
    SaveRecord(Seq<char>),
    Panic(Seq<char>),
    Abort,
    Done,
}

impl View for TerminalEffect {
    type V = TerminalEffectView;

    open spec fn view(&self) -> TerminalEffectView {
        match self {
            TerminalEffect::ListMonitors => TerminalEffectView::ListMonitors,
            TerminalEffect::ReadRecord => TerminalEffectView::ReadRecord,
            TerminalEffect::ListClients => TerminalEffectView::ListClients,
            TerminalEffect::ActiveWorkspace => TerminalEffectView::ActiveWorkspace,
            TerminalEffect::Perform(steps) => TerminalEffectView::Perform(steps_view(steps@)),
            TerminalEffect::SaveRecord(text) => TerminalEffectView::SaveRecord(text@),
            TerminalEffect::Panic(message) => TerminalEffectView::Panic(message@),
            TerminalEffect::Abort => TerminalEffectView::Abort,
            TerminalEffect::Done => TerminalEffectView::Done,
        }
    }
}

/// Where a toggle run stands.
#[derive(Debug, Clone, Copy, PartialEq, Eq)]
pub enum DropdownStage {
    Start,
    /// The monitors were asked for.
    AwaitScreens,
    /// The state file was asked for.
    AwaitRecord,
    /// The windows were asked for, to find the remembered terminal.
    AwaitLookup,
    /// A new terminal is being started.
    Spawning,
    /// The windows were asked for, to find the new terminal.
    AwaitNewest,
    /// The new terminal's address is being saved.
    Saving,
    /// The active workspace was asked for, to show the terminal there.
    AwaitWorkspace,
    /// The last steps are being carried out.
    Finishing,
    Finished,
}

/// One run of the toggle for terminal command `command`: the focused
/// screen, the remembered address and the terminal window, once known.
pub struct DropdownSession {
    pub stage: DropdownStage,
    pub command: String,
    pub screen: Option<Screen>,
    pub address: String,
    pub client: Option<Client>,
}

/// The mathematical value of a `DropdownSession`.
pub struct DropdownModel {
    pub stage: DropdownStage,
    pub command: Seq<char>,
    pub screen: Option<Screen>,
    pub address: Seq<char>,
    pub client: Option<Client>,
}

impl View for DropdownSession {
    type V = DropdownModel;

    open spec fn view(&self) -> DropdownModel {
        DropdownModel {
            stage: self.stage,
            command: self.command@,
            screen: self.screen,
            address: self.address@,
            client: self.client,
        }
    }
}

pub open spec fn no_monitor_message() -> Seq<char> {
    "Could not get focused monitor"@
}

pub open spec fn add_overflow_message() -> Seq<char> {
    "attempt to add with overflow"@
}

pub open spec fn subtract_overflow_message() -> Seq<char> {
    "attempt to subtract with overflow"@
}

pub open spec fn at_stage(m: DropdownModel, stage: DropdownStage) -> DropdownModel {
    DropdownModel { stage, ..m }
}

/// The terminal's place on a screen whose placement fits in `i32`.
pub open spec fn placement_of(sc: Screen) -> Placement {
    Placement {
        width: sc.measure.width,
        height: sc.measure.height,
        x: placement_x(sc.monitor, sc.measure) as i32,
        y: placement_y(sc.monitor, sc.measure) as i32,
    }
}

/// Starting a new terminal sized for the focused screen.
pub open spec fn spawn_next(m: DropdownModel) -> (DropdownModel, TerminalEffectView) {
    match m.screen {
        Some(sc) => (
            at_stage(m, DropdownStage::Spawning),
            TerminalEffectView::Perform(spawn_steps(sc.measure.width, sc.measure.height, m.command)),
        ),
        None => (at_stage(m, DropdownStage::Finished), TerminalEffectView::Abort),
    }
}

/// Getting ready to show the terminal: its place must fit, then the active
/// workspace is needed.
pub open spec fn show_next(m: DropdownModel) -> (DropdownModel, TerminalEffectView) {
    match m.screen {
        Some(sc) => if placement_fits(sc.monitor, sc.measure) {
            (at_stage(m, DropdownStage::AwaitWorkspace), TerminalEffectView::ActiveWorkspace)
        } else {
            (
                at_stage(m, DropdownStage::Finished),
                TerminalEffectView::Panic(add_overflow_message()),
            )
        },
        None => (at_stage(m, DropdownStage::Finished), TerminalEffectView::Abort),
    }
}

/// The transition of a toggle run on a reply: the next run state and the
/// effect to perform.
pub open spec fn dropdown_next(m: DropdownModel, r: TerminalReply) -> (DropdownModel, TerminalEffectView) {
    match m.stage {
        DropdownStage::Start => (
            at_stage(m, DropdownStage::AwaitScreens),
            TerminalEffectView::ListMonitors,
        ),
        DropdownStage::AwaitScreens => match r {
            TerminalReply::Screens(list) => match focused_screen(list@) {
                Some(i) => (
                    DropdownModel { stage: DropdownStage::AwaitRecord, screen: Some(list@[i]), ..m },
                    TerminalEffectView::ReadRecord,
                ),
                None => (
                    at_stage(m, DropdownStage::Finished),
                    TerminalEffectView::Panic(no_monitor_message()),
                ),
            },
            _ => (
                at_stage(m, DropdownStage::Finished),
                TerminalEffectView::Panic(no_monitor_message()),
            ),
        },
        DropdownStage::AwaitRecord => match r {
            TerminalReply::Text(t) => match remembered_address(t@) {
                Some(a) => (
                    DropdownModel { stage: DropdownStage::AwaitLookup, address: a, ..m },
                    TerminalEffectView::ListClients,
                ),
                None => spawn_next(m),
            },
            _ => spawn_next(m),
        },
        DropdownStage::AwaitLookup => match r {
            TerminalReply::Clients(list) => match client_with_address(list@, m.address) {
                Some(i) => {
                    let c = list@[i];
                    match toggle_for(Some(c)) {
                        Toggle::Show => show_next(DropdownModel { client: Some(c), ..m }),
                        Toggle::Hide => if hide_fits(c) {
                            (
                                DropdownModel { stage: DropdownStage::Finishing, client: Some(c), ..m },
                                TerminalEffectView::Perform(hide_steps(c)),
                            )
                        } else {
                            (
                                at_stage(m, DropdownStage::Finished),
                                TerminalEffectView::Panic(subtract_overflow_message()),
                            )
                        },
                        Toggle::Spawn => spawn_next(m),
                    }
                },
                None => spawn_next(m),
            },
            _ => spawn_next(m),
        },
        DropdownStage::Spawning => (
            at_stage(m, DropdownStage::AwaitNewest),
            TerminalEffectView::ListClients,
        ),
        DropdownStage::AwaitNewest => match r {
            TerminalReply::Clients(list) => match newest_of(list@) {
                Some(i) => match m.screen {
                    Some(sc) => (
                        DropdownModel { stage: DropdownStage::Saving, client: Some(list@[i]), ..m },
                        TerminalEffectView::SaveRecord(
                            record_text(list@[i].address@, sc.monitor.name@),
                        ),
                    ),
                    None => (at_stage(m, DropdownStage::Finished), TerminalEffectView::Abort),
                },
                None => (at_stage(m, DropdownStage::Finished), TerminalEffectView::Done),
            },
            _ => (at_stage(m, DropdownStage::Finished), TerminalEffectView::Abort),
        },
        DropdownStage::Saving => match r {
            TerminalReply::Ack => show_next(m),
            _ => (at_stage(m, DropdownStage::Finished), TerminalEffectView::Abort),
        },
        DropdownStage::AwaitWorkspace => match r {
            TerminalReply::Workspace(ws) => match (m.screen, m.client) {
                (Some(sc), Some(c)) => if !placement_fits(sc.monitor, sc.measure) {
                    (
                        at_stage(m, DropdownStage::Finished),
                        TerminalEffectView::Panic(add_overflow_message()),
                    )
                } else if show_fits(placement_of(sc)) {
                    (
                        at_stage(m, DropdownStage::Finishing),
                        TerminalEffectView::Perform(show_steps(c.address@, ws.id, placement_of(sc))),
                    )
                } else {
                    (
                        at_stage(m, DropdownStage::Finished),
                        TerminalEffectView::Panic(subtract_overflow_message()),
                    )
                },
                _ => (at_stage(m, DropdownStage::Finished), TerminalEffectView::Abort),
            },
            _ => (at_stage(m, DropdownStage::Finished), TerminalEffectView::Abort),
        },
        DropdownStage::Finishing => (at_stage(m, DropdownStage::Finished), TerminalEffectView::Done),
        DropdownStage::Finished => (at_stage(m, DropdownStage::Finished), TerminalEffectView::Done),
    }
}


impl DropdownSession {
    /// A fresh run for terminal command `command`.
    pub fn new(command: &str) -> (s: DropdownSession)
        ensures
            s@ == (DropdownModel {
                stage: DropdownStage::Start,
                command: command@,
                screen: None,
                address: Seq::empty(),
                client: None,
            }),
    {
        DropdownSession {
            stage: DropdownStage::Start,
            command: String::from_str(command),
            screen: None,
            address: String::new(),
            client: None,
        }
    }

    fn finish_with(&mut self, e: TerminalEffect) -> (r: TerminalEffect)
        ensures
            final(self)@ == at_stage(old(self)@, DropdownStage::Finished),
            r == e,
    {
        self.stage = DropdownStage::Finished;
        e
    }

    fn spawn(&mut self) -> (e: TerminalEffect)
        ensures
            (final(self)@, e@) == spawn_next(old(self)@),
    {
        match &self.screen {
            Some(sc) => {
                let steps = spawn_terminal(sc.measure.width, sc.measure.height, self.command.as_str());
                self.stage = DropdownStage::Spawning;
                TerminalEffect::Perform(steps)
            },
            None => self.finish_with(TerminalEffect::Abort),
        }
    }

    fn prepare_show(&mut self) -> (e: TerminalEffect)
        ensures
            (final(self)@, e@) == show_next(old(self)@),
    {
        match &self.screen {
            Some(sc) => {
                if can_place(&sc.monitor, &sc.measure) {
                    self.stage = DropdownStage::AwaitWorkspace;
                    TerminalEffect::ActiveWorkspace
                } else {
                    self.finish_with(
                        TerminalEffect::Panic(String::from_str("attempt to add with overflow")),
                    )
                }
            },
            None => self.finish_with(TerminalEffect::Abort),
        }
    }

    /// Advances the run on `reply` and returns what to do next.
    pub fn step(&mut self, reply: TerminalReply) -> (e: TerminalEffect)
        ensures
            (final(self)@, e@) == dropdown_next(old(self)@, reply),
    {
        match self.stage {
            DropdownStage::Start => {
                self.stage = DropdownStage::AwaitScreens;
                TerminalEffect::ListMonitors
            },
            DropdownStage::AwaitScreens => {
                if let TerminalReply::Screens(mut list) = reply {
                    if let Some(i) = find_focused_monitor(&list) {
                        let sc = list.remove(i);
                        self.screen = Some(sc);
                        self.stage = DropdownStage::AwaitRecord;
                        return TerminalEffect::ReadRecord;
                    }
                }
                self.finish_with(TerminalEffect::Panic(String::from_str("Could not get focused monitor")))
            },
            DropdownStage::AwaitRecord => {
                if let TerminalReply::Text(t) = reply {
                    if let Some(a) = stored_address(t.as_str()) {
                        self.address = a;
                        self.stage = DropdownStage::AwaitLookup;
                        return TerminalEffect::ListClients;
                    }
                }
                self.spawn()
            },
            DropdownStage::AwaitLookup => {
                if let TerminalReply::Clients(mut list) = reply {
                    if let Some(i) = find_client(&list, self.address.as_str()) {
                        let c = list.remove(i);
                        match choose_toggle(Some(&c)) {
                            Toggle::Show => {
                                self.client = Some(c);
                                return self.prepare_show();
                            },
                            Toggle::Hide => {
                                if can_hide(&c) {
                                    let steps = hide_terminal(&c);
                                    self.client = Some(c);
                                    self.stage = DropdownStage::Finishing;
                                    return TerminalEffect::Perform(steps);
                                } else {
                                    return self.finish_with(
                                        TerminalEffect::Panic(
                                            String::from_str("attempt to subtract with overflow"),
                                        ),
                                    );
                                }
                            },
                            Toggle::Spawn => {
                                return self.spawn();
                            },
                        }
                    }
                }
                self.spawn()
            },
            DropdownStage::Spawning => {
                self.stage = DropdownStage::AwaitNewest;
                TerminalEffect::ListClients
            },
            DropdownStage::AwaitNewest => {
                if let TerminalReply::Clients(mut list) = reply {
                    match newest_client(&list) {
                        Some(i) => {
                            let record = match &self.screen {
                                Some(sc) => address_record(
                                    list[i].address.as_str(),
                                    sc.monitor.name.as_str(),
                                ),
                                None => {
                                    return self.finish_with(TerminalEffect::Abort);
                                },
                            };
                            let c = list.remove(i);
                            self.client = Some(c);
                            self.stage = DropdownStage::Saving;
                            TerminalEffect::SaveRecord(record)
                        },
                        None => self.finish_with(TerminalEffect::Done),
                    }
                } else {
                    self.finish_with(TerminalEffect::Abort)
                }
            },
            DropdownStage::Saving => {
                if let TerminalReply::Ack = reply {
                    self.prepare_show()
                } else {
                    self.finish_with(TerminalEffect::Abort)
                }
            },
            DropdownStage::AwaitWorkspace => {
                if let TerminalReply::Workspace(ws) = reply {
                    match (&self.screen, &self.client) {
                        (Some(sc), Some(c)) => {
                            if !can_place(&sc.monitor, &sc.measure) {
                                return self.finish_with(
                                    TerminalEffect::Panic(String::from_str("attempt to add with overflow")),
                                );
                            }
                            let p = place_terminal(&sc.monitor, &sc.measure);
                            if can_show(&p) {
                                let steps = show_terminal(c.address.as_str(), ws.id, &p);
                                self.stage = DropdownStage::Finishing;
                                TerminalEffect::Perform(steps)
                            } else {
                                self.finish_with(
                                    TerminalEffect::Panic(
                                        String::from_str("attempt to subtract with overflow"),
                                    ),
                                )
                            }
                        },
                        _ => self.finish_with(TerminalEffect::Abort),
                    }
                } else {
                    self.finish_with(TerminalEffect::Abort)
                }
            },
            DropdownStage::Finishing => self.finish_with(TerminalEffect::Done),
            DropdownStage::Finished => TerminalEffect::Done,
        }
    }
}


/// Steps left before the run is over, at most.
pub open spec fn dropdown_rank(stage: DropdownStage) -> nat {
    match stage {
        DropdownStage::Start => 9,
        DropdownStage::AwaitScreens => 8,
        DropdownStage::AwaitRecord => 7,
        DropdownStage::AwaitLookup => 6,
        DropdownStage::Spawning => 5,
        DropdownStage::AwaitNewest => 4,
        DropdownStage::Saving => 3,
        DropdownStage::AwaitWorkspace => 2,
        DropdownStage::Finishing => 1,
        DropdownStage::Finished => 0,
    }
}

/// Every step before the end brings the run closer to it, and an ended
/// run stays ended.
pub proof fn lemma_dropdown_progress(m: DropdownModel, r: TerminalReply)
    ensures
        ({
            let (n, e) = dropdown_next(m, r);
            &&& !(m.stage is Finished) ==> dropdown_rank(n.stage) < dropdown_rank(m.stage)
            &&& m.stage is Finished ==> n == m && e is Done
        }),
{
}

/// The toggle itself: when the remembered terminal is found, one parked in
/// the scratchpad is brought back (the active workspace is asked for, to
/// show it there), and one elsewhere is slid away and parked.
pub proof fn lemma_dropdown_toggles(m: DropdownModel, list: Vec<Client>, sc: Screen)
    requires
        m.stage is AwaitLookup,
        m.screen == Some(sc),
        client_with_address(list@, m.address) is Some,
    ensures
        ({
            let c = list@[client_with_address(list@, m.address)->0];
            let (n, e) = dropdown_next(m, TerminalReply::Clients(list));
            &&& c.address@ == m.address
            &&& (c.workspace.name@ == scratchpad() && placement_fits(sc.monitor, sc.measure))
                ==> n.stage is AwaitWorkspace && n.client == Some(c) && e is ActiveWorkspace
            &&& (c.workspace.name@ != scratchpad() && hide_fits(c)) ==> e
                == TerminalEffectView::Perform(hide_steps(c))
        }),
{
    let i = client_with_address(list@, m.address)->0;
    assert(crate::terminal::is_first_with_address(list@, m.address, i));
}

/// Shown from the scratchpad or freshly started, the terminal is placed on
/// the active workspace with the steps `show_terminal` plans for it.
pub proof fn lemma_dropdown_shows_chosen_window(m: DropdownModel, ws: Workspace)
    requires
        m.stage is AwaitWorkspace,
        m.screen is Some,
        m.client is Some,
        placement_fits(m.screen->0.monitor, m.screen->0.measure),
        show_fits(placement_of(m.screen->0)),
    ensures
        dropdown_next(m, TerminalReply::Workspace(ws)).1 == TerminalEffectView::Perform(
            show_steps(m.client->0.address@, ws.id, placement_of(m.screen->0)),
        ),
{
}

/// Without a focused monitor the run stops before touching any window.
pub proof fn lemma_dropdown_needs_monitor(m: DropdownModel, r: TerminalReply)
    requires
        m.stage is AwaitScreens,
        !(r matches TerminalReply::Screens(list) && focused_screen(list@) is Some),
    ensures
        dropdown_next(m, r).1 == TerminalEffectView::Panic(no_monitor_message()),
        dropdown_next(m, r).0.stage is Finished,
{
}

/// The state file written after a spawn names the new terminal so that the
/// next run finds it again: reading the record back gives its address
/// (an address is one word, as Hyprland's hexadecimal addresses are).
pub proof fn lemma_dropdown_record_round_trip(m: DropdownModel, list: Vec<Client>)
    requires
        m.stage is AwaitNewest,
        m.screen is Some,
        list@.len() > 0,
    ensures
        ({
            let c = list@[newest_of(list@)->0];
            let (n, e) = dropdown_next(m, TerminalReply::Clients(list));
            &&& n.client == Some(c)
            &&& e == TerminalEffectView::SaveRecord(record_text(c.address@, m.screen->0.monitor.name@))
            &&& (c.address@.len() > 0 && forall|k: int|
                0 <= k < c.address@.len() ==> !crate::text::is_whitespace(#[trigger] c.address@[k]))
                ==> remembered_address(record_text(c.address@, m.screen->0.monitor.name@)) == Some(
                c.address@,
            )
        }),
{
    let c = list@[newest_of(list@)->0];
    if c.address@.len() > 0 && forall|k: int|
        0 <= k < c.address@.len() ==> !crate::text::is_whitespace(#[trigger] c.address@[k]) {
        lemma_record_round_trip(c.address@, m.screen->0.monitor.name@);
    }
}


/// Showing the terminal does not depend on the terminal command: from the
/// stages that lead to the show steps, two runs that differ only in their
/// command take the same next step and produce the same effect, the
/// overflow refusals included.
pub proof fn lemma_dropdown_show_ignores_command(m: DropdownModel, other: Seq<char>, r: TerminalReply)
    requires
        m.stage is AwaitWorkspace || m.stage is Saving,
    ensures
        ({
            let (n1, e1) = dropdown_next(m, r);
            let (n2, e2) = dropdown_next(DropdownModel { command: other, ..m }, r);
            &&& e1 == e2
            &&& n2 == DropdownModel { command: other, ..n1 }
        }),
{
}

} // verus!
