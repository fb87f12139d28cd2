//! The polling cycle: one state machine that takes device events in and
//! hands requests out.
//!
//! A cycle runs `Idle`, `PollingDaemon`, `PollingPanel`, `Idle`. The host
//! wakes the controller, performs the poll it asks for and feeds the answer
//! back; the panel is polled only in cycles that have a fix.

use vstd::prelude::*;
use crate::command::{
    command_views, lemma_views_concat, lemma_views_push, Command, CommandView,
};
use crate::fix::{after_report, Fix, FixTracker, Report};
use crate::pages::{
    names_of, page_count_of, page_draws, slot_on_page, turned, Direction, PageManager,
    SlotContent, SlotView, BACK_KEY, BUTTONS_PER_PAGE, FORWARD_KEY,
};
use crate::recorder::{draft_of, record};
use crate::status::{fix_status, fix_text};

verus! {

/// How long a poll of either device may wait, in milliseconds.
pub const POLL_TIMEOUT_MS: u64 = 10;

/// The key state that reads as pressed.
pub const PRESSED: u8 = 1;

/// Where the controller is in its cycle.
#[derive(Clone, Copy, Debug, PartialEq, Eq, Structural)]
pub enum Phase {
    /// Between cycles.
    Idle,
    /// Waiting for the answer to a daemon poll.
    PollingDaemon,
    /// Waiting for the answer to a panel poll.
    PollingPanel,
}

/// How a daemon poll ended.
#[derive(Clone, Copy, Debug, PartialEq, Eq, Structural)]
pub enum DaemonPoll {
    /// Nothing arrived in time.
    Timeout,
    /// A line arrived that is no daemon message.
    Malformed,
    /// A daemon message arrived.
    Response(Report),
    /// The connection failed or was closed.
    Lost,
}

/// How a panel poll ended.
#[derive(Debug, PartialEq, Eq)]
pub enum PanelPoll {
    /// No key report arrived in time.
    Timeout,
    /// The state of every key, indexed by key number.
    Buttons(Vec<u8>),
    /// The panel failed or was unplugged.
    Lost,
}

/// What the host feeds to the controller.
#[derive(Debug, PartialEq, Eq)]
pub enum Event {
    /// Start the next cycle.
    Wake,
    /// The answer to `PollDaemon`.
    Daemon(DaemonPoll),
    /// The answer to `PollPanel`.
    Panel(PanelPoll),
}

/// A panel poll as a mathematical value.
pub enum PanelPollView {
    Timeout,
    Buttons(Seq<u8>),
    Lost,
}

/// An event as a mathematical value.
pub enum EventView {
    Wake,
    Daemon(DaemonPoll),
    Panel(PanelPollView),
}

impl View for PanelPoll {
    type V = PanelPollView;

    open spec fn view(&self) -> PanelPollView {
        match *self {
            PanelPoll::Timeout => PanelPollView::Timeout,
            PanelPoll::Buttons(states) => PanelPollView::Buttons(states@),
            PanelPoll::Lost => PanelPollView::Lost,
        }
    }
}

impl View for Event {
    type V = EventView;

    open spec fn view(&self) -> EventView {
        match *self {
            Event::Wake => EventView::Wake,
            Event::Daemon(poll) => EventView::Daemon(poll),
            Event::Panel(poll) => EventView::Panel(poll@),
        }
    }
}

/// A condition after which the host must stop.
#[derive(Clone, Copy, Debug, PartialEq, Eq, Structural)]
pub enum Fault {
    /// The daemon connection is gone.
    DaemonLost,
    /// The panel is gone.
    PanelLost,
    /// The key report has no entry for a key that had to be read.
    MissingKey { key: usize },
}

/// What one event led to: requests to carry out in order and, after them,
/// possibly a fault.
#[derive(Debug, PartialEq, Eq)]
pub struct Step {
    pub commands: Vec<Command>,
    pub fault: Option<Fault>,
}

/// Requests and fault as mathematical values.
pub struct Outcome {
    pub commands: Seq<CommandView>,
    pub fault: Option<Fault>,
}

impl View for Step {
    type V = Outcome;

    open spec fn view(&self) -> Outcome {
        Outcome { commands: command_views(self.commands@), fault: self.fault }
    }
}

/// The controller as a mathematical value.
pub struct ControllerView {
    pub phase: Phase,
    pub fix: Option<Fix>,
    pub categories: Seq<Seq<char>>,
    pub page: nat,
}

/// A state together with what the step into it asks of the host.
pub struct Transition {
    pub next: ControllerView,
    pub outcome: Outcome,
}

/// The two requests that answer one press of a category key.
pub open spec fn press_commands(name: Seq<char>, fix: Fix) -> Seq<CommandView> {
    seq![CommandView::InsertPoi { draft: draft_of(name, fix) }, CommandView::RefreshCounters]
}

/// The outcome of reading the paged keys below `upto`, in key order.
///
/// Only keys that show a category are read. Each one that reads as pressed
/// is answered by an insert and a counter refresh. A category key that the
/// report does not cover is a fault, and ends the reading.
///
/// Nothing is remembered from one report to the next: a key that is held
/// down reads as pressed in every report, and is answered once per report.
pub open spec fn scanned(
    categories: Seq<Seq<char>>,
    page: nat,
    states: Seq<u8>,
    fix: Fix,
    upto: nat,
) -> Outcome
    decreases upto,
{
    if upto == 0 {
        Outcome { commands: Seq::empty(), fault: None }
    } else {
        let key = upto - 1;
        let before = scanned(categories, page, states, fix, key as nat);
        if before.fault is Some {
            before
        } else {
            match slot_on_page(categories, page, key) {
                SlotView::Category(name) => if key >= states.len() {
                    Outcome {
                        commands: before.commands,
                        fault: Some(Fault::MissingKey { key: key as usize }),
                    }
                } else if states[key] == PRESSED {
                    Outcome {
                        commands: before.commands + press_commands(name, fix),
                        fault: None,
                    }
                } else {
                    before
                },
                _ => before,
            }
        }
    }
}

/// A state and outcome after one of the two paging keys has been read.
pub open spec fn paged(
    state: ControllerView,
    so_far: Outcome,
    states: Seq<u8>,
    key: int,
    direction: Direction,
) -> Transition {
    if so_far.fault is Some {
        Transition { next: state, outcome: so_far }
    } else if key >= states.len() {
        Transition {
            next: state,
            outcome: Outcome {
                commands: so_far.commands,
                fault: Some(Fault::MissingKey { key: key as usize }),
            },
        }
    } else if states[key] == PRESSED {
        let target = turned(state.page, page_count_of(state.categories.len()), direction);
        Transition {
            next: ControllerView {
                phase: state.phase,
                fix: state.fix,
                categories: state.categories,
                page: target,
            },
            outcome: Outcome {
                commands: so_far.commands + page_draws(state.categories, target),
                fault: None,
            },
        }
    } else {
        Transition { next: state, outcome: so_far }
    }
}

/// The state with another phase.
pub open spec fn in_phase(state: ControllerView, phase: Phase) -> ControllerView {
    ControllerView { phase, fix: state.fix, categories: state.categories, page: state.page }
}

/// The state with another fix.
pub open spec fn with_fix(state: ControllerView, fix: Option<Fix>) -> ControllerView {
    ControllerView { phase: state.phase, fix, categories: state.categories, page: state.page }
}

/// The end of the daemon half of a cycle: with a fix the panel is polled
/// next, without one the cycle is over.
pub open spec fn settled(state: ControllerView, commands: Seq<CommandView>) -> Transition {
    if state.fix is Some {
        Transition {
            next: in_phase(state, Phase::PollingPanel),
            outcome: Outcome {
                commands: commands.push(CommandView::PollPanel { timeout_ms: POLL_TIMEOUT_MS }),
                fault: None,
            },
        }
    } else {
        Transition {
            next: in_phase(state, Phase::Idle),
            outcome: Outcome { commands, fault: None },
        }
    }
}

/// The request that refreshes the status slot.
pub open spec fn status_command(fix: Option<Fix>) -> CommandView {
    match fix {
        Some(fix) => CommandView::ShowStatus { text: fix_status(fix) },
        None => CommandView::ShowHostAddress,
    }
}

/// The step taken on the answer to a daemon poll.
///
/// A message updates the fix and refreshes the status slot; silence and
/// noise change nothing; a lost connection is a fault.
pub open spec fn daemon_step(state: ControllerView, poll: DaemonPoll) -> Transition {
    match poll {
        DaemonPoll::Timeout => settled(state, Seq::empty()),
        DaemonPoll::Malformed => settled(state, Seq::empty()),
        DaemonPoll::Response(report) => {
            let fix = after_report(state.fix, report);
            settled(with_fix(state, fix), seq![status_command(fix)])
        },
        DaemonPoll::Lost => Transition {
            next: in_phase(state, Phase::Idle),
            outcome: Outcome { commands: Seq::empty(), fault: Some(Fault::DaemonLost) },
        },
    }
}

/// The step taken on a key report: the paged keys first, then the back key,
/// then the forward key. Without a fix every key is inert.
pub open spec fn buttons_step(state: ControllerView, states: Seq<u8>) -> Transition {
    let idle = in_phase(state, Phase::Idle);
    match state.fix {
        None => Transition {
            next: idle,
            outcome: Outcome { commands: Seq::empty(), fault: None },
        },
        Some(fix) => {
            let scan = scanned(
                state.categories,
                state.page,
                states,
                fix,
                BUTTONS_PER_PAGE as nat,
            );
            let back = paged(idle, scan, states, BACK_KEY as int, Direction::Back);
            paged(back.next, back.outcome, states, FORWARD_KEY as int, Direction::Forward)
        },
    }
}

/// The step taken on the answer to a panel poll.
pub open spec fn panel_step(state: ControllerView, poll: PanelPollView) -> Transition {
    match poll {
        PanelPollView::Timeout => Transition {
            next: in_phase(state, Phase::Idle),
            outcome: Outcome { commands: Seq::empty(), fault: None },
        },
        PanelPollView::Buttons(states) => buttons_step(state, states),
        PanelPollView::Lost => Transition {
            next: in_phase(state, Phase::Idle),
            outcome: Outcome { commands: Seq::empty(), fault: Some(Fault::PanelLost) },
        },
    }
}

/// The step taken on any event in any state. An event that does not answer
/// the poll in flight changes nothing and asks for nothing.
pub open spec fn step_of(state: ControllerView, event: EventView) -> Transition {
    match (state.phase, event) {
        (Phase::Idle, EventView::Wake) => Transition {
            next: in_phase(state, Phase::PollingDaemon),
            outcome: Outcome {
                commands: seq![CommandView::PollDaemon { timeout_ms: POLL_TIMEOUT_MS }],
                fault: None,
            },
        },
        (Phase::PollingDaemon, EventView::Daemon(poll)) => daemon_step(state, poll),
        (Phase::PollingPanel, EventView::Panel(poll)) => panel_step(state, poll),
        _ => Transition {
            next: state,
            outcome: Outcome { commands: Seq::empty(), fault: None },
        },
    }
}

/// The requests that bring the devices up: reset the panel, draw page 0,
/// start the daemon stream, show the counters.
pub open spec fn start_commands(categories: Seq<Seq<char>>) -> Seq<CommandView> {
    seq![CommandView::ResetPanel] + page_draws(categories, 0) + seq![
        CommandView::WatchDaemon { timeout_ms: POLL_TIMEOUT_MS },
        CommandView::RefreshCounters,
    ]
}

/// The survey controller: the fix tracker, the page manager and the phase of
/// the polling cycle.
pub struct Controller {
    phase: Phase,
    tracker: FixTracker,
    pages: PageManager,
}

impl View for Controller {
    type V = ControllerView;

    closed spec fn view(&self) -> ControllerView {
        ControllerView {
            phase: self.phase,
            fix: self.tracker.held(),
            categories: self.pages.categories(),
            page: self.pages.page(),
        }
    }
}

/// Once a fault has ended the reading, the remaining keys add nothing.
proof fn lemma_fault_ends_scan(
    categories: Seq<Seq<char>>,
    page: nat,
    states: Seq<u8>,
    fix: Fix,
    at: nat,
    upto: nat,
)
    requires
        at <= upto,
        scanned(categories, page, states, fix, at).fault is Some,
    ensures
        scanned(categories, page, states, fix, upto) == scanned(categories, page, states, fix, at),
    decreases upto,
{
    if at < upto {
        lemma_fault_ends_scan(categories, page, states, fix, at, (upto - 1) as nat);
    }
}

/// Reads the paged keys of the page on show.
fn scan_presses(pages: &PageManager, states: &Vec<u8>, fix: Fix) -> (step: Step)
    ensures
        step@ == scanned(pages.categories(), pages.page(), states@, fix, BUTTONS_PER_PAGE as nat),
{
    let ghost categories = pages.categories();
    let ghost page = pages.page();
    let mut commands: Vec<Command> = Vec::new();
    let mut key: usize = 0;
    assert(command_views(commands@) =~= Seq::empty());
    while key < BUTTONS_PER_PAGE
        invariant
            key <= BUTTONS_PER_PAGE,
            categories == pages.categories(),
            page == pages.page(),
            scanned(categories, page, states@, fix, key as nat) == (Outcome {
                commands: command_views(commands@),
                fault: None,
            }),
        decreases BUTTONS_PER_PAGE - key,
    {
        match pages.slot_at(key) {
            SlotContent::Category(name) => {
                if key >= states.len() {
                    proof {
                        lemma_fault_ends_scan(
                            categories,
                            page,
                            states@,
                            fix,
                            (key + 1) as nat,
                            BUTTONS_PER_PAGE as nat,
                        );
                    }
                    return Step { commands, fault: Some(Fault::MissingKey { key }) };
                }
                if states[key] == PRESSED {
                    match record(name.as_str(), Some(fix)) {
                        Some(draft) => {
                            let ghost before = commands@;
                            let insert = Command::InsertPoi { draft };
                            let ghost middle = before.push(insert);
                            commands.push(insert);
                            commands.push(Command::RefreshCounters);
                            proof {
                                lemma_views_push(before, insert);
                                lemma_views_push(middle, Command::RefreshCounters);
                                assert(command_views(commands@) =~= command_views(before)
                                    + press_commands(name@, fix));
                            }
                        },
                        None => {},
                    }
                }
            },
            _ => {},
        }
        key = key + 1;
    }
    Step { commands, fault: None }
}

impl Controller {
    /// A controller for `categories`, between cycles, on page 0 and without
    /// a fix. There is no controller for an empty list.
    pub fn new(categories: Vec<String>) -> (controller: Option<Controller>)
        ensures
            controller is Some <==> categories@.len() > 0,
            controller matches Some(c) ==> c@ == (ControllerView {
                phase: Phase::Idle,
                fix: None,
                categories: names_of(categories@),
                page: 0,
            }),
    {
        match PageManager::new(categories) {
            Some(pages) => Some(Controller { phase: Phase::Idle, tracker: FixTracker::new(), pages }),
            None => None,
        }
    }

    /// Where the controller is in its cycle.
    pub fn phase(&self) -> (phase: Phase)
        ensures
            phase == self@.phase,
    {
        self.phase
    }

    /// The last known fix.
    pub fn current_fix(&self) -> (fix: Option<Fix>)
        ensures
            fix == self@.fix,
    {
        self.tracker.current()
    }

    /// The page manager, for reading.
    pub fn pages(&self) -> (pages: &PageManager)
        ensures
            pages.categories() == self@.categories,
            pages.page() == self@.page,
    {
        &self.pages
    }

    /// Brings the devices up. Page 0 goes on show; phase and fix stay.
    pub fn start(&mut self) -> (commands: Vec<Command>)
        ensures
            command_views(commands@) == start_commands(old(self)@.categories),
            final(self)@ == (ControllerView {
                phase: old(self)@.phase,
                fix: old(self)@.fix,
                categories: old(self)@.categories,
                page: 0,
            }),
    {
        proof {
            use_type_invariant(&self.pages);
            self.pages.lemma_well_formed();
        }
        let mut commands: Vec<Command> = Vec::new();
        commands.push(Command::ResetPanel);
        let ghost head = commands@;
        let mut draws = self.pages.render_page(0);
        let ghost middle = draws@;
        commands.append(&mut draws);
        let ghost body = commands@;
        let watch = Command::WatchDaemon { timeout_ms: POLL_TIMEOUT_MS };
        commands.push(watch);
        commands.push(Command::RefreshCounters);
        proof {
            lemma_views_concat(head, middle);
            lemma_views_push(body, watch);
            lemma_views_push(body.push(watch), Command::RefreshCounters);
            assert(command_views(head) =~= seq![CommandView::ResetPanel]);
            assert(command_views(commands@) =~= start_commands(old(self)@.categories));
        }
        commands
    }

    /// Ends the daemon half of a cycle.
    fn settle(&mut self, commands: Vec<Command>) -> (step: Step)
        ensures
            (Transition { next: final(self)@, outcome: step@ }) == settled(
                old(self)@,
                command_views(commands@),
            ),
    {
        let mut commands = commands;
        if self.tracker.current().is_some() {
            let ghost before = commands@;
            let poll = Command::PollPanel { timeout_ms: POLL_TIMEOUT_MS };
            commands.push(poll);
            proof {
                lemma_views_push(before, poll);
            }
            self.phase = Phase::PollingPanel;
        } else {
            self.phase = Phase::Idle;
        }
        Step { commands, fault: None }
    }

    /// Takes the answer to a daemon poll.
    fn daemon_polled(&mut self, poll: DaemonPoll) -> (step: Step)
        ensures
            (Transition { next: final(self)@, outcome: step@ }) == daemon_step(old(self)@, poll),
    {
        match poll {
            DaemonPoll::Timeout => {
                let commands: Vec<Command> = Vec::new();
                assert(command_views(commands@) =~= Seq::empty());
                self.settle(commands)
            },
            DaemonPoll::Malformed => {
                let commands: Vec<Command> = Vec::new();
                assert(command_views(commands@) =~= Seq::empty());
                self.settle(commands)
            },
            DaemonPoll::Response(report) => {
                self.tracker.ingest(&report);
                let status = match self.tracker.current() {
                    Some(fix) => Command::ShowStatus { text: fix_text(&fix) },
                    None => Command::ShowHostAddress,
                };
                let mut commands: Vec<Command> = Vec::new();
                commands.push(status);
                assert(command_views(commands@) =~= seq![status_command(self.tracker.held())]);
                self.settle(commands)
            },
            DaemonPoll::Lost => {
                self.phase = Phase::Idle;
                let commands: Vec<Command> = Vec::new();
                assert(command_views(commands@) =~= Seq::empty());
                Step { commands, fault: Some(Fault::DaemonLost) }
            },
        }
    }

    /// Reads one of the two paging keys.
    fn page_key(&mut self, so_far: Step, states: &Vec<u8>, key: usize, direction: Direction) -> (step:
        Step)
        ensures
            (Transition { next: final(self)@, outcome: step@ }) == paged(
                old(self)@,
                so_far@,
                states@,
                key as int,
                direction,
            ),
    {
        if so_far.fault.is_some() {
            return so_far;
        }
        let mut commands = so_far.commands;
        if key >= states.len() {
            return Step { commands, fault: Some(Fault::MissingKey { key }) };
        }
        if states[key] == PRESSED {
            let ghost before = commands@;
            let target = self.pages.navigate(direction);
            let mut draws = self.pages.render_page(target);
            let ghost drawn = draws@;
            commands.append(&mut draws);
            proof {
                lemma_views_concat(before, drawn);
            }
        }
        Step { commands, fault: None }
    }

    /// Takes a key report.
    fn buttons_read(&mut self, states: &Vec<u8>) -> (step: Step)
        ensures
            (Transition { next: final(self)@, outcome: step@ }) == buttons_step(old(self)@, states@),
    {
        self.phase = Phase::Idle;
        match self.tracker.current() {
            None => {
                let commands: Vec<Command> = Vec::new();
                assert(command_views(commands@) =~= Seq::empty());
                Step { commands, fault: None }
            },
            Some(fix) => {
                let scan = scan_presses(&self.pages, states, fix);
                let back = self.page_key(scan, states, BACK_KEY, Direction::Back);
                self.page_key(back, states, FORWARD_KEY, Direction::Forward)
            },
        }
    }

    /// Takes the answer to a panel poll.
    fn panel_polled(&mut self, poll: PanelPoll) -> (step: Step)
        ensures
            (Transition { next: final(self)@, outcome: step@ }) == panel_step(old(self)@, poll@),
    {
        match poll {
            PanelPoll::Timeout => {
                self.phase = Phase::Idle;
                let commands: Vec<Command> = Vec::new();
                assert(command_views(commands@) =~= Seq::empty());
                Step { commands, fault: None }
            },
            PanelPoll::Buttons(states) => self.buttons_read(&states),
            PanelPoll::Lost => {
                self.phase = Phase::Idle;
                let commands: Vec<Command> = Vec::new();
                assert(command_views(commands@) =~= Seq::empty());
                Step { commands, fault: Some(Fault::PanelLost) }
            },
        }
    }

    /// Takes one event and says what to do next.
    pub fn step(&mut self, event: Event) -> (step: Step)
        ensures
            (Transition { next: final(self)@, outcome: step@ }) == step_of(old(self)@, event@),
    {
        match event {
            Event::Wake => {
                let mut commands: Vec<Command> = Vec::new();
                if self.phase == Phase::Idle {
                    self.phase = Phase::PollingDaemon;
                    commands.push(Command::PollDaemon { timeout_ms: POLL_TIMEOUT_MS });
                    assert(command_views(commands@) =~= seq![
                        CommandView::PollDaemon { timeout_ms: POLL_TIMEOUT_MS },
                    ]);
                } else {
                    assert(command_views(commands@) =~= Seq::empty());
                }
                Step { commands, fault: None }
            },
            Event::Daemon(poll) => {
                if self.phase == Phase::PollingDaemon {
                    self.daemon_polled(poll)
                } else {
                    let commands: Vec<Command> = Vec::new();
                    assert(command_views(commands@) =~= Seq::empty());
                    Step { commands, fault: None }
                }
            },
            Event::Panel(poll) => {
                if self.phase == Phase::PollingPanel {
                    self.panel_polled(poll)
                } else {
                    let commands: Vec<Command> = Vec::new();
                    assert(command_views(commands@) =~= Seq::empty());
                    Step { commands, fault: None }
                }
            },
        }
    }
}

} // verus!
