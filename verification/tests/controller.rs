use poideck::clock::UtcInstant;
use poideck::command::Command;
use poideck::controller::{
    Controller, DaemonPoll, Event, Fault, PanelPoll, Phase, Step, POLL_TIMEOUT_MS, PRESSED,
};
use poideck::fix::{Fix, Report, Speed};
use poideck::pages::{BACK_KEY, FORWARD_KEY, KEY_COUNT};
use poideck::recorder::{record, PoiDraft};

fn categories(count: usize) -> Vec<String> {
    (0..count).map(|i| format!("cat{}", i)).collect()
}

fn controller(count: usize) -> Controller {
    Controller::new(categories(count)).unwrap()
}

fn fix_at(secs: i64) -> Fix {
    Fix {
        lat: 47.5f64.to_bits(),
        lon: 19.05f64.to_bits(),
        time: UtcInstant::from_epoch_seconds(secs).unwrap(),
        speed: Speed { mps: 10.0f64.to_bits(), kmh: 36 },
    }
}

fn report_at(secs: i64) -> Report {
    let fix = fix_at(secs);
    Report::Fix3D { lat: fix.lat, lon: fix.lon, time: fix.time, speed: fix.speed }
}

fn draft(category: &str, secs: i64) -> PoiDraft {
    PoiDraft {
        category: category.to_string(),
        lat: 47.5f64.to_bits(),
        lon: 19.05f64.to_bits(),
        epoch_seconds: secs,
    }
}

fn keys(pressed: &[usize]) -> Vec<u8> {
    let mut states = vec![0u8; KEY_COUNT];
    for key in pressed {
        states[*key] = PRESSED;
    }
    states
}

fn quiet(commands: Vec<Command>) -> Step {
    Step { commands, fault: None }
}

fn poll_daemon() -> Command {
    Command::PollDaemon { timeout_ms: POLL_TIMEOUT_MS }
}

fn poll_panel() -> Command {
    Command::PollPanel { timeout_ms: POLL_TIMEOUT_MS }
}

fn page_of(count: usize, page: usize) -> Vec<Command> {
    (0..13)
        .map(|key| {
            let index = page * 13 + key;
            if index < count {
                Command::ShowImage { slot: key as u8, category: format!("cat{}", index) }
            } else {
                Command::Blank { slot: key as u8 }
            }
        })
        .collect()
}

/// Runs the daemon half of a cycle and returns what the daemon answer led to.
fn feed(ctl: &mut Controller, poll: DaemonPoll) -> Step {
    assert_eq!(ctl.step(Event::Wake), quiet(vec![poll_daemon()]));
    ctl.step(Event::Daemon(poll))
}

/// Brings a controller to the point where it awaits a key report.
fn awaiting_keys(count: usize, secs: i64) -> Controller {
    let mut ctl = controller(count);
    feed(&mut ctl, DaemonPoll::Response(report_at(secs)));
    assert_eq!(ctl.phase(), Phase::PollingPanel);
    ctl
}

#[test]
fn polls_time_out_after_ten_milliseconds() {
    assert_eq!(POLL_TIMEOUT_MS, 10);
}

#[test]
fn no_controller_without_categories() {
    assert!(Controller::new(Vec::new()).is_none());
}

#[test]
fn new_controller_is_idle_on_page_zero_without_fix() {
    let ctl = controller(19);
    assert_eq!(ctl.phase(), Phase::Idle);
    assert_eq!(ctl.current_fix(), None);
    assert_eq!(ctl.pages().current_page(), 0);
    assert_eq!(ctl.pages().page_count(), 2);
}

#[test]
fn start_resets_draws_watches_and_counts() {
    let mut ctl = controller(19);
    let mut expected = vec![Command::ResetPanel];
    expected.extend(page_of(19, 0));
    expected.push(Command::WatchDaemon { timeout_ms: 10 });
    expected.push(Command::RefreshCounters);
    assert_eq!(ctl.start(), expected);
    assert_eq!(ctl.phase(), Phase::Idle);
    assert_eq!(ctl.pages().current_page(), 0);
}

#[test]
fn waking_polls_the_daemon() {
    let mut ctl = controller(19);
    assert_eq!(ctl.step(Event::Wake), quiet(vec![poll_daemon()]));
    assert_eq!(ctl.phase(), Phase::PollingDaemon);
}

#[test]
fn daemon_timeout_without_fix_ends_the_cycle() {
    let mut ctl = controller(19);
    assert_eq!(feed(&mut ctl, DaemonPoll::Timeout), quiet(vec![]));
    assert_eq!(ctl.phase(), Phase::Idle);
    assert_eq!(feed(&mut ctl, DaemonPoll::Malformed), quiet(vec![]));
    assert_eq!(ctl.phase(), Phase::Idle);
    assert_eq!(ctl.current_fix(), None);
}

#[test]
fn message_without_fix_shows_the_host_address() {
    let mut ctl = controller(19);
    let step = feed(&mut ctl, DaemonPoll::Response(Report::Other));
    assert_eq!(step, quiet(vec![Command::ShowHostAddress]));
    assert_eq!(ctl.phase(), Phase::Idle);
    assert_eq!(ctl.current_fix(), None);
}

#[test]
fn report_with_fix_shows_status_and_polls_the_panel() {
    let mut ctl = controller(19);
    let step = feed(&mut ctl, DaemonPoll::Response(report_at(1_700_000_000)));
    let status = Command::ShowStatus { text: "36 km/h\n22:13:20".to_string() };
    assert_eq!(step, quiet(vec![status, poll_panel()]));
    assert_eq!(ctl.phase(), Phase::PollingPanel);
    assert_eq!(ctl.current_fix(), Some(fix_at(1_700_000_000)));
}

#[test]
fn later_messages_keep_and_show_the_last_fix() {
    let mut ctl = awaiting_keys(19, 60);
    assert_eq!(ctl.step(Event::Panel(PanelPoll::Timeout)), quiet(vec![]));
    let step = feed(&mut ctl, DaemonPoll::Response(Report::Other));
    let status = Command::ShowStatus { text: "36 km/h\n00:01:00".to_string() };
    assert_eq!(step, quiet(vec![status, poll_panel()]));
    assert_eq!(ctl.current_fix(), Some(fix_at(60)));
}

#[test]
fn daemon_timeout_with_fix_still_polls_the_panel() {
    let mut ctl = awaiting_keys(19, 60);
    assert_eq!(ctl.step(Event::Panel(PanelPoll::Timeout)), quiet(vec![]));
    assert_eq!(ctl.phase(), Phase::Idle);
    assert_eq!(feed(&mut ctl, DaemonPoll::Timeout), quiet(vec![poll_panel()]));
    assert_eq!(ctl.phase(), Phase::PollingPanel);
}

#[test]
fn lost_daemon_is_a_fault() {
    let mut ctl = controller(19);
    let step = feed(&mut ctl, DaemonPoll::Lost);
    assert_eq!(step, Step { commands: vec![], fault: Some(Fault::DaemonLost) });
}

#[test]
fn lost_panel_is_a_fault() {
    let mut ctl = awaiting_keys(19, 60);
    let step = ctl.step(Event::Panel(PanelPoll::Lost));
    assert_eq!(step, Step { commands: vec![], fault: Some(Fault::PanelLost) });
}

#[test]
fn pressed_category_key_stores_the_fix_and_refreshes_counters() {
    let mut ctl = awaiting_keys(19, 1_700_000_000);
    let step = ctl.step(Event::Panel(PanelPoll::Buttons(keys(&[10]))));
    let expected = vec![
        Command::InsertPoi { draft: draft("cat10", 1_700_000_000) },
        Command::RefreshCounters,
    ];
    assert_eq!(step, quiet(expected));
    assert_eq!(ctl.phase(), Phase::Idle);
}

#[test]
fn several_pressed_keys_store_one_point_each_in_key_order() {
    let mut ctl = awaiting_keys(19, 5);
    let step = ctl.step(Event::Panel(PanelPoll::Buttons(keys(&[12, 0, 3]))));
    let expected = vec![
        Command::InsertPoi { draft: draft("cat0", 5) },
        Command::RefreshCounters,
        Command::InsertPoi { draft: draft("cat3", 5) },
        Command::RefreshCounters,
        Command::InsertPoi { draft: draft("cat12", 5) },
        Command::RefreshCounters,
    ];
    assert_eq!(step, quiet(expected));
}

#[test]
fn key_held_across_cycles_stores_a_point_in_every_cycle() {
    let mut ctl = controller(19);
    let mut stored = 0;
    for cycle in 0..4i64 {
        feed(&mut ctl, DaemonPoll::Response(report_at(100 + cycle)));
        let step = ctl.step(Event::Panel(PanelPoll::Buttons(keys(&[2]))));
        assert_eq!(
            step,
            quiet(vec![
                Command::InsertPoi { draft: draft("cat2", 100 + cycle) },
                Command::RefreshCounters
            ])
        );
        stored += 1;
    }
    assert_eq!(stored, 4);
}

#[test]
fn only_the_exact_pressed_state_counts() {
    let mut ctl = awaiting_keys(19, 5);
    let mut states = keys(&[]);
    states[4] = 2;
    states[5] = 255;
    assert_eq!(ctl.step(Event::Panel(PanelPoll::Buttons(states))), quiet(vec![]));
}

#[test]
fn empty_keys_are_inert() {
    let mut ctl = awaiting_keys(19, 5);
    ctl.step(Event::Panel(PanelPoll::Buttons(keys(&[FORWARD_KEY]))));
    feed(&mut ctl, DaemonPoll::Timeout);
    let step = ctl.step(Event::Panel(PanelPoll::Buttons(keys(&[5, 6, 12]))));
    let expected =
        vec![Command::InsertPoi { draft: draft("cat18", 5) }, Command::RefreshCounters];
    assert_eq!(step, quiet(expected));
}

#[test]
fn key_reports_before_the_first_fix_are_inert() {
    let mut ctl = controller(19);
    let all: Vec<usize> = (0..KEY_COUNT).collect();
    assert_eq!(ctl.step(Event::Panel(PanelPoll::Buttons(keys(&all)))), quiet(vec![]));
    feed(&mut ctl, DaemonPoll::Response(Report::Other));
    assert_eq!(ctl.step(Event::Panel(PanelPoll::Buttons(keys(&all)))), quiet(vec![]));
    feed(&mut ctl, DaemonPoll::Timeout);
    assert_eq!(ctl.step(Event::Panel(PanelPoll::Buttons(keys(&all)))), quiet(vec![]));
    assert_eq!(ctl.pages().current_page(), 0);
    assert_eq!(ctl.current_fix(), None);
}

#[test]
fn record_needs_a_fix() {
    assert_eq!(record("bench", None), None);
    assert_eq!(record("bench", Some(fix_at(1_700_000_000))), Some(draft("bench", 1_700_000_000)));
}

#[test]
fn forward_key_turns_and_redraws_the_page() {
    let mut ctl = awaiting_keys(19, 5);
    let step = ctl.step(Event::Panel(PanelPoll::Buttons(keys(&[FORWARD_KEY]))));
    assert_eq!(step, quiet(page_of(19, 1)));
    assert_eq!(ctl.pages().current_page(), 1);
}

#[test]
fn back_key_wraps_to_the_last_page() {
    let mut ctl = awaiting_keys(27, 5);
    let step = ctl.step(Event::Panel(PanelPoll::Buttons(keys(&[BACK_KEY]))));
    assert_eq!(step, quiet(page_of(27, 2)));
    assert_eq!(ctl.pages().current_page(), 2);
}

#[test]
fn both_paging_keys_redraw_twice_and_return() {
    let mut ctl = awaiting_keys(27, 5);
    let step = ctl.step(Event::Panel(PanelPoll::Buttons(keys(&[BACK_KEY, FORWARD_KEY]))));
    let mut expected = page_of(27, 2);
    expected.extend(page_of(27, 0));
    assert_eq!(step, quiet(expected));
    assert_eq!(ctl.pages().current_page(), 0);
}

#[test]
fn presses_are_read_before_the_page_turns() {
    let mut ctl = awaiting_keys(19, 5);
    let step = ctl.step(Event::Panel(PanelPoll::Buttons(keys(&[1, FORWARD_KEY]))));
    let mut expected =
        vec![Command::InsertPoi { draft: draft("cat1", 5) }, Command::RefreshCounters];
    expected.extend(page_of(19, 1));
    assert_eq!(step, quiet(expected));
}

#[test]
fn single_page_redraws_in_place() {
    let mut ctl = awaiting_keys(13, 5);
    let step = ctl.step(Event::Panel(PanelPoll::Buttons(keys(&[FORWARD_KEY]))));
    assert_eq!(step, quiet(page_of(13, 0)));
    assert_eq!(ctl.pages().current_page(), 0);
}

#[test]
fn report_too_short_for_a_category_key_is_a_fault() {
    let mut ctl = awaiting_keys(19, 5);
    let states = vec![PRESSED, 0, PRESSED];
    let step = ctl.step(Event::Panel(PanelPoll::Buttons(states)));
    let expected = vec![
        Command::InsertPoi { draft: draft("cat0", 5) },
        Command::RefreshCounters,
        Command::InsertPoi { draft: draft("cat2", 5) },
        Command::RefreshCounters,
    ];
    assert_eq!(step, Step { commands: expected, fault: Some(Fault::MissingKey { key: 3 }) });
    assert_eq!(ctl.phase(), Phase::Idle);
}

#[test]
fn report_too_short_for_the_paging_keys_is_a_fault() {
    let mut ctl = awaiting_keys(19, 5);
    let step = ctl.step(Event::Panel(PanelPoll::Buttons(vec![0u8; 13])));
    assert_eq!(step, Step { commands: vec![], fault: Some(Fault::MissingKey { key: BACK_KEY }) });

    let mut ctl = awaiting_keys(19, 5);
    let mut states = vec![0u8; 14];
    states[BACK_KEY] = PRESSED;
    let step = ctl.step(Event::Panel(PanelPoll::Buttons(states)));
    let expected = Step {
        commands: page_of(19, 1),
        fault: Some(Fault::MissingKey { key: FORWARD_KEY }),
    };
    assert_eq!(step, expected);
    assert_eq!(ctl.pages().current_page(), 1);
}

#[test]
fn short_report_is_enough_where_no_category_key_is_missing() {
    let mut ctl = awaiting_keys(19, 5);
    ctl.step(Event::Panel(PanelPoll::Buttons(keys(&[FORWARD_KEY]))));
    feed(&mut ctl, DaemonPoll::Timeout);
    let step = ctl.step(Event::Panel(PanelPoll::Buttons(vec![0u8; 6])));
    assert_eq!(step, Step { commands: vec![], fault: Some(Fault::MissingKey { key: BACK_KEY }) });
}

#[test]
fn events_out_of_turn_change_nothing() {
    let mut ctl = controller(19);
    assert_eq!(ctl.step(Event::Daemon(DaemonPoll::Response(report_at(5)))), quiet(vec![]));
    assert_eq!(ctl.step(Event::Daemon(DaemonPoll::Lost)), quiet(vec![]));
    assert_eq!(ctl.step(Event::Panel(PanelPoll::Lost)), quiet(vec![]));
    assert_eq!(ctl.phase(), Phase::Idle);
    assert_eq!(ctl.current_fix(), None);

    ctl.step(Event::Wake);
    assert_eq!(ctl.step(Event::Wake), quiet(vec![]));
    assert_eq!(ctl.step(Event::Panel(PanelPoll::Buttons(keys(&[0])))), quiet(vec![]));
    assert_eq!(ctl.phase(), Phase::PollingDaemon);

    ctl.step(Event::Daemon(DaemonPoll::Response(report_at(5))));
    assert_eq!(ctl.step(Event::Wake), quiet(vec![]));
    assert_eq!(ctl.step(Event::Daemon(DaemonPoll::Lost)), quiet(vec![]));
    assert_eq!(ctl.phase(), Phase::PollingPanel);
    assert_eq!(ctl.current_fix(), Some(fix_at(5)));
}

#[test]
fn cycle_runs_idle_daemon_panel_idle() {
    let mut ctl = controller(19);
    let mut phases = vec![ctl.phase()];
    ctl.step(Event::Wake);
    phases.push(ctl.phase());
    ctl.step(Event::Daemon(DaemonPoll::Response(report_at(5))));
    phases.push(ctl.phase());
    ctl.step(Event::Panel(PanelPoll::Timeout));
    phases.push(ctl.phase());
    assert_eq!(phases, vec![Phase::Idle, Phase::PollingDaemon, Phase::PollingPanel, Phase::Idle]);
}

/// What the paged keys show after `commands` have been carried out.
fn paint(faces: &mut Vec<Option<String>>, commands: &[Command]) {
    for command in commands {
        match command {
            Command::ResetPanel => faces.iter_mut().for_each(|face| *face = None),
            Command::ShowImage { slot, category } => faces[*slot as usize] = Some(category.clone()),
            Command::Blank { slot } => faces[*slot as usize] = None,
            _ => {}
        }
    }
}

fn shown(ctl: &Controller) -> Vec<Option<String>> {
    (0..13)
        .map(|key| match ctl.pages().slot_at(key) {
            poideck::pages::SlotContent::Category(name) => Some(name),
            _ => None,
        })
        .collect()
}

#[test]
fn panel_always_shows_the_page_in_use() {
    let mut ctl = controller(30);
    let mut faces: Vec<Option<String>> = vec![Some("stale".to_string()); 13];
    paint(&mut faces, &ctl.start());
    assert_eq!(faces, shown(&ctl));

    let reports: Vec<Vec<u8>> = vec![
        keys(&[FORWARD_KEY]),
        keys(&[0, 5]),
        keys(&[FORWARD_KEY]),
        keys(&[BACK_KEY, FORWARD_KEY]),
        keys(&[FORWARD_KEY]),
        keys(&[BACK_KEY]),
        vec![0u8; 4],
        keys(&[BACK_KEY, 3]),
    ];
    for (cycle, states) in reports.into_iter().enumerate() {
        let daemon = feed(&mut ctl, DaemonPoll::Response(report_at(cycle as i64)));
        paint(&mut faces, &daemon.commands);
        assert_eq!(faces, shown(&ctl));
        let step = ctl.step(Event::Panel(PanelPoll::Buttons(states)));
        paint(&mut faces, &step.commands);
        assert_eq!(faces, shown(&ctl));
    }
    assert_eq!(ctl.pages().current_page(), 1);
}
