//! What holds of every step of the controller.

use vstd::prelude::*;
use crate::command::CommandView;
use crate::controller::{
    buttons_step, daemon_step, paged, panel_step, press_commands, scanned, step_of,
    ControllerView, EventView, Phase, PRESSED,
};
use crate::fix::Fix;
use crate::pages::{
    page_count_of, page_draws, slot_on_page, turned, Direction, BACK_KEY, BUTTONS_PER_PAGE,
    KEY_COUNT,
};

verus! {

/// How many of `commands` store a point of interest.
pub open spec fn insert_count(commands: Seq<CommandView>) -> nat
    decreases commands.len(),
{
    if commands.len() == 0 {
        0
    } else {
        insert_count(commands.drop_last()) + if commands.last() is InsertPoi {
            1nat
        } else {
            0nat
        }
    }
}

/// How many paged keys below `upto` show a category and read as pressed.
pub open spec fn pressed_count(
    categories: Seq<Seq<char>>,
    page: nat,
    states: Seq<u8>,
    upto: nat,
) -> nat
    decreases upto,
{
    if upto == 0 {
        0
    } else {
        let key = upto - 1;
        pressed_count(categories, page, states, key as nat) + if slot_on_page(
            categories,
            page,
            key,
        ) is Category && key < states.len() && states[key] == PRESSED {
            1nat
        } else {
            0nat
        }
    }
}

/// Every insert is directly followed by a counter refresh.
pub open spec fn refreshed_after_insert(commands: Seq<CommandView>) -> bool {
    forall|i: int|
        0 <= i < commands.len() && (#[trigger] commands[i]) is InsertPoi ==> i + 1 < commands.len()
            && commands[i + 1] == CommandView::RefreshCounters
}

/// A state that a controller can be in: there is a category, the page on
/// show exists, and the panel is polled only with a fix.
pub open spec fn valid(state: ControllerView) -> bool {
    &&& state.categories.len() > 0
    &&& state.page < page_count_of(state.categories.len())
    &&& state.phase == Phase::PollingPanel ==> state.fix is Some
}

/// Inserts in two runs of requests add up.
pub proof fn lemma_insert_count_concat(first: Seq<CommandView>, second: Seq<CommandView>)
    ensures
        insert_count(first + second) == insert_count(first) + insert_count(second),
    decreases second.len(),
{
    if second.len() == 0 {
        assert(first + second =~= first);
    } else {
        lemma_insert_count_concat(first, second.drop_last());
        assert((first + second).drop_last() =~= first + second.drop_last());
    }
}

/// A run without an insert stores nothing.
pub proof fn lemma_insert_count_zero(commands: Seq<CommandView>)
    requires
        forall|i: int| 0 <= i < commands.len() ==> !((#[trigger] commands[i]) is InsertPoi),
    ensures
        insert_count(commands) == 0,
    decreases commands.len(),
{
    if commands.len() > 0 {
        lemma_insert_count_zero(commands.drop_last());
    }
}

/// The answer to one press stores one point.
pub proof fn lemma_press_stores_one(name: Seq<char>, fix: Fix)
    ensures
        insert_count(press_commands(name, fix)) == 1,
{
    let added = press_commands(name, fix);
    assert(added.drop_last() =~= seq![added[0]]);
    assert(added.drop_last().drop_last() =~= Seq::<CommandView>::empty());
    assert(insert_count(added.drop_last().drop_last()) == 0);
    assert(insert_count(added.drop_last()) == 1);
}

/// Reading the paged keys of a report that covers them stores one point per
/// pressed category key, no more and no less, and raises no fault.
pub proof fn lemma_scan_counts_presses(
    categories: Seq<Seq<char>>,
    page: nat,
    states: Seq<u8>,
    fix: Fix,
    upto: nat,
)
    requires
        upto <= BUTTONS_PER_PAGE <= states.len(),
    ensures
        scanned(categories, page, states, fix, upto).fault is None,
        insert_count(scanned(categories, page, states, fix, upto).commands) == pressed_count(
            categories,
            page,
            states,
            upto,
        ),
    decreases upto,
{
    if upto > 0 {
        let key = (upto - 1) as nat;
        lemma_scan_counts_presses(categories, page, states, fix, key);
        let before = scanned(categories, page, states, fix, key);
        let after = scanned(categories, page, states, fix, upto);
        let slot = slot_on_page(categories, page, key as int);
        if slot is Category && states[key as int] == PRESSED {
            let added = press_commands(slot->Category_0, fix);
            assert(after.commands == before.commands + added);
            lemma_insert_count_concat(before.commands, added);
            lemma_press_stores_one(slot->Category_0, fix);
        } else {
            assert(after == before);
        }
    }
}

/// In what reading the paged keys asks for, every insert is directly
/// followed by a counter refresh.
pub proof fn lemma_scan_refreshes_counters(
    categories: Seq<Seq<char>>,
    page: nat,
    states: Seq<u8>,
    fix: Fix,
    upto: nat,
)
    ensures
        refreshed_after_insert(scanned(categories, page, states, fix, upto).commands),
    decreases upto,
{
    if upto > 0 {
        let key = (upto - 1) as nat;
        lemma_scan_refreshes_counters(categories, page, states, fix, key);
        let before = scanned(categories, page, states, fix, key);
        let after = scanned(categories, page, states, fix, upto);
        let slot = slot_on_page(categories, page, key as int);
        if before.fault is None && slot is Category && key < states.len() && states[key as int]
            == PRESSED {
            let added = press_commands(slot->Category_0, fix);
            assert(after.commands == before.commands + added);
            assert forall|i: int|
                0 <= i < after.commands.len() && (#[trigger] after.commands[i]) is InsertPoi implies i
                + 1 < after.commands.len() && after.commands[i + 1]
                == CommandView::RefreshCounters by {
                if i < before.commands.len() {
                    assert(before.commands[i] is InsertPoi);
                    assert(after.commands[i + 1] == before.commands[i + 1]);
                } else {
                    assert(after.commands[i] == added[i - before.commands.len()]);
                }
            }
        } else {
            assert(after.commands == before.commands);
        }
    }
}

/// Without a fix nothing is stored, whatever the state and the event: a
/// press while no fix is known records nothing.
pub proof fn lemma_no_fix_no_record(state: ControllerView, event: EventView)
    requires
        state.fix is None,
    ensures
        insert_count(step_of(state, event).outcome.commands) == 0,
{
    let commands = step_of(state, event).outcome.commands;
    assert forall|i: int| 0 <= i < commands.len() implies !((#[trigger] commands[i])
        is InsertPoi) by {
        match (state.phase, event) {
            (Phase::PollingDaemon, EventView::Daemon(poll)) => {
                assert(commands == daemon_step(state, poll).outcome.commands);
            },
            (Phase::PollingPanel, EventView::Panel(poll)) => {
                assert(commands == panel_step(state, poll).outcome.commands);
                assert(commands.len() == 0);
            },
            _ => {},
        }
    }
    lemma_insert_count_zero(commands);
}

/// With a fix, a report that covers every key stores exactly one point for
/// each pressed category key of the page on show and raises no fault.
pub proof fn lemma_one_record_per_press(state: ControllerView, states: Seq<u8>)
    requires
        state.fix is Some,
        states.len() >= KEY_COUNT,
    ensures
        buttons_step(state, states).outcome.fault is None,
        insert_count(buttons_step(state, states).outcome.commands) == pressed_count(
            state.categories,
            state.page,
            states,
            BUTTONS_PER_PAGE as nat,
        ),
{
    let fix = state.fix->Some_0;
    let pages = page_count_of(state.categories.len());
    let scan = scanned(state.categories, state.page, states, fix, BUTTONS_PER_PAGE as nat);
    lemma_scan_counts_presses(state.categories, state.page, states, fix, BUTTONS_PER_PAGE as nat);
    let idle = ControllerView {
        phase: Phase::Idle,
        fix: state.fix,
        categories: state.categories,
        page: state.page,
    };
    let back = paged(idle, scan, states, BACK_KEY as int, Direction::Back);
    let back_draws = page_draws(state.categories, turned(state.page, pages, Direction::Back));
    lemma_insert_count_zero(back_draws);
    lemma_insert_count_concat(scan.commands, back_draws);
    assert(insert_count(back.outcome.commands) == insert_count(scan.commands));
    let forward_draws = page_draws(
        state.categories,
        turned(back.next.page, pages, Direction::Forward),
    );
    lemma_insert_count_zero(forward_draws);
    lemma_insert_count_concat(back.outcome.commands, forward_draws);
}

/// Every step leads from a valid state to a valid state: the page on show
/// always exists, and a panel poll is only ever in flight with a fix.
pub proof fn lemma_step_keeps_valid(state: ControllerView, event: EventView)
    requires
        valid(state),
    ensures
        valid(step_of(state, event).next),
        step_of(state, event).next.categories == state.categories,
{
}

} // verus!
