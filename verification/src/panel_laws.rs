//! What the paged keys show, and why it always matches the slot assignment.
//!
//! The controller never looks at the panel; it only sends requests. The faces
//! below are what a panel shows after carrying those requests out.

use vstd::prelude::*;
use crate::command::CommandView;
use crate::controller::{
    buttons_step, daemon_step, paged, panel_step, scanned, start_commands, step_of,
    ControllerView, EventView, Outcome, PanelPollView, Phase, POLL_TIMEOUT_MS, PRESSED,
};
use crate::fix::Fix;
use crate::pages::{
    page_count_of, page_draws, slot_on_page, turned, Direction, SlotView, BACK_KEY,
    BUTTONS_PER_PAGE, FORWARD_KEY,
};

verus! {

/// What a paged key shows.
pub enum Face {
    /// The image of a category.
    Image(Seq<char>),
    /// Nothing: the key is black.
    Black,
}

/// The face that belongs to a slot: its image for a category, black for
/// anything else.
pub open spec fn face_of(slot: SlotView) -> Face {
    match slot {
        SlotView::Category(name) => Face::Image(name),
        _ => Face::Black,
    }
}

/// The faces after one request has been carried out. Only a reset, an image
/// and a blanking change a face.
pub open spec fn drawn(faces: Seq<Face>, command: CommandView) -> Seq<Face> {
    match command {
        CommandView::ResetPanel => Seq::new(faces.len(), |key: int| Face::Black),
        CommandView::ShowImage { slot, category } => if slot < faces.len() {
            faces.update(slot as int, Face::Image(category))
        } else {
            faces
        },
        CommandView::Blank { slot } => if slot < faces.len() {
            faces.update(slot as int, Face::Black)
        } else {
            faces
        },
        _ => faces,
    }
}

/// The faces after a run of requests has been carried out in order.
pub open spec fn drawn_all(faces: Seq<Face>, commands: Seq<CommandView>) -> Seq<Face>
    decreases commands.len(),
{
    if commands.len() == 0 {
        faces
    } else {
        drawn(drawn_all(faces, commands.drop_last()), commands.last())
    }
}

/// Whether the faces are exactly those of `page`: no key shows a stale
/// image, and no key that has a category is black.
pub open spec fn mirrors(faces: Seq<Face>, categories: Seq<Seq<char>>, page: nat) -> bool {
    &&& faces.len() == BUTTONS_PER_PAGE
    &&& forall|key: int|
        0 <= key < BUTTONS_PER_PAGE ==> #[trigger] faces[key] == face_of(
            slot_on_page(categories, page, key),
        )
}

/// Whether a request leaves every face as it is.
pub open spec fn paints_nothing(command: CommandView) -> bool {
    !(command is ResetPanel) && !(command is ShowImage) && !(command is Blank)
}

/// Carrying out two runs one after the other is carrying out their
/// concatenation.
pub proof fn lemma_drawn_all_concat(
    faces: Seq<Face>,
    first: Seq<CommandView>,
    second: Seq<CommandView>,
)
    ensures
        drawn_all(faces, first + second) == drawn_all(drawn_all(faces, first), second),
    decreases second.len(),
{
    if second.len() == 0 {
        assert(first + second =~= first);
    } else {
        lemma_drawn_all_concat(faces, first, second.drop_last());
        assert((first + second).drop_last() =~= first + second.drop_last());
    }
}

/// A run of requests that paint nothing leaves the faces as they are.
pub proof fn lemma_nothing_painted(faces: Seq<Face>, commands: Seq<CommandView>)
    requires
        forall|i: int| 0 <= i < commands.len() ==> paints_nothing(#[trigger] commands[i]),
    ensures
        drawn_all(faces, commands) == faces,
    decreases commands.len(),
{
    if commands.len() > 0 {
        lemma_nothing_painted(faces, commands.drop_last());
    }
}

/// The first `upto` requests of a redraw set the first `upto` faces and
/// leave the others.
proof fn lemma_redraw_prefix(
    faces: Seq<Face>,
    categories: Seq<Seq<char>>,
    page: nat,
    upto: nat,
)
    requires
        faces.len() == BUTTONS_PER_PAGE,
        upto <= BUTTONS_PER_PAGE,
    ensures
        drawn_all(faces, page_draws(categories, page).take(upto as int)).len()
            == BUTTONS_PER_PAGE,
        forall|key: int|
            0 <= key < upto ==> #[trigger] drawn_all(
                faces,
                page_draws(categories, page).take(upto as int),
            )[key] == face_of(slot_on_page(categories, page, key)),
        forall|key: int|
            upto <= key < BUTTONS_PER_PAGE ==> #[trigger] drawn_all(
                faces,
                page_draws(categories, page).take(upto as int),
            )[key] == faces[key],
    decreases upto,
{
    let draws = page_draws(categories, page);
    if upto > 0 {
        let key = upto - 1;
        lemma_redraw_prefix(faces, categories, page, key as nat);
        assert(draws.take(upto as int).drop_last() =~= draws.take(key));
        assert(draws.take(upto as int).last() == draws[key]);
    }
}

/// After a full redraw the faces are exactly those of the page, whatever
/// they were before.
pub proof fn lemma_redraw_mirrors(faces: Seq<Face>, categories: Seq<Seq<char>>, page: nat)
    requires
        faces.len() == BUTTONS_PER_PAGE,
    ensures
        mirrors(drawn_all(faces, page_draws(categories, page)), categories, page),
{
    let draws = page_draws(categories, page);
    lemma_redraw_prefix(faces, categories, page, BUTTONS_PER_PAGE as nat);
    assert(draws.take(BUTTONS_PER_PAGE as int) =~= draws);
}

/// Reading the paged keys paints nothing.
proof fn lemma_scan_paints_nothing(
    categories: Seq<Seq<char>>,
    page: nat,
    states: Seq<u8>,
    fix: Fix,
    upto: nat,
)
    ensures
        forall|i: int|
            0 <= i < scanned(categories, page, states, fix, upto).commands.len()
                ==> paints_nothing(
                #[trigger] scanned(categories, page, states, fix, upto).commands[i],
            ),
    decreases upto,
{
    if upto > 0 {
        lemma_scan_paints_nothing(categories, page, states, fix, (upto - 1) as nat);
    }
}

/// Reading a paging key keeps panel and slot assignment in step: either
/// nothing is painted and the page stays, or the new page is redrawn in
/// full.
proof fn lemma_paged_keeps_mirror(
    faces: Seq<Face>,
    state: ControllerView,
    so_far: Outcome,
    states: Seq<u8>,
    key: int,
    direction: Direction,
)
    requires
        mirrors(drawn_all(faces, so_far.commands), state.categories, state.page),
    ensures
        mirrors(
            drawn_all(faces, paged(state, so_far, states, key, direction).outcome.commands),
            paged(state, so_far, states, key, direction).next.categories,
            paged(state, so_far, states, key, direction).next.page,
        ),
{
    if so_far.fault is None && key < states.len() && states[key] == PRESSED {
        let target = turned(state.page, page_count_of(state.categories.len()), direction);
        let draws = page_draws(state.categories, target);
        lemma_drawn_all_concat(faces, so_far.commands, draws);
        lemma_redraw_mirrors(drawn_all(faces, so_far.commands), state.categories, target);
    }
}

/// Bringing the devices up leaves the panel showing page 0.
pub proof fn lemma_start_mirrors(faces: Seq<Face>, categories: Seq<Seq<char>>)
    requires
        faces.len() == BUTTONS_PER_PAGE,
    ensures
        mirrors(drawn_all(faces, start_commands(categories)), categories, 0),
{
    let reset = seq![CommandView::ResetPanel];
    let draws = page_draws(categories, 0);
    let tail = seq![
        CommandView::WatchDaemon { timeout_ms: POLL_TIMEOUT_MS },
        CommandView::RefreshCounters,
    ];
    assert(reset.drop_last() =~= Seq::<CommandView>::empty());
    assert(drawn_all(faces, reset.drop_last()) == faces);
    assert(reset.last() == CommandView::ResetPanel);
    let blank = drawn_all(faces, reset);
    assert(blank == drawn(faces, CommandView::ResetPanel));
    assert(blank.len() == BUTTONS_PER_PAGE);
    lemma_drawn_all_concat(faces, reset, draws);
    lemma_redraw_mirrors(blank, categories, 0);
    lemma_drawn_all_concat(faces, reset + draws, tail);
    lemma_nothing_painted(drawn_all(faces, reset + draws), tail);
}

/// The panel mirrors the slot assignment at every step: if the faces are
/// those of the page on show before an event, then after the requests of
/// the step have been carried out they are those of the page on show after
/// it, whatever the event was and even if the step ends in a fault.
pub proof fn lemma_step_keeps_mirror(faces: Seq<Face>, state: ControllerView, event: EventView)
    requires
        mirrors(faces, state.categories, state.page),
    ensures
        mirrors(
            drawn_all(faces, step_of(state, event).outcome.commands),
            step_of(state, event).next.categories,
            step_of(state, event).next.page,
        ),
{
    let step = step_of(state, event);
    match (state.phase, event) {
        (Phase::PollingPanel, EventView::Panel(PanelPollView::Buttons(states))) => {
            match state.fix {
                Some(fix) => {
                    let idle = ControllerView {
                        phase: Phase::Idle,
                        fix: state.fix,
                        categories: state.categories,
                        page: state.page,
                    };
                    let scan = scanned(
                        state.categories,
                        state.page,
                        states,
                        fix,
                        BUTTONS_PER_PAGE as nat,
                    );
                    lemma_scan_paints_nothing(
                        state.categories,
                        state.page,
                        states,
                        fix,
                        BUTTONS_PER_PAGE as nat,
                    );
                    lemma_nothing_painted(faces, scan.commands);
                    lemma_paged_keeps_mirror(
                        faces,
                        idle,
                        scan,
                        states,
                        BACK_KEY as int,
                        Direction::Back,
                    );
                    let back = paged(idle, scan, states, BACK_KEY as int, Direction::Back);
                    lemma_paged_keeps_mirror(
                        faces,
                        back.next,
                        back.outcome,
                        states,
                        FORWARD_KEY as int,
                        Direction::Forward,
                    );
                    assert(step == buttons_step(state, states));
                },
                None => {
                    lemma_nothing_painted(faces, step.outcome.commands);
                },
            }
        },
        (Phase::PollingPanel, EventView::Panel(poll)) => {
            assert(step == panel_step(state, poll));
            lemma_nothing_painted(faces, step.outcome.commands);
        },
        (Phase::PollingDaemon, EventView::Daemon(poll)) => {
            assert(step == daemon_step(state, poll));
            lemma_nothing_painted(faces, step.outcome.commands);
        },
        _ => {
            lemma_nothing_painted(faces, step.outcome.commands);
        },
    }
}

} // verus!
