//! What the controller asks its host to do.

use vstd::prelude::*;
use crate::recorder::{PoiDraft, PoiDraftView};

verus! {

/// One request to the host that drives the devices and the store.
///
/// The host carries requests out in the order given. The three polls are
/// answered by feeding the matching event back to the controller.
#[derive(Debug, PartialEq, Eq)]
pub enum Command {
    /// Reset every slot of the panel.
    ResetPanel,
    /// Show the image of `category` on `slot`.
    ShowImage { slot: u8, category: String },
    /// Paint `slot` black.
    Blank { slot: u8 },
    /// Ask the daemon to stream reports, with reads that give up after
    /// `timeout_ms` milliseconds.
    WatchDaemon { timeout_ms: u64 },
    /// Read one daemon report, waiting at most `timeout_ms` milliseconds.
    PollDaemon { timeout_ms: u64 },
    /// Read the key states, waiting at most `timeout_ms` milliseconds.
    PollPanel { timeout_ms: u64 },
    /// Write `text` on the status slot.
    ShowStatus { text: String },
    /// Write the host's network address, or the fallback label, on the
    /// status slot.
    ShowHostAddress,
    /// Store one point of interest.
    InsertPoi { draft: PoiDraft },
    /// Count the stored points again and write the counts on the counter
    /// slot.
    RefreshCounters,
}

/// A request as a mathematical value.
pub enum CommandView {
    ResetPanel,
    ShowImage { slot: u8, category: Seq<char> },
    Blank { slot: u8 },
    WatchDaemon { timeout_ms: u64 },
    PollDaemon { timeout_ms: u64 },
    PollPanel { timeout_ms: u64 },
    ShowStatus { text: Seq<char> },
    ShowHostAddress,
    InsertPoi { draft: PoiDraftView },
    RefreshCounters,
}

impl View for Command {
    type V = CommandView;

    open spec fn view(&self) -> CommandView {
        match *self {
            Command::ResetPanel => CommandView::ResetPanel,
            Command::ShowImage { slot, category } => CommandView::ShowImage {
                slot,
                category: category@,
            },
            Command::Blank { slot } => CommandView::Blank { slot },
            Command::WatchDaemon { timeout_ms } => CommandView::WatchDaemon { timeout_ms },
            Command::PollDaemon { timeout_ms } => CommandView::PollDaemon { timeout_ms },
            Command::PollPanel { timeout_ms } => CommandView::PollPanel { timeout_ms },
            Command::ShowStatus { text } => CommandView::ShowStatus { text: text@ },
            Command::ShowHostAddress => CommandView::ShowHostAddress,
            Command::InsertPoi { draft } => CommandView::InsertPoi { draft: draft@ },
            Command::RefreshCounters => CommandView::RefreshCounters,
        }
    }
}

impl Clone for Command {
    fn clone(&self) -> (copy: Command)
        ensures
            copy@ == self@,
    {
        match self {
            Command::ResetPanel => Command::ResetPanel,
            Command::ShowImage { slot, category } => Command::ShowImage {
                slot: *slot,
                category: category.clone(),
            },
            Command::Blank { slot } => Command::Blank { slot: *slot },
            Command::WatchDaemon { timeout_ms } => Command::WatchDaemon { timeout_ms: *timeout_ms },
            Command::PollDaemon { timeout_ms } => Command::PollDaemon { timeout_ms: *timeout_ms },
            Command::PollPanel { timeout_ms } => Command::PollPanel { timeout_ms: *timeout_ms },
            Command::ShowStatus { text } => Command::ShowStatus { text: text.clone() },
            Command::ShowHostAddress => Command::ShowHostAddress,
            Command::InsertPoi { draft } => Command::InsertPoi { draft: draft.clone() },
            Command::RefreshCounters => Command::RefreshCounters,
        }
    }
}

/// A run of requests as a sequence of their values.
pub open spec fn command_views(commands: Seq<Command>) -> Seq<CommandView> {
    Seq::new(commands.len(), |i: int| commands[i]@)
}

/// The values of a run with one more request at its end.
pub proof fn lemma_views_push(commands: Seq<Command>, last: Command)
    ensures
        command_views(commands.push(last)) == command_views(commands).push(last@),
{
    assert(command_views(commands.push(last)) =~= command_views(commands).push(last@));
}

/// The values of two runs, one after the other.
pub proof fn lemma_views_concat(first: Seq<Command>, second: Seq<Command>)
    ensures
        command_views(first + second) == command_views(first) + command_views(second),
{
    assert(command_views(first + second) =~= command_views(first) + command_views(second));
}

} // verus!
