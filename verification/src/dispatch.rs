//! The action dispatcher: what selecting a result does, and whether the
//! overlay closes on it.
//!
//! Opening a path and writing to the clipboard are done outside this
//! library. The dispatcher is told whether the call succeeded and decides
//! what follows.

use vstd::prelude::*;
use vstd::string::StringExecFns;
use crate::results::{ActionView, ResultAction, SearchResult};
use crate::session::{messages_of, AppChannels, AppState, LuaEvent, LuaEventView, StateView};

verus! {

/// Why a dispatch failed.
#[derive(Clone, Copy, Debug, PartialEq, Eq, Structural)]
pub enum DispatchError {
    /// The path could not be opened.
    SpawnFailed,
    /// The text could not be copied to the clipboard.
    ClipboardFailed,
}

impl DispatchError {
    /// The text that describes the failure.
    pub open spec fn text(self) -> Seq<char> {
        match self {
            DispatchError::SpawnFailed => "couldn't spawn process"@,
            DispatchError::ClipboardFailed => "couldn't copy to clipboard"@,
        }
    }

    /// A line for the log.
    pub fn message(&self) -> (line: String)
        ensures
            line@ == self.text(),
    {
        match self {
            DispatchError::SpawnFailed => String::from_str("couldn't spawn process"),
            DispatchError::ClipboardFailed => String::from_str("couldn't copy to clipboard"),
        }
    }
}

/// Whether carrying out an action is a call to the operating system: opening
/// and copying are, running a callback and doing nothing are not.
pub open spec fn needs_system_call(action: Option<ActionView>) -> bool {
    action matches Some(a) && (a is Open || a is Copy)
}

/// What a dispatch returns: whether the overlay is to close, or the failure.
/// `performed` says whether the system call of the action succeeded. Opening
/// closes the overlay; copying keeps it open, so that several texts can be
/// copied in a row; a callback's wish to close arrives later, as a message
/// of its own.
pub open spec fn dispatch_outcome(action: Option<ActionView>, performed: bool) -> Result<
    bool,
    DispatchError,
> {
    match action {
        None => Ok(false),
        Some(ActionView::Open { .. }) => if performed {
            Ok(true)
        } else {
            Err(DispatchError::SpawnFailed)
        },
        Some(ActionView::Copy { .. }) => if performed {
            Ok(false)
        } else {
            Err(DispatchError::ClipboardFailed)
        },
        Some(ActionView::Lua { .. }) => Ok(false),
    }
}

/// The messages for the scripting worker after a dispatch: a callback action
/// adds the request to run it.
pub open spec fn requests_after(queue: Seq<LuaEventView>, action: Option<ActionView>) -> Seq<
    LuaEventView,
> {
    match action {
        Some(ActionView::Lua { name }) => queue.push(LuaEventView::RunCallback(name)),
        _ => queue,
    }
}

/// Whether carrying out the action of `selection` takes a call to the
/// operating system, whose success [`handle_select`] is to be told.
pub fn requires_system_call(selection: &SearchResult) -> (needed: bool)
    ensures
        needed == needs_system_call(selection@.action),
{
    match &selection.action {
        Some(ResultAction::Open { .. }) => true,
        Some(ResultAction::Copy { .. }) => true,
        _ => false,
    }
}

/// Dispatches the action of a selected result. `performed` is looked at only
/// where the action takes a system call.
pub fn handle_select(selection: &SearchResult, performed: bool, channels: &mut AppChannels) -> (outcome:
    Result<bool, DispatchError>)
    ensures
        outcome == dispatch_outcome(selection@.action, performed),
        messages_of(final(channels).lua_run_tx@) == requests_after(
            messages_of(old(channels).lua_run_tx@),
            selection@.action,
        ),
        final(channels).hotkeys_rx == old(channels).hotkeys_rx,
        final(channels).lua_close_rx == old(channels).lua_close_rx,
{
    match &selection.action {
        None => Ok(false),
        Some(ResultAction::Open { .. }) => {
            if performed {
                Ok(true)
            } else {
                Err(DispatchError::SpawnFailed)
            }
        },
        Some(ResultAction::Copy { .. }) => {
            if performed {
                Ok(false)
            } else {
                Err(DispatchError::ClipboardFailed)
            }
        },
        Some(ResultAction::Lua { name }) => {
            channels.lua_run_tx.push(LuaEvent::RunCallback(name.clone()));
            Ok(false)
        },
    }
}

/// The phase after a dispatch: the overlay closes where the dispatch asked
/// for it. A failed dispatch leaves the phase as it is.
pub open spec fn state_after(state: StateView, outcome: Result<bool, DispatchError>) -> StateView {
    match outcome {
        Ok(true) => StateView::Unopened,
        _ => state,
    }
}

/// Applies the outcome of a dispatch to the phase.
pub fn after_dispatch(state: AppState, outcome: Result<bool, DispatchError>) -> (next: AppState)
    ensures
        next@ == state_after(state@, outcome),
{
    match outcome {
        Ok(true) => AppState::Unopened,
        _ => state,
    }
}

/// An action that opens a path closes the overlay and one that copies a text
/// keeps it open, whatever the path or the text, provided that the system
/// call succeeded.
pub proof fn lemma_close_decision_ignores_payload(payload: Seq<char>)
    ensures
        dispatch_outcome(Some(ActionView::Open { path: payload }), true) == Ok::<
            bool,
            DispatchError,
        >(true),
        dispatch_outcome(Some(ActionView::Copy { text: payload }), true) == Ok::<
            bool,
            DispatchError,
        >(false),
{
}

} // verus!
