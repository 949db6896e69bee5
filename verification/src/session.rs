//! The per-file processing session.
//!
//! One session drives one file through reading, rendering and the
//! optional clear-and-save step.  The front end performs the outside work
//! (opening the file, showing the view, saving) and feeds each outcome
//! back as an event; the transition function here decides what follows.

use vstd::prelude::*;

verus! {

/// The states one file-processing session passes through.
#[derive(Clone, Copy, Debug, PartialEq, Eq, Structural)]
pub enum SessionState {
    /// No file is being processed.
    Idle,
    /// The source is opening and parsing the file.
    Reading,
    /// The source could not open or parse the file; reported, terminal.
    ReadFailed,
    /// A snapshot was extracted.
    Read,
    /// The snapshot is being rendered.
    Rendering,
    /// The rendered view is on display.
    Rendered,
    /// The source is clearing the metadata and persisting the file.
    Writing,
    /// The cleared file could not be persisted; reported, terminal.
    WriteFailed,
    /// The metadata was cleared and persisted; terminal.
    Cleared,
}

/// What the front end reports back to the session.
#[derive(Clone, Copy, Debug, PartialEq, Eq, Structural)]
pub enum SessionEvent {
    /// A file path was chosen; a fresh reading pass begins.
    FileChosen,
    /// The source opened and parsed the file.
    ReadOk,
    /// The source could not open or parse the file.
    ReadErr,
    /// Rendering of the snapshot began.
    RenderStarted,
    /// The rendered view is on display.
    RenderDone,
    /// The user asked for the metadata to be cleared.
    ClearRequested,
    /// The cleared file was persisted.
    SaveOk,
    /// The cleared file could not be persisted.
    SaveErr,
}

/// Whether a state ends the processing of its file: a failed read or
/// write, or a completed clear, is reported and the file is done.
pub open spec fn is_terminal(s: SessionState) -> bool {
    s == SessionState::ReadFailed || s == SessionState::WriteFailed || s == SessionState::Cleared
}

/// The state that follows `s` on event `e`, or nothing where `s` cannot
/// take `e`.  A finished or displayed file gives way to a fresh one only
/// through a new reading pass; no state is revisited otherwise.
pub open spec fn spec_step(s: SessionState, e: SessionEvent) -> Option<SessionState> {
    match (s, e) {
        (SessionState::Idle, SessionEvent::FileChosen) => Some(SessionState::Reading),
        (SessionState::Reading, SessionEvent::ReadOk) => Some(SessionState::Read),
        (SessionState::Reading, SessionEvent::ReadErr) => Some(SessionState::ReadFailed),
        (SessionState::Read, SessionEvent::RenderStarted) => Some(SessionState::Rendering),
        (SessionState::Rendering, SessionEvent::RenderDone) => Some(SessionState::Rendered),
        (SessionState::Rendered, SessionEvent::ClearRequested) => Some(SessionState::Writing),
        (SessionState::Rendered, SessionEvent::FileChosen) => Some(SessionState::Reading),
        (SessionState::Writing, SessionEvent::SaveOk) => Some(SessionState::Cleared),
        (SessionState::Writing, SessionEvent::SaveErr) => Some(SessionState::WriteFailed),
        (SessionState::ReadFailed, SessionEvent::FileChosen) => Some(SessionState::Reading),
        (SessionState::WriteFailed, SessionEvent::FileChosen) => Some(SessionState::Reading),
        (SessionState::Cleared, SessionEvent::FileChosen) => Some(SessionState::Reading),
        _ => None,
    }
}

/// Advances the session: the state that follows `state` on `event`, or
/// `None` where the front end reported an event the state cannot take.
pub fn step(state: SessionState, event: SessionEvent) -> (next: Option<SessionState>)
    ensures
        next == spec_step(state, event),
{
    match (state, event) {
        (SessionState::Idle, SessionEvent::FileChosen) => Some(SessionState::Reading),
        (SessionState::Reading, SessionEvent::ReadOk) => Some(SessionState::Read),
        (SessionState::Reading, SessionEvent::ReadErr) => Some(SessionState::ReadFailed),
        (SessionState::Read, SessionEvent::RenderStarted) => Some(SessionState::Rendering),
        (SessionState::Rendering, SessionEvent::RenderDone) => Some(SessionState::Rendered),
        (SessionState::Rendered, SessionEvent::ClearRequested) => Some(SessionState::Writing),
        (SessionState::Rendered, SessionEvent::FileChosen) => Some(SessionState::Reading),
        (SessionState::Writing, SessionEvent::SaveOk) => Some(SessionState::Cleared),
        (SessionState::Writing, SessionEvent::SaveErr) => Some(SessionState::WriteFailed),
        (SessionState::ReadFailed, SessionEvent::FileChosen) => Some(SessionState::Reading),
        (SessionState::WriteFailed, SessionEvent::FileChosen) => Some(SessionState::Reading),
        (SessionState::Cleared, SessionEvent::FileChosen) => Some(SessionState::Reading),
        _ => None,
    }
}

/// Law: the destructive step starts only from a displayed rendering, and
/// its two outcome states follow it alone.
pub proof fn lemma_write_follows_render(s: SessionState, e: SessionEvent)
    ensures
        spec_step(s, e) == Some(SessionState::Writing) ==> s == SessionState::Rendered,
        spec_step(s, e) == Some(SessionState::Cleared) ==> s == SessionState::Writing,
        spec_step(s, e) == Some(SessionState::WriteFailed) ==> s == SessionState::Writing,
{
}

/// Law: a finished file is never resumed.  Out of a terminal state the
/// only step is choosing a file, which begins a fresh reading pass.
pub proof fn lemma_terminal_states_only_restart(s: SessionState, e: SessionEvent)
    requires
        is_terminal(s),
    ensures
        spec_step(s, e) is Some ==> e == SessionEvent::FileChosen && spec_step(s, e) == Some(
            SessionState::Reading,
        ),
{
}

} // verus!
