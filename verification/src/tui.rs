//! The presentation-side state of a run: the event type the worker emits,
//! the consumer state a dashboard renders, and the pure transition that
//! applies one event.
//!
//! The worker is a single producer and the presentation loop a single
//! consumer of a FIFO queue of these events; the consumer drains all
//! pending events per render tick. The transitions are stated over a
//! mathematical model of the state (the text content of each field);
//! because draining is a pure fold over the event sequence, the state
//! after any batching of the queue equals the sequential application of
//! the events in emission order — the batching law below proves it.
//! Rendering itself is terminal I/O and lives outside the library.

use vstd::prelude::*;

use crate::text::{blank, is_blank};

verus! {

use vstd::string::StringExecFns;

/// The outcome class of a repository's most recent CI run.
#[derive(Clone, Copy, Debug, PartialEq, Eq)]
pub enum ActionState {
    Success,
    Failure,
    Running,
    Unknown,
}

/// One row of the fleet-status table.
#[derive(Clone, Debug)]
pub struct RepoStatusRow {
    pub name: String,
    pub action: ActionState,
    pub latest_release: Option<String>,
    pub ahead_by: Option<u32>,
    pub loading: bool,
}

/// One event of the worker-to-presentation queue. Each is consumed at
/// most once.
#[derive(Clone, Debug)]
pub enum UiEvent {
    /// A new phase begins: replaces the step title and body and resets
    /// the elapsed-time display anchor.
    SetStep { title: String, body: String },
    /// Replaces the in-phase detail text.
    UpdateBody { body: String },
    /// A persistent healthy status; clears any error. A blank message
    /// stands for the plain `OK`.
    SetOk { msg: String },
    /// A persistent error status; sticky until the next step or ok.
    SetError { msg: String },
    /// Replaces the fleet-status table.
    SetRepos { rows: Vec<RepoStatusRow> },
    /// The worker finished; success also clears any error and replaces
    /// the status text with the done message.
    Finished { ok: bool },
}

/// What part of the display has keyboard focus.
#[derive(Clone, Copy, Debug, PartialEq, Eq)]
pub enum Focus {
    Help,
    Off,
}

/// One keyboard input, already decoded by the terminal layer.
#[derive(Clone, Copy, Debug, PartialEq, Eq)]
pub enum KeyInput {
    /// `q`, escape, or an interrupt: leave the display.
    Quit,
    /// Tab: move focus to or from the help pane.
    ToggleHelp,
    ScrollUp,
    ScrollDown,
    PageUp,
    PageDown,
    Other,
}

/// The consumer state a dashboard renders: the current step, the sticky
/// status, the fleet table, help-pane focus and scroll, and whether the
/// worker has finished. `step_epoch` counts step changes so the display
/// can reset its elapsed-time anchor when it grows.
#[derive(Clone, Debug)]
pub struct AppState {
    pub step_title: String,
    pub step_body: String,
    pub step_epoch: u64,
    pub ok_msg: String,
    pub error_msg: Option<String>,
    pub repos: Vec<RepoStatusRow>,
    pub help_scroll: u16,
    pub focus: Focus,
    pub finished: Option<bool>,
}

/// The mathematical model of the consumer state: each text field as its
/// character sequence. The event transitions are stated over this model.
pub ghost struct AppModel {
    pub step_title: Seq<char>,
    pub step_body: Seq<char>,
    pub step_epoch: u64,
    pub ok_msg: Seq<char>,
    pub error_msg: Option<Seq<char>>,
    pub repos: Seq<RepoStatusRow>,
    pub help_scroll: u16,
    pub focus: Focus,
    pub finished: Option<bool>,
}

/// A counter bump that cannot overflow.
pub open spec fn bump64(c: u64) -> u64 {
    if c == u64::MAX {
        c
    } else {
        (c + 1) as u64
    }
}

/// Sequential application of one event to the consumer state. An error is
/// sticky: only the next step change, a healthy status, or a successful
/// finish clears it. A blank healthy message becomes the plain `OK`; a
/// successful finish leaves the done message as the status text.
pub open spec fn spec_apply_event(m: AppModel, ev: UiEvent) -> AppModel {
    match ev {
        UiEvent::SetStep { title, body } => AppModel {
            step_title: title@,
            step_body: body@,
            step_epoch: bump64(m.step_epoch),
            error_msg: None,
            ..m
        },
        UiEvent::UpdateBody { body } => AppModel { step_body: body@, ..m },
        UiEvent::SetOk { msg } => AppModel {
            ok_msg: if is_blank(msg@) {
                "OK"@
            } else {
                msg@
            },
            error_msg: None,
            ..m
        },
        UiEvent::SetError { msg } => AppModel { error_msg: Some(msg@), ..m },
        UiEvent::SetRepos { rows } => AppModel { repos: rows@, ..m },
        UiEvent::Finished { ok } => AppModel {
            finished: Some(ok),
            ok_msg: if ok {
                "DONE — press q to exit"@
            } else {
                m.ok_msg
            },
            error_msg: if ok {
                None
            } else {
                m.error_msg
            },
            ..m
        },
    }
}

/// Sequential application of a whole event sequence, in emission order.
pub open spec fn spec_drain(m: AppModel, evs: Seq<UiEvent>) -> AppModel
    decreases evs.len(),
{
    if evs.len() == 0 {
        m
    } else {
        spec_drain(spec_apply_event(m, evs[0]), evs.drop_first())
    }
}

impl AppState {
    /// The model this state denotes.
    pub open spec fn model(self) -> AppModel {
        AppModel {
            step_title: self.step_title@,
            step_body: self.step_body@,
            step_epoch: self.step_epoch,
            ok_msg: self.ok_msg@,
            error_msg: match self.error_msg {
                Some(m) => Some(m@),
                None => None,
            },
            repos: self.repos@,
            help_scroll: self.help_scroll,
            focus: self.focus,
            finished: self.finished,
        }
    }

    /// The initial consumer state.
    pub fn new() -> (r: AppState)
        ensures
            r.step_title@ == "Initializing"@,
            r.step_body@ == "Starting orchestrator…"@,
            r.step_epoch == 0,
            r.ok_msg@ == "OK"@,
            r.error_msg is None,
            r.repos@.len() == 0,
            r.help_scroll == 0,
            r.focus is Off,
            r.finished is None,
    {
        AppState {
            step_title: String::from_str("Initializing"),
            step_body: String::from_str("Starting orchestrator…"),
            step_epoch: 0,
            ok_msg: String::from_str("OK"),
            error_msg: None,
            repos: Vec::new(),
            help_scroll: 0,
            focus: Focus::Off,
            finished: None,
        }
    }
}

/// Apply one queued event to the consumer state.
pub fn handle_ui_event(state: &mut AppState, ev: UiEvent)
    ensures
        final(state).model() == spec_apply_event(old(state).model(), ev),
{
    match ev {
        UiEvent::SetStep { title, body } => {
            state.step_title = title;
            state.step_body = body;
            if state.step_epoch < u64::MAX {
                state.step_epoch = state.step_epoch + 1;
            }
            state.error_msg = None;
        },
        UiEvent::UpdateBody { body } => {
            state.step_body = body;
        },
        UiEvent::SetOk { msg } => {
            if blank(msg.as_str()) {
                state.ok_msg = String::from_str("OK");
            } else {
                state.ok_msg = msg;
            }
            state.error_msg = None;
        },
        UiEvent::SetError { msg } => {
            state.error_msg = Some(msg);
        },
        UiEvent::SetRepos { rows } => {
            state.repos = rows;
        },
        UiEvent::Finished { ok } => {
            state.finished = Some(ok);
            if ok {
                state.error_msg = None;
                state.ok_msg = String::from_str("DONE — press q to exit");
            }
        },
    }
}

/// Drain a batch of queued events into the consumer state, in order.
pub fn drain_events(state: &mut AppState, events: Vec<UiEvent>)
    ensures
        final(state).model() == spec_drain(old(state).model(), events@),
{
    let mut rest = events;
    while rest.len() > 0
        invariant
            spec_drain(state.model(), rest@) == spec_drain(old(state).model(), events@),
        decreases rest@.len(),
    {
        let ghost before = rest@;
        let ev = rest.remove(0);
        proof {
            assert(before.remove(0) =~= before.drop_first());
            assert(ev == before[0]);
        }
        handle_ui_event(state, ev);
    }
}

/// Event-ordering law: applying a queue in two batches, in order, yields
/// the same consumer state as applying it all at once — the state after
/// draining depends only on the emission order, not on how the consumer's
/// render ticks split the queue.
pub proof fn lemma_drain_batches(m: AppModel, a: Seq<UiEvent>, b: Seq<UiEvent>)
    ensures
        spec_drain(m, a + b) == spec_drain(spec_drain(m, a), b),
    decreases a.len(),
{
    if a.len() == 0 {
        assert(a + b =~= b);
    } else {
        assert((a + b)[0] == a[0]);
        assert((a + b).drop_first() =~= a.drop_first() + b);
        lemma_drain_batches(spec_apply_event(m, a[0]), a.drop_first(), b);
    }
}

/// What one key press does to the consumer state (the help pane's focus
/// and scrolling); quitting is reported to the caller instead.
pub open spec fn spec_handle_key(st: AppState, key: KeyInput) -> AppState {
    match key {
        KeyInput::ToggleHelp => AppState {
            focus: if st.focus is Help {
                Focus::Off
            } else {
                Focus::Help
            },
            ..st
        },
        KeyInput::ScrollUp => if st.focus is Help && st.help_scroll > 0 {
            AppState { help_scroll: (st.help_scroll - 1) as u16, ..st }
        } else {
            st
        },
        KeyInput::ScrollDown => if st.focus is Help && st.help_scroll < u16::MAX {
            AppState { help_scroll: (st.help_scroll + 1) as u16, ..st }
        } else {
            st
        },
        KeyInput::PageUp => if st.focus is Help {
            AppState {
                help_scroll: if st.help_scroll >= 10 {
                    (st.help_scroll - 10) as u16
                } else {
                    0
                },
                ..st
            }
        } else {
            st
        },
        KeyInput::PageDown => if st.focus is Help {
            AppState {
                help_scroll: if st.help_scroll <= u16::MAX - 10 {
                    (st.help_scroll + 10) as u16
                } else {
                    u16::MAX
                },
                ..st
            }
        } else {
            st
        },
        _ => st,
    }
}

/// Apply one key press; the result says whether the operator asked to
/// quit the display.
pub fn handle_key(state: &mut AppState, key: KeyInput) -> (quit: bool)
    ensures
        quit == (key is Quit),
        *final(state) == spec_handle_key(*old(state), key),
{
    match key {
        KeyInput::Quit => true,
        KeyInput::ToggleHelp => {
            state.focus = if matches!(state.focus, Focus::Help) {
                Focus::Off
            } else {
                Focus::Help
            };
            false
        },
        KeyInput::ScrollUp => {
            if matches!(state.focus, Focus::Help) && state.help_scroll > 0 {
                state.help_scroll = state.help_scroll - 1;
            }
            false
        },
        KeyInput::ScrollDown => {
            if matches!(state.focus, Focus::Help) && state.help_scroll < u16::MAX {
                state.help_scroll = state.help_scroll + 1;
            }
            false
        },
        KeyInput::PageUp => {
            if matches!(state.focus, Focus::Help) {
                if state.help_scroll >= 10 {
                    state.help_scroll = state.help_scroll - 10;
                } else {
                    state.help_scroll = 0;
                }
            }
            false
        },
        KeyInput::PageDown => {
            if matches!(state.focus, Focus::Help) {
                if state.help_scroll <= u16::MAX - 10 {
                    state.help_scroll = state.help_scroll + 10;
                } else {
                    state.help_scroll = u16::MAX;
                }
            }
            false
        },
        KeyInput::Other => false,
    }
}

/// The spinner glyph for a wall-clock time in milliseconds: one of ten
/// frames, advancing every 80 milliseconds.
pub open spec fn spec_spinner_frame(ms: u64) -> char {
    let i = (ms / 80) % 10;
    if i == 0 {
        '⠋'
    } else if i == 1 {
        '⠙'
    } else if i == 2 {
        '⠹'
    } else if i == 3 {
        '⠸'
    } else if i == 4 {
        '⠼'
    } else if i == 5 {
        '⠴'
    } else if i == 6 {
        '⠦'
    } else if i == 7 {
        '⠧'
    } else if i == 8 {
        '⠇'
    } else {
        '⠏'
    }
}

pub fn spinner_frame(ms: u64) -> (c: char)
    ensures
        c == spec_spinner_frame(ms),
{
    let i = (ms / 80) % 10;
    if i == 0 {
        '⠋'
    } else if i == 1 {
        '⠙'
    } else if i == 2 {
        '⠹'
    } else if i == 3 {
        '⠸'
    } else if i == 4 {
        '⠼'
    } else if i == 5 {
        '⠴'
    } else if i == 6 {
        '⠦'
    } else if i == 7 {
        '⠧'
    } else if i == 8 {
        '⠇'
    } else {
        '⠏'
    }
}

} // verus!
