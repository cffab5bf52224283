//! The engine's status as the page reports it, and the decisions taken when
//! the engine is opened.

use vstd::prelude::*;

verus! {

broadcast use vstd::string::group_string_axioms;

/// Status of an engine that has not been opened or has logged out.
pub const STATUS_OFFLINE: &'static str = "Offline";

/// Status of an engine whose window is being opened.
pub const STATUS_STARTING: &'static str = "Starting...";

/// Status the page reports while it shows a QR code; only then does the
/// engine hold a payload.
pub const STATUS_QR: &'static str = "QR";

/// What the engine last learned of the WhatsApp Web session.
pub struct EngineState {
    /// The session status: "Offline", "Starting...", "QR", "CONNECTED", ...
    pub status: String,
    /// The QR code data while the status is "QR", otherwise empty.
    pub payload: String,
    /// Whether the engine has been started.
    pub started: bool,
}

/// The mathematical value of an `EngineState`.
pub struct EngineView {
    pub status: Seq<char>,
    pub payload: Seq<char>,
    pub started: bool,
}

impl View for EngineState {
    type V = EngineView;

    open spec fn view(&self) -> EngineView {
        EngineView { status: self.status@, payload: self.payload@, started: self.started }
    }
}

/// The payload rule of the status query: a payload is held only while the
/// status is "QR".
pub open spec fn payload_fits(s: EngineView) -> bool {
    s.status != STATUS_QR@ ==> s.payload.len() == 0
}

/// The state of an engine that is not running: offline, no payload.
pub open spec fn offline_view() -> EngineView {
    EngineView { status: STATUS_OFFLINE@, payload: Seq::empty(), started: false }
}

/// The state after the engine is asked to open: starting, no payload.
pub open spec fn opened_view(s: EngineView) -> EngineView {
    EngineView { status: STATUS_STARTING@, payload: Seq::empty(), started: true }
}

/// The state after the page reports `status` with `payload`: the payload is
/// kept only with the status "QR".
pub open spec fn reported_view(s: EngineView, status: Seq<char>, payload: Seq<char>) -> EngineView {
    EngineView {
        status: status,
        payload: if status == STATUS_QR@ {
            payload
        } else {
            Seq::empty()
        },
        started: true,
    }
}

/// The state after a logout.
pub open spec fn logged_out_view(s: EngineView) -> EngineView {
    offline_view()
}

impl EngineState {
    /// The state the plugin starts in: offline, no payload, not started.
    pub fn new() -> (r: EngineState)
        ensures
            r@ == offline_view(),
    {
        EngineState { status: STATUS_OFFLINE.to_string(), payload: String::new(), started: false }
    }

    /// Marks the engine as starting; the status leaves "QR", so the payload
    /// is cleared.
    pub fn mark_starting(&mut self)
        ensures
            final(self)@ == opened_view(old(self)@),
    {
        self.started = true;
        self.status = STATUS_STARTING.to_string();
        self.payload = String::new();
    }

    /// Records a status reported by the page; the engine counts as started.
    /// The payload is kept with the status "QR" and dropped with any other.
    pub fn record_auth_status(&mut self, status: String, payload: String)
        ensures
            final(self)@ == reported_view(old(self)@, status@, payload@),
    {
        let qr = STATUS_QR.to_string();
        let keep = status.eq(&qr);
        self.status = status;
        self.payload = if keep {
            payload
        } else {
            String::new()
        };
        self.started = true;
    }

    /// Returns the engine to the offline state.
    pub fn reset_offline(&mut self)
        ensures
            final(self)@ == logged_out_view(old(self)@),
    {
        self.status = STATUS_OFFLINE.to_string();
        self.payload = String::new();
        self.started = false;
    }

    /// A copy of the current state, as the status query reports it.
    pub fn snapshot(&self) -> (r: EngineState)
        ensures
            r@ == self@,
    {
        EngineState { status: self.status.clone(), payload: self.payload.clone(), started: self.started }
    }
}

/// What opening the engine does with the window.
#[derive(Clone, Copy, Debug, PartialEq, Eq)]
pub enum OpenAction {
    /// The window exists and is shown and focused.
    ShowExisting,
    /// The window exists and is left as it is.
    KeepExisting,
    /// The window is created, shown or hidden.
    CreateWindow { visible: bool },
}

/// The window action for an open request with the optional `visible`
/// flag (hidden when absent), given whether the window already exists.
pub open spec fn open_action(visible: Option<bool>, window_exists: bool) -> OpenAction {
    let show = match visible {
        Some(v) => v,
        None => false,
    };
    if window_exists {
        if show {
            OpenAction::ShowExisting
        } else {
            OpenAction::KeepExisting
        }
    } else {
        OpenAction::CreateWindow { visible: show }
    }
}

/// Opens the engine: marks it as starting and says what to do with the
/// window.
pub fn open_engine(state: &mut EngineState, visible: Option<bool>, window_exists: bool) -> (r:
    OpenAction)
    ensures
        final(state)@ == opened_view(old(state)@),
        r == open_action(visible, window_exists),
{
    state.mark_starting();
    let show = match visible {
        Some(v) => v,
        None => false,
    };
    if window_exists {
        if show {
            OpenAction::ShowExisting
        } else {
            OpenAction::KeepExisting
        }
    } else {
        OpenAction::CreateWindow { visible: show }
    }
}

/// Logging out returns the engine to the very state it starts in,
/// whatever it was before.
pub proof fn logout_restores_initial(s: EngineView)
    ensures
        logged_out_view(s) == offline_view(),
{
}

/// After the page reports a status, the status query gives back exactly
/// that status, the payload where the status is "QR" and an empty one
/// otherwise, and the engine counts as started.
pub proof fn report_then_query(s: EngineView, status: Seq<char>, payload: Seq<char>)
    ensures
        reported_view(s, status, payload).status == status,
        status == STATUS_QR@ ==> reported_view(s, status, payload).payload == payload,
        status != STATUS_QR@ ==> reported_view(s, status, payload).payload.len() == 0,
        reported_view(s, status, payload).started,
{
}

/// Opening drops the QR payload and marks the engine started.
pub proof fn open_clears_payload(s: EngineView)
    ensures
        opened_view(s).payload.len() == 0,
        opened_view(s).started,
        opened_view(s).status == STATUS_STARTING@,
{
}

/// Every state the engine reaches holds a payload only while its status is
/// "QR": the initial state does, and each change keeps it so.
pub proof fn payload_only_with_qr(s: EngineView, status: Seq<char>, payload: Seq<char>)
    ensures
        payload_fits(offline_view()),
        payload_fits(opened_view(s)),
        payload_fits(reported_view(s, status, payload)),
        payload_fits(logged_out_view(s)),
{
    assert(STATUS_OFFLINE@ != STATUS_QR@) by {
        reveal_strlit("Offline");
        reveal_strlit("QR");
        assert(STATUS_OFFLINE@.len() != STATUS_QR@.len());
    }
}

/// The window follows the request: a new window is created exactly when
/// none exists, and it is visible exactly when the request says
/// `Some(true)`; an existing window is shown exactly when the request says
/// `Some(true)` and is otherwise left alone. A missing flag counts as hidden.
pub proof fn open_window_follows_request(visible: Option<bool>, window_exists: bool)
    ensures
        !window_exists ==> open_action(visible, window_exists) == (OpenAction::CreateWindow {
            visible: visible == Some(true),
        }),
        window_exists ==> (open_action(visible, window_exists) is ShowExisting <==> visible == Some(
            true,
        )),
        window_exists ==> (open_action(visible, window_exists) is ShowExisting || open_action(
            visible,
            window_exists,
        ) is KeepExisting),
        open_action(Some(false), false) == (OpenAction::CreateWindow { visible: false }),
        open_action(None, false) == (OpenAction::CreateWindow { visible: false }),
        open_action(Some(true), false) == (OpenAction::CreateWindow { visible: true }),
{
}

} // verus!
