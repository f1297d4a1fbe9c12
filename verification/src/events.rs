//! Event vocabulary of the dashboard: raw input events and semantic
//! application events travel the same ordered bus and are handled by the
//! focused view first, then by the orchestrator.

use vstd::prelude::*;

use crate::import_path::CloudImportPath;

verus! {

/// A key press as the dispatch logic reads it: the key itself plus whether
/// the control modifier was held. Everything else about the raw terminal
/// event is irrelevant to dispatch.
#[derive(Clone, Copy, PartialEq, Eq, Structural, Debug)]
pub enum Key {
    Up,
    Down,
    PageUp,
    PageDown,
    Home,
    End,
    Enter,
    Esc,
    Backspace,
    Char(char),
    Other,
}

/// A raw terminal event, reduced to what dispatch decides on.
#[derive(Clone, Copy, PartialEq, Eq, Structural, Debug)]
pub enum InputEvent {
    Key(Key, bool),
    Resize,
    Other,
}

/// Connectivity of one profile's endpoint, as last probed.
#[derive(Clone, Debug)]
pub enum KubeContextStatus {
    Unknown,
    Healthy(String),
    Unhealthy,
}

/// Signals for the render loop: paint once (bursts coalesce), or stop.
#[derive(Clone, Copy, PartialEq, Eq, Structural, Debug)]
pub enum RendererMessage {
    Render,
    Stop,
}

/// One event on the bus: either a raw input event or a semantic event.
/// Delivery order equals emission order; there is a single consumer.
#[derive(Clone, Debug)]
pub enum KtxEvent {
    SetContext(String),
    DeleteContext(String),
    DeleteContextConfirm(String),
    ListSelect(usize),
    DialogConfirm,
    DialogReject,
    ListOneUp,
    ListOneDown,
    ListPageUp,
    ListPageDown,
    ListTop,
    ListBottom,
    PushErrorMessage(String),
    PushSuccessMessage(String),
    PushInfoMessage(String),
    RefreshConfig,
    SetConnectivityStatus(String, KubeContextStatus),
    ShowImportView(CloudImportPath),
    EnterFilterMode,
    ExitFilterMode,
    TestConnections,
    PopView,
    Exit,
    TerminalEvent(InputEvent),
}

/// Two events mean the same thing: equal, except that carried drill-down
/// paths are compared by their segments.
pub open spec fn event_equiv(a: KtxEvent, b: KtxEvent) -> bool {
    match (a, b) {
        (KtxEvent::ShowImportView(p), KtxEvent::ShowImportView(q)) => p@ == q@,
        _ => a == b,
    }
}

/// Pointwise event equivalence of two event sequences.
pub open spec fn events_equiv(a: Seq<KtxEvent>, b: Seq<KtxEvent>) -> bool {
    a.len() == b.len() && forall|i: int| 0 <= i < a.len() ==> event_equiv(a[i], b[i])
}

} // verus!
