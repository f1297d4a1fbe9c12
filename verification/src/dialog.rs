//! The modal confirmation dialog: two buttons, free-text content, and one
//! carried event to replay when the user confirms. It intercepts navigation
//! entirely; the only input it bubbles is Enter while nothing is selected.

use vstd::prelude::*;

use crate::events::{event_equiv, events_equiv, InputEvent, Key, KtxEvent};

verus! {

/// The dialog's tri-state selection, reset on accept and on reject.
#[derive(Clone, Copy, PartialEq, Eq, Structural, Debug)]
pub enum ConfirmationDialogSelection {
    Confirm,
    Reject,
    Undecided,
}

/// The dialog's private view-state.
pub struct ConfirmationDialogViewState {
    pub selection: ConfirmationDialogSelection,
}

/// A confirmation dialog carrying its content text and the event to emit
/// when accepted.
pub struct ConfirmationDialogView {
    pub content: String,
    pub on_confirm_event: KtxEvent,
    pub state: ConfirmationDialogViewState,
}

/// Left/right toggling between the two buttons; from the undecided state it
/// lands on whichever side was pressed toward.
pub open spec fn spec_toggle(
    sel: ConfirmationDialogSelection,
    default: ConfirmationDialogSelection,
) -> ConfirmationDialogSelection {
    match sel {
        ConfirmationDialogSelection::Confirm => ConfirmationDialogSelection::Reject,
        ConfirmationDialogSelection::Reject => ConfirmationDialogSelection::Confirm,
        ConfirmationDialogSelection::Undecided => default,
    }
}

/// What one event does to the dialog: the new selection, the events to
/// emit onto the bus, and the event to bubble unconsumed.
/// `y` accepts at once; Esc and `n` reject at once; left/h and right/l
/// toggle; Enter follows the current selection and bubbles while nothing is
/// selected. Accepting emits the carried event and then the confirmation;
/// rejecting emits only the rejection.
pub open spec fn spec_dialog_step(
    sel: ConfirmationDialogSelection,
    on_confirm: KtxEvent,
    event: KtxEvent,
) -> (ConfirmationDialogSelection, Seq<KtxEvent>, Option<KtxEvent>) {
    match event {
        KtxEvent::TerminalEvent(input) => match input {
            InputEvent::Key(k, ctrl) => match k {
                Key::Char(c) => if c == 'y' {
                    (
                        ConfirmationDialogSelection::Undecided,
                        seq![on_confirm, KtxEvent::DialogConfirm],
                        None::<KtxEvent>,
                    )
                } else if c == 'n' {
                    (
                        ConfirmationDialogSelection::Undecided,
                        seq![KtxEvent::DialogReject],
                        None::<KtxEvent>,
                    )
                } else if c == 'h' {
                    (
                        spec_toggle(sel, ConfirmationDialogSelection::Confirm),
                        Seq::empty(),
                        None::<KtxEvent>,
                    )
                } else if c == 'l' {
                    (
                        spec_toggle(sel, ConfirmationDialogSelection::Reject),
                        Seq::empty(),
                        None::<KtxEvent>,
                    )
                } else {
                    (sel, Seq::empty(), Some(event))
                },
                Key::Esc => (
                    ConfirmationDialogSelection::Undecided,
                    seq![KtxEvent::DialogReject],
                    None::<KtxEvent>,
                ),
                Key::Up => (
                    spec_toggle(sel, ConfirmationDialogSelection::Confirm),
                    Seq::empty(),
                    None::<KtxEvent>,
                ),
                Key::Down => (
                    spec_toggle(sel, ConfirmationDialogSelection::Reject),
                    Seq::empty(),
                    None::<KtxEvent>,
                ),
                Key::Enter => match sel {
                    ConfirmationDialogSelection::Confirm => (
                        ConfirmationDialogSelection::Undecided,
                        seq![on_confirm, KtxEvent::DialogConfirm],
                        None::<KtxEvent>,
                    ),
                    ConfirmationDialogSelection::Reject => (
                        ConfirmationDialogSelection::Undecided,
                        seq![KtxEvent::DialogReject],
                        None::<KtxEvent>,
                    ),
                    ConfirmationDialogSelection::Undecided => (sel, Seq::empty(), Some(event)),
                },
                _ => (sel, Seq::empty(), Some(event)),
            },
            _ => (sel, Seq::empty(), Some(event)),
        },
        _ => (sel, Seq::empty(), Some(event)),
    }
}

impl ConfirmationDialogView {
    /// A fresh dialog with nothing selected.
    pub fn new(content: String, on_confirm_event: KtxEvent) -> (r: Self)
        ensures
            r.content == content,
            r.on_confirm_event == on_confirm_event,
            r.state.selection is Undecided,
    {
        ConfirmationDialogView {
            content,
            on_confirm_event,
            state: ConfirmationDialogViewState {
                selection: ConfirmationDialogSelection::Undecided,
            },
        }
    }

    /// Toggle between the two buttons, landing on `default` from the
    /// undecided state.
    pub fn toggle_state(&mut self, default: ConfirmationDialogSelection)
        ensures
            final(self).state.selection == spec_toggle(old(self).state.selection, default),
            final(self).content == old(self).content,
            final(self).on_confirm_event == old(self).on_confirm_event,
    {
        self.state.selection = match self.state.selection {
            ConfirmationDialogSelection::Confirm => ConfirmationDialogSelection::Reject,
            ConfirmationDialogSelection::Reject => ConfirmationDialogSelection::Confirm,
            ConfirmationDialogSelection::Undecided => default,
        };
    }

    /// Handle one event; returns the events to emit onto the bus, in
    /// order, and the event to bubble when unconsumed.
    pub fn handle_event(&mut self, event: KtxEvent) -> (r: (Vec<KtxEvent>, Option<KtxEvent>))
        ensures
            final(self).state.selection == spec_dialog_step(
                old(self).state.selection,
                old(self).on_confirm_event,
                event,
            ).0,
            events_equiv(
                r.0@,
                spec_dialog_step(old(self).state.selection, old(self).on_confirm_event, event).1,
            ),
            r.1 == spec_dialog_step(
                old(self).state.selection,
                old(self).on_confirm_event,
                event,
            ).2,
            final(self).content == old(self).content,
            final(self).on_confirm_event == old(self).on_confirm_event,
    {
        match &event {
            KtxEvent::TerminalEvent(input) => match input {
                InputEvent::Key(k, _ctrl) => match k {
                    Key::Char(c) => {
                        if *c == 'y' {
                            (self.accept(), None)
                        } else if *c == 'n' {
                            (self.reject(), None)
                        } else if *c == 'h' {
                            self.toggle_state(ConfirmationDialogSelection::Confirm);
                            (Vec::new(), None)
                        } else if *c == 'l' {
                            self.toggle_state(ConfirmationDialogSelection::Reject);
                            (Vec::new(), None)
                        } else {
                            (Vec::new(), Some(event))
                        }
                    },
                    Key::Esc => (self.reject(), None),
                    Key::Up => {
                        self.toggle_state(ConfirmationDialogSelection::Confirm);
                        (Vec::new(), None)
                    },
                    Key::Down => {
                        self.toggle_state(ConfirmationDialogSelection::Reject);
                        (Vec::new(), None)
                    },
                    Key::Enter => match self.state.selection {
                        ConfirmationDialogSelection::Confirm => (self.accept(), None),
                        ConfirmationDialogSelection::Reject => (self.reject(), None),
                        ConfirmationDialogSelection::Undecided => (Vec::new(), Some(event)),
                    },
                    _ => (Vec::new(), Some(event)),
                },
                _ => (Vec::new(), Some(event)),
            },
            _ => (Vec::new(), Some(event)),
        }
    }

    /// Accept: reset the selection and emit the carried event, then the
    /// confirmation.
    fn accept(&mut self) -> (r: Vec<KtxEvent>)
        ensures
            final(self).state.selection is Undecided,
            events_equiv(r@, seq![old(self).on_confirm_event, KtxEvent::DialogConfirm]),
            final(self).content == old(self).content,
            final(self).on_confirm_event == old(self).on_confirm_event,
    {
        self.state.selection = ConfirmationDialogSelection::Undecided;
        let mut out: Vec<KtxEvent> = Vec::new();
        out.push(self.duplicate_on_confirm());
        out.push(KtxEvent::DialogConfirm);
        out
    }

    /// Reject: reset the selection and emit the rejection.
    fn reject(&mut self) -> (r: Vec<KtxEvent>)
        ensures
            final(self).state.selection is Undecided,
            r@ == seq![KtxEvent::DialogReject],
            final(self).content == old(self).content,
            final(self).on_confirm_event == old(self).on_confirm_event,
    {
        self.state.selection = ConfirmationDialogSelection::Undecided;
        let mut out: Vec<KtxEvent> = Vec::new();
        out.push(KtxEvent::DialogReject);
        out
    }

    /// A copy of the carried on-confirm event, equivalent variant for
    /// variant.
    fn duplicate_on_confirm(&self) -> (r: KtxEvent)
        ensures
            event_equiv(r, self.on_confirm_event),
    {
        duplicate_event(&self.on_confirm_event)
    }
}

/// A copy of an event, equivalent variant for variant: equal, except that a
/// carried drill-down path is rebuilt segment for segment.
pub fn duplicate_event(e: &KtxEvent) -> (r: KtxEvent)
    ensures
        event_equiv(r, *e),
{
    match e {
        KtxEvent::SetContext(s) => KtxEvent::SetContext(s.clone()),
        KtxEvent::DeleteContext(s) => KtxEvent::DeleteContext(s.clone()),
        KtxEvent::DeleteContextConfirm(s) => KtxEvent::DeleteContextConfirm(s.clone()),
        KtxEvent::ListSelect(p) => KtxEvent::ListSelect(*p),
        KtxEvent::DialogConfirm => KtxEvent::DialogConfirm,
        KtxEvent::DialogReject => KtxEvent::DialogReject,
        KtxEvent::ListOneUp => KtxEvent::ListOneUp,
        KtxEvent::ListOneDown => KtxEvent::ListOneDown,
        KtxEvent::ListPageUp => KtxEvent::ListPageUp,
        KtxEvent::ListPageDown => KtxEvent::ListPageDown,
        KtxEvent::ListTop => KtxEvent::ListTop,
        KtxEvent::ListBottom => KtxEvent::ListBottom,
        KtxEvent::PushErrorMessage(s) => KtxEvent::PushErrorMessage(s.clone()),
        KtxEvent::PushSuccessMessage(s) => KtxEvent::PushSuccessMessage(s.clone()),
        KtxEvent::PushInfoMessage(s) => KtxEvent::PushInfoMessage(s.clone()),
        KtxEvent::RefreshConfig => KtxEvent::RefreshConfig,
        KtxEvent::SetConnectivityStatus(s, st) => KtxEvent::SetConnectivityStatus(
            s.clone(),
            st.duplicate(),
        ),
        KtxEvent::ShowImportView(p) => KtxEvent::ShowImportView(duplicate_path(p)),
        KtxEvent::EnterFilterMode => KtxEvent::EnterFilterMode,
        KtxEvent::ExitFilterMode => KtxEvent::ExitFilterMode,
        KtxEvent::TestConnections => KtxEvent::TestConnections,
        KtxEvent::PopView => KtxEvent::PopView,
        KtxEvent::Exit => KtxEvent::Exit,
        KtxEvent::TerminalEvent(i) => KtxEvent::TerminalEvent(*i),
    }
}

/// A copy of a drill-down path, segment for segment.
fn duplicate_path(p: &crate::import_path::CloudImportPath) -> (r: crate::import_path::CloudImportPath)
    ensures
        r@ == p@,
{
    let mut segments: Vec<crate::import_path::ImportPathSegment> = Vec::new();
    let mut i: usize = 0;
    while i < p.segments.len()
        invariant
            i <= p.segments.len(),
            segments@ =~= p.segments@.subrange(0, i as int),
        decreases p.segments.len() - i,
    {
        let seg = &p.segments[i];
        let secondary = match &seg.2 {
            Some(s) => Some(s.clone()),
            None => None,
        };
        segments.push((seg.0.clone(), seg.1.clone(), secondary));
        i += 1;
    }
    proof {
        assert(segments@ =~= p.segments@);
    }
    crate::import_path::CloudImportPath { segments }
}

} // verus!
