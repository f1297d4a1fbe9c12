//! The profile list view: filtered, ordered profiles with the current one
//! highlighted and connectivity right-aligned. Translates key presses into
//! semantic events and applies shared navigation to its selection.

use vstd::prelude::*;

use crate::events::{InputEvent, Key, KtxEvent};
use crate::import_path::CloudImportPath;
use crate::navigation::{
    handle_list_navigation_event, handle_list_navigation_keyboard_event, is_nav_event, spec_clamp,
    spec_key_nav, spec_nav_move,
};
use crate::state::AppState;

verus! {

/// The list view's private state: selection, pending-`g` chord flag, and
/// the live text filter.
pub struct ContextListViewState {
    pub selection: Option<usize>,
    pub remembered_g: bool,
    pub filter: String,
}

/// The profile list view.
pub struct ContextListView {
    pub state: ContextListViewState,
}

/// What the list view asks of its surroundings after one key press.
pub enum ListKeyAction {
    /// Put this event on the bus.
    Emit(KtxEvent),
    /// Unconsumed; hand the raw event back.
    Bubble(InputEvent),
    /// Consumed with nothing to do.
    Nothing,
}

/// What a key the shared navigation did not take means for the list: Enter
/// switches to the selected profile, Esc and `q` pop the view, `d` asks for
/// deletion of the selected profile, `t` starts the prober, `i` opens the
/// import navigator at an empty path; anything else bubbles. A selection
/// past the filtered set does nothing rather than fail.
pub open spec fn list_bubbled_ok(
    b: InputEvent,
    sel: Option<usize>,
    fc: Seq<crate::config::Profile>,
    r: ListKeyAction,
) -> bool {
    match b {
        InputEvent::Key(k, ctrl) => match k {
            Key::Enter => match sel {
                Some(i) => if i < fc.len() {
                    r == ListKeyAction::Emit(KtxEvent::SetContext(fc[i as int].name))
                } else {
                    r == ListKeyAction::Nothing
                },
                None => r == ListKeyAction::Bubble(b),
            },
            Key::Esc => r == ListKeyAction::Emit(KtxEvent::PopView),
            Key::Char(c) => if c == 'q' {
                r == ListKeyAction::Emit(KtxEvent::PopView)
            } else if c == 'd' {
                match sel {
                    Some(i) => if i < fc.len() {
                        r == ListKeyAction::Emit(KtxEvent::DeleteContext(fc[i as int].name))
                    } else {
                        r == ListKeyAction::Nothing
                    },
                    None => r == ListKeyAction::Bubble(b),
                }
            } else if c == 't' {
                r == ListKeyAction::Emit(KtxEvent::TestConnections)
            } else if c == 'i' {
                r matches ListKeyAction::Emit(e) && e matches KtxEvent::ShowImportView(p) && p@
                    == Seq::<crate::import_path::ImportPathSegment>::empty()
            } else {
                r == ListKeyAction::Bubble(b)
            },
            _ => r == ListKeyAction::Bubble(b),
        },
        _ => r == ListKeyAction::Bubble(b),
    }
}

/// The whole keyboard contract of the list view, relating the view before
/// and after one key press to the action handed back.
pub open spec fn list_keyboard_rel(
    pre: ContextListView,
    post: ContextListView,
    s: AppState,
    event: InputEvent,
    r: ListKeyAction,
) -> bool {
    &&& post.state.filter == pre.state.filter
    &&& post.state.selection == pre.state.selection
    &&& ({
        let (emit, bub, g2) = spec_key_nav(event, pre.state.remembered_g);
        &&& (emit matches Some(e) ==> r == ListKeyAction::Emit(e) && post.state.remembered_g == g2)
        &&& (emit is None && bub is None ==> r == ListKeyAction::Nothing && post.state.remembered_g
            == g2)
        &&& (bub matches Some(b) ==> list_bubbled_ok(
            b,
            pre.state.selection,
            s.spec_filtered_profiles(pre.state.filter@),
            r,
        ) && post.state.remembered_g == false)
    })
}

/// The whole semantic-event contract of the list view: navigation moves
/// the re-clamped selection; everything else only re-clamps and bubbles.
pub open spec fn list_app_event_rel(
    pre: ContextListView,
    post: ContextListView,
    s: AppState,
    event: KtxEvent,
    bubbled: Option<KtxEvent>,
) -> bool {
    &&& post.state.filter == pre.state.filter
    &&& post.state.remembered_g == pre.state.remembered_g
    &&& ({
        let max_len = s.spec_filtered_profiles(pre.state.filter@).len();
        &&& (is_nav_event(event) ==> post.state.selection == spec_nav_move(
            event,
            pre.state.selection,
            max_len as usize,
        ) && bubbled is None)
        &&& (!is_nav_event(event) ==> post.state.selection == spec_clamp(
            pre.state.selection,
            max_len as usize,
        ) && bubbled == Some(event))
    })
}

impl ContextListView {
    /// A fresh list view: top of the list selected, no chord pending, no
    /// filter.
    pub fn new() -> (r: Self)
        ensures
            r.state.selection == Some(0usize),
            r.state.remembered_g == false,
            r.state.filter@ == Seq::<char>::empty(),
    {
        ContextListView {
            state: ContextListViewState {
                selection: Some(0),
                remembered_g: false,
                filter: String::new(),
            },
        }
    }

    /// Handle one key press against the shared state: shared navigation
    /// first, then the list's own bindings.
    pub fn handle_keyboard(&mut self, event: InputEvent, state: &AppState) -> (r: ListKeyAction)
        ensures
            list_keyboard_rel(*old(self), *final(self), *state, event, r),
    {
        let (emit, bubbled) = handle_list_navigation_keyboard_event(
            event,
            &mut self.state.remembered_g,
        );
        if let Some(e) = emit {
            return ListKeyAction::Emit(e);
        }
        let b = match bubbled {
            None => {
                return ListKeyAction::Nothing;
            },
            Some(b) => b,
        };
        match b {
            InputEvent::Key(Key::Enter, _) => match self.state.selection {
                Some(i) => {
                    let fc = state.get_filtered_contexts(self.state.filter.as_str());
                    if i < fc.len() {
                        ListKeyAction::Emit(KtxEvent::SetContext(fc[i].0.name.clone()))
                    } else {
                        ListKeyAction::Nothing
                    }
                },
                None => {
                    self.state.remembered_g = false;
                    ListKeyAction::Bubble(b)
                },
            },
            InputEvent::Key(Key::Esc, _) => ListKeyAction::Emit(KtxEvent::PopView),
            InputEvent::Key(Key::Char(c), _) => {
                if c == 'q' {
                    ListKeyAction::Emit(KtxEvent::PopView)
                } else if c == 'd' {
                    match self.state.selection {
                        Some(i) => {
                            let fc = state.get_filtered_contexts(self.state.filter.as_str());
                            if i < fc.len() {
                                ListKeyAction::Emit(
                                    KtxEvent::DeleteContext(fc[i].0.name.clone()),
                                )
                            } else {
                                ListKeyAction::Nothing
                            }
                        },
                        None => {
                            self.state.remembered_g = false;
                            ListKeyAction::Bubble(b)
                        },
                    }
                } else if c == 't' {
                    ListKeyAction::Emit(KtxEvent::TestConnections)
                } else if c == 'i' {
                    let empty: Vec<crate::import_path::ImportPathSegment> = Vec::new();
                    ListKeyAction::Emit(KtxEvent::ShowImportView(CloudImportPath::from(empty)))
                } else {
                    self.state.remembered_g = false;
                    ListKeyAction::Bubble(b)
                }
            },
            _ => {
                self.state.remembered_g = false;
                ListKeyAction::Bubble(b)
            },
        }
    }

    /// Handle one semantic event: shared navigation over the filtered set;
    /// anything else bubbles.
    pub fn handle_app_event(&mut self, event: KtxEvent, state: &AppState) -> (bubbled: Option<
        KtxEvent>)
        ensures
            list_app_event_rel(*old(self), *final(self), *state, event, bubbled),
    {
        let fc = state.get_filtered_contexts(self.state.filter.as_str());
        let max_len = fc.len();
        handle_list_navigation_event(event, &mut self.state.selection, max_len)
    }

    /// Replace the live filter text.
    pub fn update_filter(&mut self, filter: String)
        ensures
            final(self).state.filter == filter,
            final(self).state.selection == old(self).state.selection,
            final(self).state.remembered_g == old(self).state.remembered_g,
    {
        self.state.filter = filter;
    }

    /// The live filter text.
    pub fn get_filter(&self) -> (r: String)
        ensures
            r == self.state.filter,
    {
        self.state.filter.clone()
    }
}

} // verus!
