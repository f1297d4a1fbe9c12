//! The orchestrator: it owns the shared state and the view stack, drains
//! the bus one event at a time, routes each event to the focused view
//! first, and handles what bubbles back in its own switch. Everything it
//! cannot do itself - sending on the bus, persisting or reloading the
//! configuration file, launching probes, running cloud CLI commands - it
//! hands back as explicit actions for the surrounding tasks, so every
//! decision stays here and is verified.

use vstd::prelude::*;

use crate::config::{keeps_name, Configuration, Profile};
use crate::dialog::ConfirmationDialogView;
use crate::events::{event_equiv, InputEvent, Key, KtxEvent};
use crate::import_path::{CloudImportPath, ImportPathSegment};
use crate::import_view::{ImportKeyAction, ImportView, ImportViewState};
use crate::list_view::{ContextListView, ContextListViewState, ListKeyAction};
use crate::navigation::{is_nav_event, spec_clamp, spec_nav_move};
use crate::state::{spec_lookup, AppState};
use crate::status::{now_millis, UiMessage};
use crate::text::{concat_strs, string_pop, string_push};
use crate::view_stack::{AppView, ViewStack};

verus! {

/// What the surrounding tasks must do after one dispatch: put events on
/// the bus, persist or reload the configuration under the write guard,
/// launch a probe batch, load options for a newly requested import view,
/// or run imports.
pub enum Action {
    /// Put this event on the bus.
    Send(KtxEvent),
    /// Write the current configuration to the config store, under the
    /// write guard.
    PersistConfig,
    /// Reload the configuration from the config store, under the write
    /// guard, and install it.
    ReloadConfig,
    /// Launch one probe per named profile, at most ten in flight.
    StartProbes(Vec<String>),
    /// Load the options for this drill-down path, then push the import
    /// view showing them.
    LoadImportOptions(CloudImportPath),
    /// Run the provider import for this full path, then refresh.
    StartImport(CloudImportPath),
    /// Import these paths in order as a background sequence.
    ImportAll(Vec<CloudImportPath>),
}

/// The orchestrator's owned half of the program: shared state and view
/// stack. The bus, the terminal and the file live with the surrounding
/// tasks.
pub struct KtxApp {
    pub state: AppState,
    pub stack: ViewStack,
}

/// The names of the configured profiles, in order.
pub open spec fn spec_profile_names(c: Configuration) -> Seq<String> {
    c.profiles@.map_values(|p: Profile| p.name)
}

/// The profile names a probe batch is started for.
pub fn profile_names(config: &Configuration) -> (r: Vec<String>)
    ensures
        r@ == spec_profile_names(*config),
{
    let mut out: Vec<String> = Vec::new();
    let mut i: usize = 0;
    while i < config.profiles.len()
        invariant
            i <= config.profiles.len(),
            out@.len() == i,
            forall|k: int| 0 <= k < i ==> out@[k] == config.profiles@[k].name,
        decreases config.profiles.len() - i,
    {
        out.push(config.profiles[i].name.clone());
        i += 1;
    }
    proof {
        assert(out@ =~= spec_profile_names(*config));
    }
    out
}

/// The confirmation text shown before a profile is deleted.
pub fn delete_dialog_text(name: &str) -> (r: String)
    ensures
        r@ == "Are you sure you want to delete\n\n"@ + name@
            + "\n\nfrom your kubeconfig file?"@,
{
    let t = concat_strs("Are you sure you want to delete\n\n", name);
    let r = concat_strs(t.as_str(), "\n\nfrom your kubeconfig file?");
    proof {
        assert(r@ =~= "Are you sure you want to delete\n\n"@ + name@
            + "\n\nfrom your kubeconfig file?"@);
    }
    r
}

/// How one key edits the live filter text: characters append, backspace
/// removes the last character, Enter and Esc leave filter mode, anything
/// else does nothing.
pub open spec fn spec_filter_edit(f: Seq<char>, k: Key) -> (Seq<char>, bool) {
    match k {
        Key::Char(c) => (f.push(c), false),
        Key::Backspace => (
            if f.len() > 0 {
                f.drop_last()
            } else {
                f
            },
            false,
        ),
        Key::Enter => (f, true),
        Key::Esc => (f, true),
        _ => (f, false),
    }
}

/// The live filter text of a view; the dialog has none.
pub open spec fn spec_view_filter(v: AppView) -> Seq<char> {
    match v {
        AppView::ContextList(lv) => lv.state.filter@,
        AppView::Import(iv) => iv.state.filter@,
        AppView::ConfirmationDialog(_) => Seq::empty(),
    }
}

/// A view with its filter text replaced; the dialog is untouched.
pub open spec fn view_filter_edited(v: AppView, f: Seq<char>) -> bool {
    match v {
        AppView::ContextList(_) => spec_view_filter(v) == f,
        AppView::Import(_) => spec_view_filter(v) == f,
        AppView::ConfirmationDialog(_) => true,
    }
}

/// A view equals another except possibly for the filter text.
pub open spec fn same_view_but_filter(a: AppView, b: AppView) -> bool {
    match (a, b) {
        (AppView::ContextList(x), AppView::ContextList(y)) => x.state.selection
            == y.state.selection && x.state.remembered_g == y.state.remembered_g,
        (AppView::Import(x), AppView::Import(y)) => x.state.selection == y.state.selection
            && x.state.remembered_g == y.state.remembered_g && x.state.options == y.state.options
            && x.import_path == y.import_path,
        (AppView::ConfirmationDialog(x), AppView::ConfirmationDialog(y)) => x == y,
        _ => false,
    }
}

/// The focused view after one semantic event: list and import selections
/// move (or re-clamp) over their filtered sets; the dialog is untouched.
pub open spec fn top_after_app_event(v: AppView, s: AppState, e: KtxEvent) -> AppView {
    match v {
        AppView::ContextList(lv) => AppView::ContextList(
            ContextListView {
                state: ContextListViewState {
                    selection: ({
                        let max_len = s.spec_filtered_profiles(lv.state.filter@).len() as usize;
                        if is_nav_event(e) {
                            spec_nav_move(e, lv.state.selection, max_len)
                        } else {
                            spec_clamp(lv.state.selection, max_len)
                        }
                    }),
                    remembered_g: lv.state.remembered_g,
                    filter: lv.state.filter,
                },
            },
        ),
        AppView::Import(iv) => AppView::Import(
            ImportView {
                import_path: iv.import_path,
                state: ImportViewState {
                    selection: ({
                        let max_len = iv.state.spec_filtered_options().len() as usize;
                        if is_nav_event(e) {
                            spec_nav_move(e, iv.state.selection, max_len)
                        } else {
                            spec_clamp(iv.state.selection, max_len)
                        }
                    }),
                    remembered_g: iv.state.remembered_g,
                    options: iv.state.options,
                    filter: iv.state.filter,
                },
            },
        ),
        AppView::ConfirmationDialog(_) => v,
    }
}

/// Whether the focused view consumes this semantic event: the list and
/// the import navigator take the shared navigation events; the dialog
/// bubbles every semantic event.
pub open spec fn consumed_by_view(v: AppView, e: KtxEvent) -> bool {
    is_nav_event(e) && !(v is ConfirmationDialog)
}

/// The orchestrator's switch over one bubbled semantic event, relating
/// the state and stack before and after to the actions handed back.
/// `mid` is the stack after the focused view re-clamped itself.
pub open spec fn switch_ok(
    pre: KtxApp,
    post: KtxApp,
    mid: Seq<AppView>,
    event: KtxEvent,
    now: i64,
    actions: Seq<Action>,
) -> bool {
    match event {
        KtxEvent::ExitFilterMode => {
            &&& post.stack.views@ == mid
            &&& post.state.is_filter_on == false
            &&& same_state_but_filter_flag(pre.state, post.state)
            &&& actions.len() == 0
        },
        KtxEvent::EnterFilterMode => {
            &&& post.stack.views@ == mid
            &&& post.state.is_filter_on == true
            &&& same_state_but_filter_flag(pre.state, post.state)
            &&& actions.len() == 0
        },
        KtxEvent::TestConnections => {
            &&& post.stack.views@ == mid
            &&& post.state == pre.state
            &&& actions.len() == 1
            &&& actions[0] matches Action::StartProbes(ns) && ns@ == spec_profile_names(
                pre.state.config,
            )
        },
        KtxEvent::SetConnectivityStatus(name, status) => {
            &&& post.stack.views@ == mid
            &&& post.state.wf()
            &&& spec_lookup(post.state.connectivity@, name@) == status
            &&& forall|n: Seq<char>|
                n != name@ ==> spec_lookup(post.state.connectivity@, n) == spec_lookup(
                    pre.state.connectivity@,
                    n,
                )
            &&& post.state.config == pre.state.config
            &&& post.state.is_filter_on == pre.state.is_filter_on
            &&& post.state.last_message == pre.state.last_message
            &&& post.state.last_message_at == pre.state.last_message_at
            &&& actions.len() == 0
        },
        KtxEvent::DeleteContext(name) => {
            &&& post.stack.views@.len() == mid.len() + 1
            &&& post.stack.views@.subrange(0, mid.len() as int) == mid
            &&& post.stack.views@.last() matches AppView::ConfirmationDialog(d)
                && d.content@ == "Are you sure you want to delete\n\n"@ + name@
                + "\n\nfrom your kubeconfig file?"@ && d.on_confirm_event
                == KtxEvent::DeleteContextConfirm(name) && d.state.selection is Undecided
            &&& post.state == pre.state
            &&& actions.len() == 0
        },
        KtxEvent::RefreshConfig => {
            &&& post.stack.views@ == mid
            &&& post.state == pre.state
            &&& actions.len() == 1
            &&& actions[0] is ReloadConfig
        },
        KtxEvent::PushErrorMessage(t) => message_case_ok(
            pre,
            post,
            mid,
            Some(UiMessage::Error(t)),
            now,
            actions,
        ),
        KtxEvent::PushInfoMessage(t) => message_case_ok(
            pre,
            post,
            mid,
            Some(UiMessage::Info(t)),
            now,
            actions,
        ),
        KtxEvent::PushSuccessMessage(t) => message_case_ok(
            pre,
            post,
            mid,
            Some(UiMessage::Success(t)),
            now,
            actions,
        ),
        KtxEvent::ShowImportView(path) => {
            &&& post.stack.views@ == mid
            &&& post.state == pre.state
            &&& actions.len() == 1
            &&& actions[0] == Action::LoadImportOptions(path)
        },
        KtxEvent::PopView => pop_case_ok(pre, post, mid, actions),
        KtxEvent::DialogReject => pop_case_ok(pre, post, mid, actions),
        KtxEvent::DialogConfirm => pop_case_ok(pre, post, mid, actions),
        KtxEvent::DeleteContextConfirm(name) => {
            &&& post.stack.views@ == mid
            &&& post.state.config.profiles@ == pre.state.config.profiles@.filter(
                keeps_name(name@),
            )
            &&& post.state.config.current == pre.state.config.current
            &&& same_state_but_config(pre.state, post.state)
            &&& actions.len() == 1
            &&& actions[0] is PersistConfig
        },
        KtxEvent::SetContext(name) => {
            &&& post.stack.views@ == mid
            &&& post.state.config.current == Some(name)
            &&& post.state.config.profiles@ == pre.state.config.profiles@
            &&& same_state_but_config(pre.state, post.state)
            &&& actions.len() == 1
            &&& actions[0] is PersistConfig
        },
        _ => {
            &&& post.stack.views@ == mid
            &&& post.state == pre.state
            &&& actions.len() == 0
        },
    }
}

/// The two states agree on everything but the filter flag.
pub open spec fn same_state_but_filter_flag(a: AppState, b: AppState) -> bool {
    &&& b.config == a.config
    &&& b.connectivity == a.connectivity
    &&& b.last_message == a.last_message
    &&& b.last_message_at == a.last_message_at
}

/// The two states agree on everything but the configuration.
pub open spec fn same_state_but_config(a: AppState, b: AppState) -> bool {
    &&& b.is_filter_on == a.is_filter_on
    &&& b.connectivity == a.connectivity
    &&& b.last_message == a.last_message
    &&& b.last_message_at == a.last_message_at
}

/// Recording a status message: it replaces the last one and is stamped
/// with the dispatch time.
pub open spec fn message_case_ok(
    pre: KtxApp,
    post: KtxApp,
    mid: Seq<AppView>,
    msg: Option<UiMessage>,
    now: i64,
    actions: Seq<Action>,
) -> bool {
    &&& post.stack.views@ == mid
    &&& post.state.last_message == msg
    &&& post.state.last_message_at == Some(now)
    &&& post.state.config == pre.state.config
    &&& post.state.connectivity == pre.state.connectivity
    &&& post.state.is_filter_on == pre.state.is_filter_on
    &&& actions.len() == 0
}

/// Popping the focused view: above depth one the view is popped and exit
/// is never signaled; at depth one nothing is popped and the one action
/// is the exit event.
pub open spec fn pop_case_ok(
    pre: KtxApp,
    post: KtxApp,
    mid: Seq<AppView>,
    actions: Seq<Action>,
) -> bool {
    &&& post.state == pre.state
    &&& if mid.len() > 1 {
        post.stack.views@ == mid.drop_last() && actions.len() == 0
    } else {
        post.stack.views@ == mid && actions.len() == 1 && actions[0] == Action::Send(
            KtxEvent::Exit,
        )
    }
}

/// The whole semantic-event dispatch: the focused view first, then the
/// orchestrator's switch over what bubbles.
pub open spec fn app_dispatch_ok(
    pre: KtxApp,
    post: KtxApp,
    event: KtxEvent,
    now: i64,
    actions: Seq<Action>,
) -> bool {
    let top = pre.stack.views@.last();
    let mid = pre.stack.views@.update(
        pre.stack.views@.len() - 1,
        top_after_app_event(top, pre.state, event),
    );
    if consumed_by_view(top, event) {
        &&& post.stack.views@ == mid
        &&& post.state == pre.state
        &&& actions.len() == 0
    } else {
        switch_ok(pre, post, mid, event, now, actions)
    }
}

/// The raw-input dispatch while filter mode is on: the key edits the
/// focused view's filter text, and Enter or Esc asks to leave filter
/// mode; non-key input does nothing.
pub open spec fn filter_edit_ok(
    pre: KtxApp,
    post: KtxApp,
    evt: InputEvent,
    actions: Seq<Action>,
) -> bool {
    &&& post.state == pre.state
    &&& post.stack.views@.len() == pre.stack.views@.len()
    &&& forall|i: int|
        0 <= i < pre.stack.views@.len() - 1 ==> post.stack.views@[i] == pre.stack.views@[i]
    &&& match evt {
        InputEvent::Key(k, ctrl) => {
            let (f2, exit) = spec_filter_edit(spec_view_filter(pre.stack.views@.last()), k);
            &&& same_view_but_filter(pre.stack.views@.last(), post.stack.views@.last())
            &&& view_filter_edited(post.stack.views@.last(), f2)
            &&& if exit {
                actions.len() == 1 && actions[0] == Action::Send(KtxEvent::ExitFilterMode)
            } else {
                actions.len() == 0
            }
        },
        _ => post.stack.views@ == pre.stack.views@ && actions.len() == 0,
    }
}

/// The list view's action lifted to orchestrator actions.
pub open spec fn list_actions(a: ListKeyAction) -> Seq<Action> {
    match a {
        ListKeyAction::Emit(e) => seq![Action::Send(e)],
        _ => Seq::empty(),
    }
}

/// The import navigator's action lifted to orchestrator actions.
pub open spec fn import_actions(a: ImportKeyAction) -> Seq<Action> {
    match a {
        ImportKeyAction::Emit(e) => seq![Action::Send(e)],
        ImportKeyAction::StartImport(p) => seq![Action::StartImport(p)],
        ImportKeyAction::ImportAll(ps) => seq![Action::ImportAll(ps)],
        _ => Seq::empty(),
    }
}

/// The whole raw-input dispatch: filter editing takes absolute priority
/// while filter mode is on; otherwise the focused view handles the key
/// under its own contract and its decision becomes the actions. Raw
/// events the view bubbles back go nowhere.
pub open spec fn terminal_dispatch_ok(
    pre: KtxApp,
    post: KtxApp,
    evt: InputEvent,
    actions: Seq<Action>,
) -> bool {
    if pre.state.is_filter_on {
        filter_edit_ok(pre, post, evt, actions)
    } else {
        &&& post.state == pre.state
        &&& post.stack.views@.len() == pre.stack.views@.len()
        &&& forall|i: int|
            0 <= i < pre.stack.views@.len() - 1 ==> post.stack.views@[i] == pre.stack.views@[i]
        &&& match pre.stack.views@.last() {
            AppView::ContextList(lv) => exists|lv2: ContextListView, a: ListKeyAction|
                post.stack.views@.last() == AppView::ContextList(lv2)
                    && #[trigger] crate::list_view::list_keyboard_rel(lv, lv2, pre.state, evt, a)
                    && actions == list_actions(a),
            AppView::Import(iv) => exists|iv2: ImportView, a: ImportKeyAction|
                post.stack.views@.last() == AppView::Import(iv2)
                    && #[trigger] crate::import_view::import_keyboard_rel(iv, iv2, evt, a)
                    && actions == import_actions(a),
            AppView::ConfirmationDialog(d) => ({
                let step = crate::dialog::spec_dialog_step(
                    d.state.selection,
                    d.on_confirm_event,
                    KtxEvent::TerminalEvent(evt),
                );
                &&& post.stack.views@.last() matches AppView::ConfirmationDialog(d2)
                    && d2.state.selection == step.0 && d2.content == d.content
                    && d2.on_confirm_event == d.on_confirm_event
                &&& actions.len() == step.1.len()
                &&& forall|i: int|
                    0 <= i < actions.len() ==> (#[trigger] actions[i] matches Action::Send(e)
                        && event_equiv(e, step.1[i]))
            }),
        }
    }
}

impl KtxApp {
    /// The orchestrator is well formed while its state and stack are.
    pub open spec fn wf(self) -> bool {
        self.state.wf() && self.stack.wf()
    }

    /// The startup orchestrator: fresh state around the loaded
    /// configuration, and the profile list as the one view.
    pub fn new(config: Configuration) -> (r: KtxApp)
        ensures
            r.wf(),
            r.state.config == config,
            r.state.is_filter_on == false,
            r.state.last_message is None,
            r.stack.depth() == 1,
    {
        KtxApp { state: AppState::new(config), stack: ViewStack::new() }
    }

    /// Dispatch one event, at dispatch time `now_ms`: raw input goes
    /// through filter mode or the focused view, semantic events through
    /// the view and then the orchestrator's switch.
    pub fn handle_event(&mut self, event: KtxEvent, now_ms: i64) -> (actions: Vec<Action>)
        requires
            old(self).wf(),
        ensures
            final(self).wf(),
            (event matches KtxEvent::TerminalEvent(e) ==> terminal_dispatch_ok(
                *old(self),
                *final(self),
                e,
                actions@,
            )),
            (!(event is TerminalEvent) ==> app_dispatch_ok(
                *old(self),
                *final(self),
                event,
                now_ms,
                actions@,
            )),
    {
        match event {
            KtxEvent::TerminalEvent(evt) => self.handle_terminal_event(evt),
            _ => self.handle_app_event(event, now_ms),
        }
    }

    /// Dispatch one event at the wall-clock time of the call.
    pub fn handle_event_now(&mut self, event: KtxEvent) -> (actions: Vec<Action>)
        requires
            old(self).wf(),
        ensures
            final(self).wf(),
            (event matches KtxEvent::TerminalEvent(e) ==> terminal_dispatch_ok(
                *old(self),
                *final(self),
                e,
                actions@,
            )),
            (!(event is TerminalEvent) ==> exists|now: i64|
                app_dispatch_ok(*old(self), *final(self), event, now, actions@)),
    {
        let now_ms = now_millis();
        self.handle_event(event, now_ms)
    }

    /// Raw-input dispatch: filter editing first while filter mode is on,
    /// else the focused view's keyboard bindings.
    pub fn handle_terminal_event(&mut self, evt: InputEvent) -> (actions: Vec<Action>)
        requires
            old(self).wf(),
        ensures
            final(self).wf(),
            terminal_dispatch_ok(*old(self), *final(self), evt, actions@),
    {
        let ghost pre = *self;
        if self.state.is_filter_on {
            let key = match evt {
                InputEvent::Key(k, _) => k,
                _ => {
                    return Vec::new();
                },
            };
            let top = self.stack.take_top();
            let mut actions: Vec<Action> = Vec::new();
            let exit: bool;
            let newtop = match top {
                AppView::ContextList(mut lv) => {
                    exit = edit_filter(&mut lv.state.filter, key);
                    AppView::ContextList(lv)
                },
                AppView::Import(mut iv) => {
                    exit = edit_filter(&mut iv.state.filter, key);
                    AppView::Import(iv)
                },
                AppView::ConfirmationDialog(d) => {
                    exit = match key {
                        Key::Enter => true,
                        Key::Esc => true,
                        _ => false,
                    };
                    AppView::ConfirmationDialog(d)
                },
            };
            self.stack.push(newtop);
            if exit {
                actions.push(Action::Send(KtxEvent::ExitFilterMode));
            }
            proof {
                assert(final(self).stack.views@ =~= pre.stack.views@.update(
                    pre.stack.views@.len() - 1,
                    final(self).stack.views@.last(),
                ));
            }
            actions
        } else {
            let top = self.stack.take_top();
            let actions: Vec<Action> = match top {
                AppView::ContextList(mut lv) => {
                    let a = lv.handle_keyboard(evt, &self.state);
                    self.stack.push(AppView::ContextList(lv));
                    let mut out: Vec<Action> = Vec::new();
                    match a {
                        ListKeyAction::Emit(e) => {
                            out.push(Action::Send(e));
                        },
                        _ => {},
                    }
                    out
                },
                AppView::Import(mut iv) => {
                    let a = iv.handle_keyboard(evt);
                    self.stack.push(AppView::Import(iv));
                    let mut out: Vec<Action> = Vec::new();
                    match a {
                        ImportKeyAction::Emit(e) => {
                            out.push(Action::Send(e));
                        },
                        ImportKeyAction::StartImport(p) => {
                            out.push(Action::StartImport(p));
                        },
                        ImportKeyAction::ImportAll(ps) => {
                            out.push(Action::ImportAll(ps));
                        },
                        _ => {},
                    }
                    out
                },
                AppView::ConfirmationDialog(mut d) => {
                    let (emits, _bubbled) = d.handle_event(KtxEvent::TerminalEvent(evt));
                    self.stack.push(AppView::ConfirmationDialog(d));
                    let mut out: Vec<Action> = Vec::new();
                    let mut j: usize = 0;
                    while j < emits.len()
                        invariant
                            out@.len() == j,
                            j <= emits@.len(),
                            forall|i: int|
                                0 <= i < j ==> (#[trigger] out@[i] matches Action::Send(e)
                                    && crate::events::event_equiv(e, emits@[i])),
                        decreases emits@.len() - j,
                    {
                        let e = crate::dialog::duplicate_event(&emits[j]);
                        out.push(Action::Send(e));
                        j += 1;
                    }
                    out
                },
            };
            proof {
                assert(final(self).stack.views@ =~= pre.stack.views@.update(
                    pre.stack.views@.len() - 1,
                    final(self).stack.views@.last(),
                ));
            }
            actions
        }
    }

    /// Semantic-event dispatch: the focused view first, then the
    /// orchestrator's own switch over what bubbles back.
    pub fn handle_app_event(&mut self, event: KtxEvent, now_ms: i64) -> (actions: Vec<Action>)
        requires
            old(self).wf(),
            !(event is TerminalEvent),
        ensures
            final(self).wf(),
            app_dispatch_ok(*old(self), *final(self), event, now_ms, actions@),
    {
        let ghost pre = *self;
        let top = self.stack.take_top();
        let bubbled: Option<KtxEvent> = match top {
            AppView::ContextList(mut lv) => {
                let b = lv.handle_app_event(event, &self.state);
                self.stack.push(AppView::ContextList(lv));
                b
            },
            AppView::Import(mut iv) => {
                let b = iv.handle_app_event(event);
                self.stack.push(AppView::Import(iv));
                b
            },
            AppView::ConfirmationDialog(mut d) => {
                let (_emits, b) = d.handle_event(event);
                self.stack.push(AppView::ConfirmationDialog(d));
                b
            },
        };
        proof {
            assert(self.stack.views@ =~= pre.stack.views@.update(
                pre.stack.views@.len() - 1,
                self.stack.views@.last(),
            ));
        }
        let ghost mid = self.stack.views@;
        let ev = match bubbled {
            None => {
                return Vec::new();
            },
            Some(e) => e,
        };
        let mut actions: Vec<Action> = Vec::new();
        match ev {
            KtxEvent::ExitFilterMode => {
                self.state.is_filter_on = false;
            },
            KtxEvent::EnterFilterMode => {
                self.state.is_filter_on = true;
            },
            KtxEvent::TestConnections => {
                actions.push(Action::StartProbes(profile_names(&self.state.config)));
            },
            KtxEvent::SetConnectivityStatus(name, status) => {
                self.state.set_status(name, status);
            },
            KtxEvent::DeleteContext(name) => {
                let text = delete_dialog_text(name.as_str());
                let dialog = ConfirmationDialogView::new(
                    text,
                    KtxEvent::DeleteContextConfirm(name),
                );
                self.stack.push(AppView::ConfirmationDialog(dialog));
                proof {
                    assert(self.stack.views@.subrange(0, mid.len() as int) =~= mid);
                }
            },
            KtxEvent::RefreshConfig => {
                actions.push(Action::ReloadConfig);
            },
            KtxEvent::PushErrorMessage(t) => {
                self.state.last_message = Some(UiMessage::Error(t));
                self.state.last_message_at = Some(now_ms);
            },
            KtxEvent::PushInfoMessage(t) => {
                self.state.last_message = Some(UiMessage::Info(t));
                self.state.last_message_at = Some(now_ms);
            },
            KtxEvent::PushSuccessMessage(t) => {
                self.state.last_message = Some(UiMessage::Success(t));
                self.state.last_message_at = Some(now_ms);
            },
            KtxEvent::ShowImportView(path) => {
                actions.push(Action::LoadImportOptions(path));
            },
            KtxEvent::PopView => {
                if !self.stack.pop() {
                    actions.push(Action::Send(KtxEvent::Exit));
                }
            },
            KtxEvent::DialogReject => {
                if !self.stack.pop() {
                    actions.push(Action::Send(KtxEvent::Exit));
                }
            },
            KtxEvent::DialogConfirm => {
                if !self.stack.pop() {
                    actions.push(Action::Send(KtxEvent::Exit));
                }
            },
            KtxEvent::DeleteContextConfirm(name) => {
                self.state.config.delete_profile(name.as_str());
                actions.push(Action::PersistConfig);
            },
            KtxEvent::SetContext(name) => {
                self.state.config.set_current(name);
                actions.push(Action::PersistConfig);
            },
            _ => {},
        }
        actions
    }

    /// Install a configuration reloaded from the config store; nothing
    /// else changes.
    pub fn install_config(&mut self, config: Configuration)
        requires
            old(self).wf(),
        ensures
            final(self).wf(),
            final(self).state.config == config,
            final(self).state.connectivity == old(self).state.connectivity,
            final(self).state.is_filter_on == old(self).state.is_filter_on,
            final(self).state.last_message == old(self).state.last_message,
            final(self).state.last_message_at == old(self).state.last_message_at,
            final(self).stack.views@ == old(self).stack.views@,
    {
        self.state.config = config;
    }

    /// Push a freshly constructed import view for `path`, showing the
    /// options loaded for it; a non-empty load selects the top entry.
    pub fn push_import_view(&mut self, path: CloudImportPath, options: Vec<ImportPathSegment>)
        requires
            old(self).wf(),
        ensures
            final(self).wf(),
            final(self).state == old(self).state,
            final(self).stack.views@.len() == old(self).stack.views@.len() + 1,
            final(self).stack.views@.subrange(0, old(self).stack.views@.len() as int) == old(
                self,
            ).stack.views@,
            final(self).stack.views@.last() matches AppView::Import(iv) && iv.import_path == path
                && iv.state.options == options && iv.state.selection == (if options@.len() > 0 {
                Some(0usize)
            } else {
                None
            }) && iv.state.remembered_g == false && iv.state.filter@ == Seq::<char>::empty(),
    {
        let mut view = ImportView::new(path);
        view.state.set_options(options);
        self.stack.push(AppView::Import(view));
        proof {
            assert(final(self).stack.views@.subrange(
                0,
                old(self).stack.views@.len() as int,
            ) =~= old(self).stack.views@);
        }
    }
}

/// Edit a live filter string with one key; the result says whether to
/// leave filter mode.
fn edit_filter(filter: &mut String, key: Key) -> (exit: bool)
    ensures
        ({
            let (f2, ex) = spec_filter_edit(old(filter)@, key);
            final(filter)@ == f2 && exit == ex
        }),
{
    match key {
        Key::Char(c) => {
            string_push(filter, c);
            false
        },
        Key::Backspace => {
            string_pop(filter);
            false
        },
        Key::Enter => true,
        Key::Esc => true,
        _ => false,
    }
}

/// The write guard for the persisted configuration file. The surrounding
/// program holds this value inside the same mutual-exclusion lock that
/// serializes file writes, so exclusive (`&mut`) access here is holding
/// the guard: each logical write is one atomic append to the history,
/// and any two writes are totally ordered by it.
pub struct ConfigWriteGuard {
    pub history: Ghost<Seq<Configuration>>,
}

impl ConfigWriteGuard {
    /// The total order of logical writes recorded so far.
    pub open spec fn writes(self) -> Seq<Configuration> {
        self.history@
    }

    /// The persisted file's content: the last completed write, if any.
    pub open spec fn current(self) -> Option<Configuration> {
        if self.writes().len() > 0 {
            Some(self.writes().last())
        } else {
            None
        }
    }

    /// A fresh guard with no writes recorded.
    pub fn new() -> (r: ConfigWriteGuard)
        ensures
            r.writes() =~= Seq::<Configuration>::empty(),
    {
        ConfigWriteGuard { history: Ghost(Seq::empty()) }
    }

    /// Record one guarded write of `config`. The caller performs the file
    /// write while holding this value exclusively, so the write lands
    /// whole, after every earlier write and before every later one.
    pub fn record_write(&mut self, config: &Configuration)
        ensures
            final(self).writes() == old(self).writes().push(*config),
            final(self).current() == Some(*config),
    {
        let ghost h = self.history@.push(*config);
        self.history = Ghost(h);
    }
}

/// Guarded writes never interleave: the history is one total order of
/// whole logical writes - every write stands at exactly one position,
/// later writes follow earlier ones - and the persisted file equals the
/// last write of that order, never a mixture of two.
pub proof fn lemma_guarded_writes_serialize(g: ConfigWriteGuard)
    ensures
        g.writes().len() > 0 ==> g.current() == Some(g.writes().last()),
        g.writes().len() == 0 ==> g.current() is None,
{
}

} // verus!
