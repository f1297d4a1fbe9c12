//! The cloud import navigator: one view instance per drill-down depth,
//! each with its own freshly loaded options, a text filter and the shared
//! list-navigation bindings. Enter appends the selected option to the
//! path; a full path triggers the provider's import, a shorter one pushes
//! a deeper navigator.

use vstd::prelude::*;

use crate::events::{InputEvent, Key, KtxEvent};
use crate::import_path::{seq_is_full, seq_is_listing_clusters, CloudImportPath, ImportPathSegment};
use crate::navigation::{
    handle_list_navigation_event, handle_list_navigation_keyboard_event, is_nav_event, spec_clamp,
    spec_key_nav, spec_nav_move,
};
use crate::text::{matches_filter, spec_matches};

verus! {

/// The predicate the text filter applies to one option's display name.
pub open spec fn option_matches(filter: Seq<char>) -> spec_fn(ImportPathSegment) -> bool {
    |o: ImportPathSegment| spec_matches(o.1@, filter)
}

/// An exact copy of one option, field for field.
pub fn dup_segment(o: &ImportPathSegment) -> (r: ImportPathSegment)
    ensures
        r == *o,
{
    let secondary = match &o.2 {
        Some(s) => Some(s.clone()),
        None => None,
    };
    (o.0.clone(), o.1.clone(), secondary)
}

/// The import navigator's private state: selection, pending-`g` chord
/// flag, the options loaded for this depth, and the live text filter.
pub struct ImportViewState {
    pub selection: Option<usize>,
    pub remembered_g: bool,
    pub options: Vec<ImportPathSegment>,
    pub filter: String,
}

impl ImportViewState {
    /// The options passing the text filter, in loaded order.
    pub open spec fn spec_filtered_options(self) -> Seq<ImportPathSegment> {
        self.options@.filter(option_matches(self.filter@))
    }

    /// The options passing the text filter.
    pub fn get_filtered_options(&self) -> (r: Vec<ImportPathSegment>)
        ensures
            r@ == self.spec_filtered_options(),
    {
        let ghost keep = option_matches(self.filter@);
        let ghost orig = self.options@;
        let mut out: Vec<ImportPathSegment> = Vec::new();
        let mut i: usize = 0;
        while i < self.options.len()
            invariant
                i <= self.options.len(),
                self.options@ == orig,
                keep == option_matches(self.filter@),
                out@ == orig.subrange(0, i as int).filter(keep),
            decreases self.options.len() - i,
        {
            proof {
                broadcast use vstd::seq_lib::group_filter_ensures;

                assert(orig.subrange(0, i + 1).drop_last() =~= orig.subrange(0, i as int));
                reveal(Seq::filter);
            }
            let o = &self.options[i];
            if matches_filter(o.1.as_str(), self.filter.as_str()) {
                out.push(dup_segment(o));
            }
            i += 1;
        }
        proof {
            assert(orig.subrange(0, orig.len() as int) =~= orig);
        }
        out
    }

    /// The currently selected filtered option.
    pub fn get_selected_option(&self) -> (r: ImportPathSegment)
        requires
            self.selection matches Some(i) && i < self.spec_filtered_options().len(),
        ensures
            self.selection matches Some(i) ==> r == self.spec_filtered_options()[i as int],
    {
        let filtered = self.get_filtered_options();
        let i = match self.selection {
            Some(i) => i,
            None => {
                proof {
                    assert(false);
                }
                0
            },
        };
        dup_segment(&filtered[i])
    }

    /// Install the options loaded for this depth; a non-empty load selects
    /// the top entry.
    pub fn set_options(&mut self, options: Vec<ImportPathSegment>)
        ensures
            final(self).options == options,
            final(self).selection == (if options@.len() > 0 {
                Some(0usize)
            } else {
                old(self).selection
            }),
            final(self).remembered_g == old(self).remembered_g,
            final(self).filter == old(self).filter,
    {
        let select = options.len() > 0;
        self.options = options;
        if select {
            self.selection = Some(0);
        }
    }
}

/// One depth of the import navigator: the path drilled so far and this
/// depth's own state.
pub struct ImportView {
    pub import_path: CloudImportPath,
    pub state: ImportViewState,
}

/// What Enter does at this depth: run the provider's import when the
/// longer path is full, drill one level deeper when it is not, and nothing
/// when nothing (valid) is selected.
pub enum EnterOutcome {
    Import(CloudImportPath),
    Push(CloudImportPath),
    Nothing,
}

/// The Enter decision as a predicate: with a selected, in-range filtered
/// option the new path is the old one with that option appended; full
/// paths import, shorter ones push. Out-of-range selections do nothing
/// rather than fail.
pub open spec fn enter_outcome_ok(v: ImportView, r: EnterOutcome) -> bool {
    let fo = v.state.spec_filtered_options();
    match v.state.selection {
        None => r is Nothing,
        Some(i) => if i >= fo.len() {
            r is Nothing
        } else {
            let longer = v.import_path@.push(fo[i as int]);
            if seq_is_full(longer) {
                r matches EnterOutcome::Import(p) && p@ == longer
            } else {
                r matches EnterOutcome::Push(p) && p@ == longer
            }
        },
    }
}

/// What the import navigator asks of its surroundings after one key
/// press.
pub enum ImportKeyAction {
    /// Put this event on the bus.
    Emit(KtxEvent),
    /// Run the provider import for this full path, then refresh.
    StartImport(CloudImportPath),
    /// Import every path in order as a background sequence.
    ImportAll(Vec<CloudImportPath>),
    /// Unconsumed; hand the raw event back.
    Bubble(InputEvent),
    /// Consumed with nothing to do.
    Nothing,
}

/// What a key the shared navigation did not take means here: Esc pops the
/// navigator, `a` imports every filtered option while this depth is
/// listing clusters, Enter follows the Enter decision; anything else
/// bubbles.
pub open spec fn import_bubbled_ok(b: InputEvent, v: ImportView, r: ImportKeyAction) -> bool {
    match b {
        InputEvent::Key(k, ctrl) => match k {
            Key::Esc => r == ImportKeyAction::Emit(KtxEvent::PopView),
            Key::Char(c) => if c == 'a' {
                if seq_is_listing_clusters(v.import_path@) {
                    ({
                        let fo = v.state.spec_filtered_options();
                        &&& r matches ImportKeyAction::ImportAll(ps)
                        &&& ps@.len() == fo.len()
                        &&& forall|i: int|
                            0 <= i < fo.len() ==> (#[trigger] ps@[i])@ == v.import_path@.push(
                                fo[i],
                            )
                    })
                } else {
                    r == ImportKeyAction::Nothing
                }
            } else {
                r == ImportKeyAction::Bubble(b)
            },
            Key::Enter => spec_enter_to_action(v, r),
            _ => r == ImportKeyAction::Bubble(b),
        },
        _ => r == ImportKeyAction::Bubble(b),
    }
}

/// The Enter decision lifted to a key action: imports start, pushes show a
/// deeper navigator.
pub open spec fn spec_enter_to_action(v: ImportView, r: ImportKeyAction) -> bool {
    let fo = v.state.spec_filtered_options();
    match v.state.selection {
        None => r == ImportKeyAction::Nothing,
        Some(i) => if i >= fo.len() {
            r == ImportKeyAction::Nothing
        } else {
            let longer = v.import_path@.push(fo[i as int]);
            if seq_is_full(longer) {
                r matches ImportKeyAction::StartImport(p) && p@ == longer
            } else {
                r matches ImportKeyAction::Emit(e) && e matches KtxEvent::ShowImportView(p) && p@
                    == longer
            }
        },
    }
}

/// The whole keyboard contract of the import navigator, relating the view
/// before and after one key press to the action handed back.
pub open spec fn import_keyboard_rel(
    pre: ImportView,
    post: ImportView,
    event: InputEvent,
    r: ImportKeyAction,
) -> bool {
    &&& post.state.filter == pre.state.filter
    &&& post.state.selection == pre.state.selection
    &&& post.state.options == pre.state.options
    &&& post.import_path == pre.import_path
    &&& ({
        let (emit, bub, g2) = spec_key_nav(event, pre.state.remembered_g);
        &&& (emit matches Some(e) ==> r == ImportKeyAction::Emit(e) && post.state.remembered_g
            == g2)
        &&& (emit is None && bub is None ==> r == ImportKeyAction::Nothing
            && post.state.remembered_g == g2)
        &&& (bub matches Some(b) ==> import_bubbled_ok(b, pre, r) && post.state.remembered_g
            == false)
    })
}

/// The whole semantic-event contract of the import navigator: navigation
/// moves the re-clamped selection over the filtered options; everything
/// else only re-clamps and bubbles.
pub open spec fn import_app_event_rel(
    pre: ImportView,
    post: ImportView,
    event: KtxEvent,
    bubbled: Option<KtxEvent>,
) -> bool {
    &&& post.state.filter == pre.state.filter
    &&& post.state.remembered_g == pre.state.remembered_g
    &&& post.state.options == pre.state.options
    &&& post.import_path == pre.import_path
    &&& ({
        let max_len = pre.state.spec_filtered_options().len();
        &&& (is_nav_event(event) ==> post.state.selection == spec_nav_move(
            event,
            pre.state.selection,
            max_len as usize,
        ) && bubbled is None)
        &&& (!is_nav_event(event) ==> post.state.selection == spec_clamp(
            pre.state.selection,
            max_len as usize,
        ) && bubbled == Some(event))
    })
}

impl ImportView {
    /// A fresh navigator at `import_path`: nothing selected, no chord
    /// pending, no options yet, no filter.
    pub fn new(import_path: CloudImportPath) -> (r: Self)
        ensures
            r.import_path == import_path,
            r.state.selection is None,
            r.state.remembered_g == false,
            r.state.options@ =~= Seq::<ImportPathSegment>::empty(),
            r.state.filter@ == Seq::<char>::empty(),
    {
        ImportView {
            import_path,
            state: ImportViewState {
                selection: None,
                remembered_g: false,
                options: Vec::new(),
                filter: String::new(),
            },
        }
    }

    /// The Enter decision for the current selection.
    pub fn enter_action(&self) -> (r: EnterOutcome)
        ensures
            enter_outcome_ok(*self, r),
    {
        let filtered = self.state.get_filtered_options();
        let i = match self.state.selection {
            None => {
                return EnterOutcome::Nothing;
            },
            Some(i) => i,
        };
        if i >= filtered.len() {
            return EnterOutcome::Nothing;
        }
        let option = dup_segment(&filtered[i]);
        let longer = self.import_path.push_clone(option);
        if longer.is_full() {
            EnterOutcome::Import(longer)
        } else {
            EnterOutcome::Push(longer)
        }
    }

    /// One path per filtered option, each the current path with that
    /// option appended, in listed order: the batch an "import all" runs
    /// sequentially in the background.
    pub fn import_all_paths(&self) -> (r: Vec<CloudImportPath>)
        ensures
            r@.len() == self.state.spec_filtered_options().len(),
            forall|i: int|
                0 <= i < r@.len() ==> (#[trigger] r@[i])@ == self.import_path@.push(
                    self.state.spec_filtered_options()[i],
                ),
    {
        let filtered = self.state.get_filtered_options();
        let mut out: Vec<CloudImportPath> = Vec::new();
        let mut i: usize = 0;
        while i < filtered.len()
            invariant
                i <= filtered.len(),
                filtered@ == self.state.spec_filtered_options(),
                out@.len() == i,
                forall|k: int|
                    0 <= k < i ==> (#[trigger] out@[k])@ == self.import_path@.push(filtered@[k]),
            decreases filtered.len() - i,
        {
            let option = dup_segment(&filtered[i]);
            out.push(self.import_path.push_clone(option));
            i += 1;
        }
        out
    }

    /// Handle one key press: shared navigation first, then the navigator's
    /// own bindings.
    pub fn handle_keyboard(&mut self, event: InputEvent) -> (r: ImportKeyAction)
        ensures
            import_keyboard_rel(*old(self), *final(self), event, r),
    {
        let (emit, bubbled) = handle_list_navigation_keyboard_event(
            event,
            &mut self.state.remembered_g,
        );
        if let Some(e) = emit {
            return ImportKeyAction::Emit(e);
        }
        let b = match bubbled {
            None => {
                return ImportKeyAction::Nothing;
            },
            Some(b) => b,
        };
        match b {
            InputEvent::Key(Key::Esc, _) => ImportKeyAction::Emit(KtxEvent::PopView),
            InputEvent::Key(Key::Char(c), _) => {
                if c == 'a' {
                    if self.import_path.is_listing_clusters() {
                        ImportKeyAction::ImportAll(self.import_all_paths())
                    } else {
                        ImportKeyAction::Nothing
                    }
                } else {
                    self.state.remembered_g = false;
                    ImportKeyAction::Bubble(b)
                }
            },
            InputEvent::Key(Key::Enter, _) => match self.enter_action() {
                EnterOutcome::Import(p) => ImportKeyAction::StartImport(p),
                EnterOutcome::Push(p) => ImportKeyAction::Emit(KtxEvent::ShowImportView(p)),
                EnterOutcome::Nothing => ImportKeyAction::Nothing,
            },
            _ => {
                self.state.remembered_g = false;
                ImportKeyAction::Bubble(b)
            },
        }
    }

    /// Handle one semantic event: shared navigation over the filtered
    /// options; anything else bubbles.
    pub fn handle_app_event(&mut self, event: KtxEvent) -> (bubbled: Option<KtxEvent>)
        ensures
            import_app_event_rel(*old(self), *final(self), event, bubbled),
    {
        let filtered = self.state.get_filtered_options();
        let max_len = filtered.len();
        handle_list_navigation_event(event, &mut self.state.selection, max_len)
    }

    /// Replace the live filter text.
    pub fn update_filter(&mut self, filter: String)
        ensures
            final(self).state.filter == filter,
            final(self).state.selection == old(self).state.selection,
            final(self).state.remembered_g == old(self).state.remembered_g,
            final(self).state.options == old(self).state.options,
            final(self).import_path == old(self).import_path,
    {
        self.state.filter = filter;
    }

    /// The live filter text.
    pub fn get_filter(&self) -> (r: String)
        ensures
            r == self.state.filter,
    {
        self.state.filter.clone()
    }
}

} // verus!
