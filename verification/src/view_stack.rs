//! The navigable stack of views: the top is focused and receives input;
//! pushing enters a sub-flow, popping returns, and popping the last view is
//! the program's exit signal. The stack holds at least one view for the
//! whole run: the initial profile list, pushed exactly once at startup,
//! is never popped directly.

use vstd::prelude::*;

use crate::dialog::ConfirmationDialogView;
use crate::import_view::ImportView;
use crate::list_view::ContextListView;

verus! {

/// The closed set of view variants, each owning its private state.
pub enum AppView {
    ContextList(ContextListView),
    ConfirmationDialog(ConfirmationDialogView),
    Import(ImportView),
}

/// The ordered stack of views; the last element is focused.
pub struct ViewStack {
    pub views: Vec<AppView>,
}

impl ViewStack {
    /// How many views are on the stack.
    pub open spec fn depth(self) -> nat {
        self.views@.len()
    }

    /// The stack is well formed while at least one view stands on it.
    pub open spec fn wf(self) -> bool {
        self.depth() >= 1
    }

    /// The focused view.
    pub open spec fn spec_top(self) -> AppView
        recommends
            self.depth() > 0,
    {
        self.views@.last()
    }

    /// The startup stack: exactly the profile list view.
    pub fn new() -> (r: Self)
        ensures
            r.wf(),
            r.depth() == 1,
            r.views@[0] matches AppView::ContextList(v) && v.state.selection == Some(0usize)
                && v.state.remembered_g == false && v.state.filter@ == Seq::<char>::empty(),
    {
        let mut views: Vec<AppView> = Vec::new();
        views.push(AppView::ContextList(ContextListView::new()));
        ViewStack { views }
    }

    /// Enter a sub-flow: the pushed view becomes focused.
    pub fn push(&mut self, view: AppView)
        ensures
            final(self).views@ == old(self).views@.push(view),
            final(self).wf(),
    {
        self.views.push(view);
    }

    /// Leave the focused view. At depth one nothing is popped and the
    /// result signals exit; above depth one the view below becomes focused
    /// again and exit is never signaled.
    pub fn pop(&mut self) -> (popped: bool)
        ensures
            popped <==> old(self).depth() > 1,
            popped ==> final(self).views@ == old(self).views@.drop_last(),
            !popped ==> final(self).views@ == old(self).views@,
            old(self).wf() ==> final(self).wf(),
    {
        if self.views.len() > 1 {
            self.views.pop();
            true
        } else {
            false
        }
    }

    /// Take the focused view off the stack to work on it; put it back with
    /// `push`.
    pub fn take_top(&mut self) -> (r: AppView)
        requires
            old(self).depth() > 0,
        ensures
            r == old(self).views@.last(),
            final(self).views@ == old(self).views@.drop_last(),
    {
        match self.views.pop() {
            Some(v) => v,
            None => {
                proof {
                    assert(false);
                }
                AppView::ContextList(ContextListView::new())
            },
        }
    }
}

} // verus!
