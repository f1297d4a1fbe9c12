use ktx::dialog::ConfirmationDialogView;
use ktx::events::KtxEvent;
use ktx::view_stack::{AppView, ViewStack};

#[test]
fn startup_stack_holds_the_profile_list() {
    let s = ViewStack::new();
    assert_eq!(s.views.len(), 1);
    assert!(matches!(&s.views[0], AppView::ContextList(_)));
}

#[test]
fn pop_at_depth_one_signals_exit_and_keeps_the_view() {
    let mut s = ViewStack::new();
    assert!(!s.pop());
    assert_eq!(s.views.len(), 1);
    // it keeps signaling exit, never underflowing
    assert!(!s.pop());
    assert_eq!(s.views.len(), 1);
}

#[test]
fn pop_above_depth_one_returns_to_the_view_below() {
    let mut s = ViewStack::new();
    s.push(AppView::ConfirmationDialog(ConfirmationDialogView::new(
        "sure?".to_string(),
        KtxEvent::RefreshConfig,
    )));
    assert_eq!(s.views.len(), 2);
    assert!(s.pop());
    assert_eq!(s.views.len(), 1);
    assert!(matches!(&s.views[0], AppView::ContextList(_)));
}
