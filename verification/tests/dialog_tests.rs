use ktx::dialog::{ConfirmationDialogSelection, ConfirmationDialogView};
use ktx::events::{InputEvent, Key, KtxEvent};

fn key(c: char) -> KtxEvent {
    KtxEvent::TerminalEvent(InputEvent::Key(Key::Char(c), false))
}

#[test]
fn y_accepts_and_replays_carried_event() {
    let mut d = ConfirmationDialogView::new(
        "sure?".to_string(),
        KtxEvent::DeleteContextConfirm("prod".to_string()),
    );
    let (emits, bubbled) = d.handle_event(key('y'));
    assert!(bubbled.is_none());
    assert_eq!(emits.len(), 2);
    assert!(matches!(&emits[0], KtxEvent::DeleteContextConfirm(n) if n == "prod"));
    assert!(matches!(&emits[1], KtxEvent::DialogConfirm));
    assert!(matches!(d.state.selection, ConfirmationDialogSelection::Undecided));
}

#[test]
fn esc_and_n_reject() {
    for e in [KtxEvent::TerminalEvent(InputEvent::Key(Key::Esc, false)), key('n')] {
        let mut d = ConfirmationDialogView::new("t".to_string(), KtxEvent::RefreshConfig);
        let (emits, bubbled) = d.handle_event(e);
        assert!(bubbled.is_none());
        assert_eq!(emits.len(), 1);
        assert!(matches!(&emits[0], KtxEvent::DialogReject));
    }
}

#[test]
fn toggling_defaults_toward_pressed_side() {
    let mut d = ConfirmationDialogView::new("t".to_string(), KtxEvent::RefreshConfig);
    // left from undecided lands on confirm
    let (_, _) = d.handle_event(key('h'));
    assert!(matches!(d.state.selection, ConfirmationDialogSelection::Confirm));
    // toggling again flips to reject
    let (_, _) = d.handle_event(key('h'));
    assert!(matches!(d.state.selection, ConfirmationDialogSelection::Reject));
    let (_, _) = d.handle_event(key('l'));
    assert!(matches!(d.state.selection, ConfirmationDialogSelection::Confirm));
}

#[test]
fn right_from_undecided_lands_on_reject() {
    let mut d = ConfirmationDialogView::new("t".to_string(), KtxEvent::RefreshConfig);
    let (_, _) = d.handle_event(key('l'));
    assert!(matches!(d.state.selection, ConfirmationDialogSelection::Reject));
}

#[test]
fn enter_follows_selection_and_bubbles_when_undecided() {
    let mut d = ConfirmationDialogView::new("t".to_string(), KtxEvent::RefreshConfig);
    let enter = KtxEvent::TerminalEvent(InputEvent::Key(Key::Enter, false));
    // undecided: bubbles, emits nothing
    let (emits, bubbled) = d.handle_event(enter.clone());
    assert!(emits.is_empty());
    assert!(matches!(bubbled, Some(KtxEvent::TerminalEvent(_))));
    // select confirm, then enter accepts
    let (_, _) = d.handle_event(key('h'));
    let (emits, bubbled) = d.handle_event(enter.clone());
    assert!(bubbled.is_none());
    assert_eq!(emits.len(), 2);
    assert!(matches!(&emits[0], KtxEvent::RefreshConfig));
    assert!(matches!(&emits[1], KtxEvent::DialogConfirm));
    // select reject, then enter rejects
    let (_, _) = d.handle_event(key('l'));
    let (emits, _) = d.handle_event(enter);
    assert_eq!(emits.len(), 1);
    assert!(matches!(&emits[0], KtxEvent::DialogReject));
}

#[test]
fn semantic_events_bubble_through_dialog() {
    let mut d = ConfirmationDialogView::new("t".to_string(), KtxEvent::RefreshConfig);
    let (emits, bubbled) = d.handle_event(KtxEvent::ListOneDown);
    assert!(emits.is_empty());
    assert!(matches!(bubbled, Some(KtxEvent::ListOneDown)));
}
