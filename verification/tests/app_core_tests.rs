use ktx::app_core::{Action, ConfigWriteGuard, KtxApp};
use ktx::config::{Configuration, Profile};
use ktx::events::{InputEvent, Key, KtxEvent};
use ktx::status::{message_visible, UiMessage, MESSAGE_WINDOW_MILLIS};
use ktx::view_stack::AppView;

fn profile(name: &str) -> Profile {
    Profile {
        name: name.to_string(),
        cluster: format!("{}-cluster", name),
        user: format!("{}-user", name),
        namespace: "default".to_string(),
    }
}

fn config(names: &[&str]) -> Configuration {
    Configuration { profiles: names.iter().map(|n| profile(n)).collect(), current: None }
}

fn key(c: char) -> KtxEvent {
    KtxEvent::TerminalEvent(InputEvent::Key(Key::Char(c), false))
}

#[test]
fn deleting_prod_keeps_dev_and_stage_in_order() {
    let mut app = KtxApp::new(config(&["dev", "prod", "stage"]));
    // `d` on the selected profile asks for deletion via the bus
    let mut sel = None;
    app.handle_event(KtxEvent::ListOneDown, 0);
    if let AppView::ContextList(lv) = &app.stack.views[0] {
        sel = lv.state.selection;
    }
    assert_eq!(sel, Some(1));
    let actions = app.handle_event(key('d'), 0);
    assert_eq!(actions.len(), 1);
    let delete_evt = match &actions[0] {
        Action::Send(e) => e.clone(),
        _ => panic!("expected an event"),
    };
    assert!(matches!(&delete_evt, KtxEvent::DeleteContext(n) if n == "prod"));
    // dispatching it pushes the confirmation dialog
    let actions = app.handle_event(delete_evt, 0);
    assert!(actions.is_empty());
    assert_eq!(app.stack.views.len(), 2);
    // `y` accepts: the carried confirm event and the dialog-confirm come back
    let actions_after_accept = app.handle_event(key('y'), 0);
    assert_eq!(actions_after_accept.len(), 2);
    let confirm = match &actions_after_accept[0] {
        Action::Send(e) => e.clone(),
        _ => panic!("expected an event"),
    };
    assert!(matches!(&confirm, KtxEvent::DeleteContextConfirm(n) if n == "prod"));
    // the confirmed deletion mutates the configuration and persists it
    let actions = app.handle_event(confirm, 0);
    assert_eq!(actions.len(), 1);
    assert!(matches!(actions[0], Action::PersistConfig));
    let names: Vec<&str> = app.state.config.profiles.iter().map(|p| p.name.as_str()).collect();
    assert_eq!(names, vec!["dev", "stage"]);
    // the dialog-confirm event pops the dialog again
    let dialog_confirm = match &actions_after_accept[1] {
        Action::Send(e) => e.clone(),
        _ => panic!("expected an event"),
    };
    let pop_actions = app.handle_event(dialog_confirm, 0);
    assert!(pop_actions.is_empty());
    assert_eq!(app.stack.views.len(), 1);
}

#[test]
fn setting_current_profile_keeps_list_order() {
    let mut app = KtxApp::new(config(&["dev", "prod", "stage"]));
    let actions = app.handle_event(KtxEvent::SetContext("stage".to_string()), 0);
    assert_eq!(actions.len(), 1);
    assert!(matches!(actions[0], Action::PersistConfig));
    assert_eq!(app.state.config.current.as_deref(), Some("stage"));
    let names: Vec<&str> = app.state.config.profiles.iter().map(|p| p.name.as_str()).collect();
    assert_eq!(names, vec!["dev", "prod", "stage"]);
}

#[test]
fn popping_the_last_view_signals_exit() {
    let mut app = KtxApp::new(config(&["dev"]));
    assert_eq!(app.stack.views.len(), 1);
    let actions = app.handle_event(KtxEvent::PopView, 0);
    assert_eq!(actions.len(), 1);
    assert!(matches!(&actions[0], Action::Send(KtxEvent::Exit)));
    assert_eq!(app.stack.views.len(), 1);
}

#[test]
fn popping_above_depth_one_never_exits() {
    let mut app = KtxApp::new(config(&["dev"]));
    app.handle_event(KtxEvent::DeleteContext("dev".to_string()), 0);
    assert_eq!(app.stack.views.len(), 2);
    let actions = app.handle_event(KtxEvent::PopView, 0);
    assert!(actions.is_empty());
    assert_eq!(app.stack.views.len(), 1);
}

#[test]
fn filter_mode_takes_priority_and_edits_text() {
    let mut app = KtxApp::new(config(&["dev", "prod"]));
    assert!(app.handle_event(KtxEvent::EnterFilterMode, 0).is_empty());
    assert!(app.state.is_filter_on);
    // characters go into the focused view's filter, not navigation
    assert!(app.handle_event(key('p'), 0).is_empty());
    assert!(app.handle_event(key('r'), 0).is_empty());
    if let AppView::ContextList(lv) = &app.stack.views[0] {
        assert_eq!(lv.state.filter, "pr");
    } else {
        panic!("expected the list view");
    }
    // backspace removes the last character
    assert!(app
        .handle_event(KtxEvent::TerminalEvent(InputEvent::Key(Key::Backspace, false)), 0)
        .is_empty());
    if let AppView::ContextList(lv) = &app.stack.views[0] {
        assert_eq!(lv.state.filter, "p");
    } else {
        panic!("expected the list view");
    }
    // Enter asks to leave filter mode
    let actions = app.handle_event(KtxEvent::TerminalEvent(InputEvent::Key(Key::Enter, false)), 0);
    assert_eq!(actions.len(), 1);
    assert!(matches!(&actions[0], Action::Send(KtxEvent::ExitFilterMode)));
    let _ = app.handle_event(KtxEvent::ExitFilterMode, 0);
    assert!(!app.state.is_filter_on);
}

#[test]
fn test_connections_launches_probes_for_all_profiles() {
    let mut app = KtxApp::new(config(&["dev", "prod"]));
    let actions = app.handle_event(KtxEvent::TestConnections, 0);
    assert_eq!(actions.len(), 1);
    match &actions[0] {
        Action::StartProbes(names) => {
            assert_eq!(names, &vec!["dev".to_string(), "prod".to_string()]);
        },
        _ => panic!("expected a probe launch"),
    }
}

#[test]
fn probe_results_land_in_the_connectivity_map() {
    let mut app = KtxApp::new(config(&["dev"]));
    let actions = app.handle_event(
        KtxEvent::SetConnectivityStatus(
            "dev".to_string(),
            ktx::events::KubeContextStatus::Healthy("1.29".to_string()),
        ),
        0,
    );
    assert!(actions.is_empty());
    assert!(
        matches!(app.state.status_of("dev"), ktx::events::KubeContextStatus::Healthy(v) if v == "1.29")
    );
}

#[test]
fn error_messages_are_stamped_and_expire() {
    let mut app = KtxApp::new(config(&["dev"]));
    let actions = app.handle_event(KtxEvent::PushErrorMessage("boom".to_string()), 5_000);
    assert!(actions.is_empty());
    assert!(matches!(&app.state.last_message, Some(UiMessage::Error(t)) if t == "boom"));
    assert_eq!(app.state.last_message_at, Some(5_000));
    assert!(message_visible(5_000, 5_000 + MESSAGE_WINDOW_MILLIS - 1));
    assert!(!message_visible(5_000, 5_000 + MESSAGE_WINDOW_MILLIS));
}

#[test]
fn show_import_view_asks_for_options_then_pushes() {
    let mut app = KtxApp::new(config(&["dev"]));
    let actions = app.handle_event(KtxEvent::ShowImportView(
        ktx::import_path::CloudImportPath::from(vec![]),
    ), 0);
    assert_eq!(actions.len(), 1);
    let path = match &actions[0] {
        Action::LoadImportOptions(p) => p.clone(),
        _ => panic!("expected an option load"),
    };
    assert!(path.is_empty());
    // the surrounding task loads the options and pushes the view
    let options =
        vec![("aws".to_string(), "AWS".to_string(), None), ("gcp".to_string(), "GCP".to_string(), None)];
    app.push_import_view(path, options);
    assert_eq!(app.stack.views.len(), 2);
    match &app.stack.views[1] {
        AppView::Import(iv) => {
            assert_eq!(iv.state.options.len(), 2);
            assert_eq!(iv.state.selection, Some(0));
        },
        _ => panic!("expected the import view"),
    }
}

#[test]
fn refresh_config_reloads_under_the_guard() {
    let mut app = KtxApp::new(config(&["dev"]));
    let actions = app.handle_event(KtxEvent::RefreshConfig, 0);
    assert_eq!(actions.len(), 1);
    assert!(matches!(actions[0], Action::ReloadConfig));
    app.install_config(config(&["dev", "imported"]));
    assert_eq!(app.state.config.profiles.len(), 2);
}

#[test]
fn guarded_writes_happen_one_after_another() {
    let mut guard = ConfigWriteGuard::new();
    guard.record_write(&config(&["dev"]));
    guard.record_write(&config(&["dev", "stage"]));
    // holding the guard exclusively is what serializes the two writes;
    // the value itself carries only the verified ordering argument
    let _ = guard;
}

#[test]
fn enter_selects_the_highlighted_profile() {
    let mut app = KtxApp::new(config(&["dev", "prod"]));
    let actions =
        app.handle_event(KtxEvent::TerminalEvent(InputEvent::Key(Key::Enter, false)), 0);
    assert_eq!(actions.len(), 1);
    assert!(matches!(&actions[0], Action::Send(KtxEvent::SetContext(n)) if n == "dev"));
}

#[test]
fn q_asks_to_pop_the_base_view() {
    let mut app = KtxApp::new(config(&["dev"]));
    let actions = app.handle_event(key('q'), 0);
    assert_eq!(actions.len(), 1);
    assert!(matches!(&actions[0], Action::Send(KtxEvent::PopView)));
}

#[test]
fn t_key_starts_the_prober() {
    let mut app = KtxApp::new(config(&["dev", "prod"]));
    let actions = app.handle_event(key('t'), 0);
    assert_eq!(actions.len(), 1);
    assert!(matches!(&actions[0], Action::Send(KtxEvent::TestConnections)));
}
