use ktx::events::{InputEvent, Key, KtxEvent};
use ktx::import_path::CloudImportPath;
use ktx::import_view::{EnterOutcome, ImportKeyAction, ImportView};

fn seg(id: &str) -> (String, String, Option<String>) {
    (id.to_string(), id.to_string(), None)
}

fn seg2(id: &str, secondary: &str) -> (String, String, Option<String>) {
    (id.to_string(), id.to_string(), Some(secondary.to_string()))
}

fn view_with_options(
    path: Vec<(String, String, Option<String>)>,
    options: Vec<(String, String, Option<String>)>,
) -> ImportView {
    let mut v = ImportView::new(CloudImportPath::from(path));
    v.state.set_options(options);
    v
}

#[test]
fn loading_options_selects_the_top_entry() {
    let v = view_with_options(vec![], vec![seg("aws"), seg("gcp")]);
    assert_eq!(v.state.selection, Some(0));
    let empty = ImportView::new(CloudImportPath::from(vec![]));
    assert_eq!(empty.state.selection, None);
}

#[test]
fn filter_narrows_options_by_display_name() {
    let mut v = view_with_options(
        vec![seg("gcp")],
        vec![
            ("p1".to_string(), "Payments (p1)".to_string(), None),
            ("p2".to_string(), "Website (p2)".to_string(), None),
        ],
    );
    v.update_filter("pay".to_string());
    let filtered = v.state.get_filtered_options();
    assert_eq!(filtered.len(), 1);
    assert_eq!(filtered[0].0, "p1");
    assert_eq!(v.get_filter(), "pay");
}

#[test]
fn enter_pushes_a_deeper_navigator_until_full() {
    let v = view_with_options(vec![seg("gcp")], vec![seg("proj")]);
    match v.enter_action() {
        EnterOutcome::Push(p) => {
            assert_eq!(p.len(), 2);
            assert_eq!(p.get_gcp_project(), "proj");
        },
        _ => panic!("expected a push"),
    }
}

#[test]
fn enter_on_a_terminal_option_imports() {
    let v = view_with_options(vec![seg("gcp"), seg("proj")], vec![seg2("k", "zone-a")]);
    match v.enter_action() {
        EnterOutcome::Import(p) => {
            assert!(p.is_full());
            assert_eq!(p.get_cluster_id(), "k");
            assert_eq!(p.get_gke_zone(), "zone-a");
        },
        _ => panic!("expected an import"),
    }
}

#[test]
fn enter_with_nothing_selected_does_nothing() {
    let v = ImportView::new(CloudImportPath::from(vec![seg("gcp")]));
    assert!(matches!(v.enter_action(), EnterOutcome::Nothing));
}

#[test]
fn import_all_covers_every_filtered_option() {
    let mut v = view_with_options(
        vec![seg("aws"), seg("dev"), seg("eu-west-1")],
        vec![seg("k1"), seg("k2"), seg("extra")],
    );
    v.update_filter("k".to_string());
    let paths = v.import_all_paths();
    assert_eq!(paths.len(), 2);
    assert!(paths.iter().all(|p| p.is_full()));
    assert_eq!(paths[0].get_cluster_id(), "k1");
    assert_eq!(paths[1].get_cluster_id(), "k2");
}

#[test]
fn a_key_imports_all_only_while_listing_clusters() {
    let mut listing = view_with_options(
        vec![seg("aws"), seg("dev"), seg("eu-west-1")],
        vec![seg("k1")],
    );
    let a = listing.handle_keyboard(InputEvent::Key(Key::Char('a'), false));
    assert!(matches!(a, ImportKeyAction::ImportAll(ps) if ps.len() == 1));
    let mut shallow = view_with_options(vec![seg("aws")], vec![seg("dev")]);
    let a = shallow.handle_keyboard(InputEvent::Key(Key::Char('a'), false));
    assert!(matches!(a, ImportKeyAction::Nothing));
}

#[test]
fn esc_pops_the_navigator() {
    let mut v = ImportView::new(CloudImportPath::from(vec![seg("aws")]));
    let a = v.handle_keyboard(InputEvent::Key(Key::Esc, false));
    assert!(matches!(a, ImportKeyAction::Emit(KtxEvent::PopView)));
}

#[test]
fn enter_key_shows_a_deeper_view() {
    let mut v = view_with_options(vec![seg("aws")], vec![seg("dev")]);
    let a = v.handle_keyboard(InputEvent::Key(Key::Enter, false));
    match a {
        ImportKeyAction::Emit(KtxEvent::ShowImportView(p)) => {
            assert_eq!(p.len(), 2);
            assert_eq!(p.get_aws_profile(), "dev");
        },
        _ => panic!("expected a deeper view"),
    }
}

#[test]
fn navigation_keys_translate_to_bus_events() {
    let mut v = view_with_options(vec![seg("aws")], vec![seg("a"), seg("b")]);
    let a = v.handle_keyboard(InputEvent::Key(Key::Char('j'), false));
    assert!(matches!(a, ImportKeyAction::Emit(KtxEvent::ListOneDown)));
    let bubbled = v.handle_app_event(KtxEvent::ListOneDown);
    assert!(bubbled.is_none());
    assert_eq!(v.state.selection, Some(1));
}

#[test]
fn selected_option_is_the_filtered_entry() {
    let mut v = view_with_options(vec![seg("aws")], vec![seg("alpha"), seg("beta")]);
    v.update_filter("bet".to_string());
    v.state.selection = Some(0);
    let opt = v.state.get_selected_option();
    assert_eq!(opt.0, "beta");
    assert_eq!(opt.1, "beta");
    assert!(opt.2.is_none());
}
