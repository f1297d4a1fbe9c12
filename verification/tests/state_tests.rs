use ktx::config::{Configuration, Profile};
use ktx::events::KubeContextStatus;
use ktx::state::AppState;

fn profile(name: &str) -> Profile {
    Profile {
        name: name.to_string(),
        cluster: format!("{}-cluster", name),
        user: format!("{}-user", name),
        namespace: "default".to_string(),
    }
}

fn config(names: &[&str]) -> Configuration {
    Configuration { profiles: names.iter().map(|n| profile(n)).collect(), current: None }
}

#[test]
fn unknown_until_probed() {
    let s = AppState::new(config(&["dev"]));
    assert!(matches!(s.status_of("dev"), KubeContextStatus::Unknown));
}

#[test]
fn set_status_records_and_overwrites() {
    let mut s = AppState::new(config(&["dev", "prod"]));
    s.set_status("dev".to_string(), KubeContextStatus::Healthy("1.29".to_string()));
    assert!(matches!(s.status_of("dev"), KubeContextStatus::Healthy(v) if v == "1.29"));
    assert!(matches!(s.status_of("prod"), KubeContextStatus::Unknown));
    s.set_status("dev".to_string(), KubeContextStatus::Unhealthy);
    assert!(matches!(s.status_of("dev"), KubeContextStatus::Unhealthy));
    assert_eq!(s.connectivity.len(), 1);
}

#[test]
fn filtered_contexts_keep_order_and_carry_status() {
    let mut s = AppState::new(config(&["dev", "prod", "stage"]));
    s.set_status("stage".to_string(), KubeContextStatus::Healthy("1.30".to_string()));
    let all = s.get_filtered_contexts("");
    assert_eq!(all.len(), 3);
    assert_eq!(all[0].0.name, "dev");
    assert_eq!(all[1].0.name, "prod");
    assert_eq!(all[2].0.name, "stage");
    assert!(matches!(&all[2].1, KubeContextStatus::Healthy(v) if v == "1.30"));
    let some = s.get_filtered_contexts("RO");
    assert_eq!(some.len(), 1);
    assert_eq!(some[0].0.name, "prod");
}

#[test]
fn filtering_twice_equals_filtering_once() {
    let s = AppState::new(config(&["dev", "prod", "prod-eu", "stage"]));
    let once: Vec<String> =
        s.get_filtered_contexts("prod").into_iter().map(|(p, _)| p.name).collect();
    // filtering an already filtered set with the same text changes nothing
    let twice_cfg = Configuration {
        profiles: once.iter().map(|n| profile(n)).collect(),
        current: None,
    };
    let s2 = AppState::new(twice_cfg);
    let twice: Vec<String> =
        s2.get_filtered_contexts("prod").into_iter().map(|(p, _)| p.name).collect();
    assert_eq!(once, twice);
    assert_eq!(once, vec!["prod".to_string(), "prod-eu".to_string()]);
}

#[test]
fn composed_filters_keep_names_passing_both() {
    let s = AppState::new(config(&["prod-eu-1", "prod-us-1", "dev-eu-1"]));
    // filter by "eu" first, then by "prod" on what remained
    let eu: Vec<String> = s.get_filtered_contexts("eu").into_iter().map(|(p, _)| p.name).collect();
    let cfg2 = Configuration { profiles: eu.iter().map(|n| profile(n)).collect(), current: None };
    let s2 = AppState::new(cfg2);
    let both: Vec<String> =
        s2.get_filtered_contexts("prod").into_iter().map(|(p, _)| p.name).collect();
    assert_eq!(both, vec!["prod-eu-1".to_string()]);
}

#[test]
fn current_context_follows_pointer() {
    let mut cfg = config(&["dev", "prod"]);
    cfg.current = Some("prod".to_string());
    let s = AppState::new(cfg);
    let dev = profile("dev");
    let prod = profile("prod");
    assert!(!s.is_current_context(&dev));
    assert!(s.is_current_context(&prod));
}
