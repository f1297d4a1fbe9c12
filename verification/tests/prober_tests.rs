use ktx::events::{KtxEvent, KubeContextStatus};
use ktx::prober::{ProbeBatch, MAX_IN_FLIGHT};

fn names(n: usize) -> Vec<String> {
    (0..n).map(|i| format!("ctx-{}", i)).collect()
}

#[test]
fn at_most_ten_probes_in_flight() {
    let mut b = ProbeBatch::new(names(25));
    let mut launched = 0usize;
    while b.can_launch() {
        b.launch_next();
        launched += 1;
        assert!(b.in_flight.len() <= MAX_IN_FLIGHT);
    }
    assert_eq!(launched, MAX_IN_FLIGHT);
    assert_eq!(b.in_flight.len(), MAX_IN_FLIGHT);
    assert_eq!(b.pending.len(), 15);
}

#[test]
fn completion_frees_a_slot() {
    let mut b = ProbeBatch::new(names(12));
    while b.can_launch() {
        b.launch_next();
    }
    assert!(!b.can_launch());
    let evt = b.complete("ctx-3".to_string(), KubeContextStatus::Unhealthy);
    assert!(matches!(evt, KtxEvent::SetConnectivityStatus(n, KubeContextStatus::Unhealthy) if n == "ctx-3"));
    assert!(b.can_launch());
    b.launch_next();
    assert_eq!(b.in_flight.len(), MAX_IN_FLIGHT);
}

#[test]
fn every_profile_reports_exactly_once() {
    let total = 23usize;
    let mut b = ProbeBatch::new(names(total));
    let mut results: Vec<String> = Vec::new();
    loop {
        while b.can_launch() {
            assert!(b.in_flight.len() < MAX_IN_FLIGHT);
            b.launch_next();
            assert!(b.in_flight.len() <= MAX_IN_FLIGHT);
        }
        if b.in_flight.is_empty() {
            break;
        }
        let name = b.in_flight[0].clone();
        let evt = b.complete(name, KubeContextStatus::Healthy("1.29".to_string()));
        if let KtxEvent::SetConnectivityStatus(n, _) = evt {
            results.push(n);
        } else {
            panic!("unexpected event");
        }
    }
    assert!(b.is_drained());
    assert_eq!(results.len(), total);
    let mut sorted = results.clone();
    sorted.sort();
    sorted.dedup();
    assert_eq!(sorted.len(), total);
}

#[test]
fn launch_hands_out_names_in_order() {
    let mut b = ProbeBatch::new(vec!["a".to_string(), "b".to_string()]);
    assert_eq!(b.launch_next(), "a");
    assert_eq!(b.launch_next(), "b");
    assert!(!b.can_launch());
    assert!(!b.is_drained());
}
