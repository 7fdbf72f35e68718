use secure_dns_resolver::orchestrate::collect_batch;
use secure_dns_resolver::orchestrate::race_outcome;
use secure_dns_resolver::orchestrate::FallbackPlan;
use secure_dns_resolver::orchestrate::FallbackStep;
use secure_dns_resolver::orchestrate::RaceEvent;
use secure_dns_resolver::DnsError;
use secure_dns_resolver::Provider;

fn ok(records: &[&str]) -> Result<Vec<String>, DnsError> {
    Ok(records.iter().map(|s| s.to_string()).collect())
}

#[test]
fn batch_results_come_back_in_input_order() {
    // Three units that finished out of order: slot i of the output must hold
    // the outcome reported for index i.
    let completions = vec![
        (2usize, ok(&["c"])),
        (0usize, ok(&["a"])),
        (1usize, Err(DnsError::NoRecordsFound)),
    ];
    let out = collect_batch(3, completions);
    assert_eq!(out.len(), 3);
    assert_eq!(out[0].as_ref().unwrap(), &vec!["a".to_string()]);
    assert!(matches!(out[1], Err(DnsError::NoRecordsFound)));
    assert_eq!(out[2].as_ref().unwrap(), &vec!["c".to_string()]);
}

#[test]
fn batch_of_length_zero_and_one() {
    let out = collect_batch::<Vec<String>>(0, vec![]);
    assert!(out.is_empty());

    let out = collect_batch(1, vec![(0usize, ok(&["only"]))]);
    assert_eq!(out.len(), 1);
    assert_eq!(out[0].as_ref().unwrap(), &vec!["only".to_string()]);
}

#[test]
fn batch_preserves_order_for_race_payloads() {
    // The same gathering is used for race batches, whose payloads carry the
    // winning provider and the elapsed time.
    let completions = vec![
        (1usize, Ok((vec!["b".to_string()], Provider::Google, 12u64))),
        (0usize, Ok((vec!["a".to_string()], Provider::Quad9, 7u64))),
    ];
    let out = collect_batch(2, completions);
    let (records, provider, elapsed) = out[0].as_ref().unwrap();
    assert_eq!(records, &vec!["a".to_string()]);
    assert_eq!(*provider, Provider::Quad9);
    assert_eq!(*elapsed, 7);
    let (_, provider, _) = out[1].as_ref().unwrap();
    assert_eq!(*provider, Provider::Google);
}

#[test]
fn batch_unit_without_completion_becomes_query_failure() {
    let out = collect_batch(2, vec![(0usize, ok(&["a"]))]);
    assert!(out[0].is_ok());
    match &out[1] {
        Err(DnsError::QueryError(m)) => assert_eq!(m, "task failed"),
        other => panic!("expected a query failure, got {:?}", other),
    }
}

#[test]
fn one_reachable_provider_wins_the_race() {
    let events = vec![
        RaceEvent::Failure { message: "connect refused".to_string() },
        RaceEvent::Success {
            payload: vec!["192.0.2.1".to_string()],
            provider: Provider::Cloudflare,
            elapsed_ms: 9,
        },
        RaceEvent::Failure { message: "late".to_string() },
    ];
    let (records, provider, elapsed) = race_outcome(events).expect("a success must win");
    assert_eq!(records, vec!["192.0.2.1".to_string()]);
    assert_eq!(provider, Provider::Cloudflare);
    assert_eq!(elapsed, 9);
}

#[test]
fn first_of_several_successes_wins() {
    let events = vec![
        RaceEvent::Success { payload: 1u8, provider: Provider::Google, elapsed_ms: 5 },
        RaceEvent::Success { payload: 2u8, provider: Provider::Quad9, elapsed_ms: 6 },
    ];
    let (payload, provider, _) = race_outcome(events).expect("a success must win");
    assert_eq!(payload, 1);
    assert_eq!(provider, Provider::Google);
}

#[test]
fn all_failures_collapse_into_all_providers_failed() {
    let events: Vec<RaceEvent<u8>> = vec![
        RaceEvent::Failure { message: "first".to_string() },
        RaceEvent::Failure { message: "second".to_string() },
        RaceEvent::Failure { message: "last".to_string() },
    ];
    match race_outcome(events) {
        Err(DnsError::AllProvidersFailed(d)) => assert_eq!(d, "last"),
        other => panic!("expected all providers failed, got {:?}", other),
    }
}

#[test]
fn race_without_providers_fails() {
    match race_outcome::<u8>(vec![]) {
        Err(DnsError::AllProvidersFailed(d)) => assert_eq!(d, "No providers available"),
        other => panic!("expected all providers failed, got {:?}", other),
    }
}

#[test]
fn fallback_tries_every_provider_exactly_once_when_all_fail() {
    let mut plan = FallbackPlan::new();
    let mut tried: Vec<Provider> = Vec::new();
    let mut step = plan.next_step(None);
    loop {
        match step {
            FallbackStep::Attempt(p) => {
                tried.push(p);
                // Every attempt fails; the pass must move on.
                step = plan.next_step(Some(DnsError::ConnectionError(format!(
                    "attempt {} failed",
                    tried.len()
                ))));
            }
            FallbackStep::GiveUp(e) => {
                // The final error is the one of the last attempt, not an
                // aggregate.
                match e {
                    DnsError::ConnectionError(m) => assert_eq!(m, "attempt 4 failed"),
                    other => panic!("expected the last attempt's error, got {:?}", other),
                }
                break;
            }
        }
    }
    // Exactly one attempt per provider, and all of them were offered.
    assert_eq!(tried.len(), 4);
    assert_eq!(plan.attempts_started(), 4);
    let mut labels: Vec<&str> = tried.iter().map(|p| p.label()).collect();
    labels.sort();
    assert_eq!(labels, vec!["Cloudflare", "Google", "NextDNS", "Quad9"]);
}

#[test]
fn fallback_stops_at_first_success() {
    let mut plan = FallbackPlan::new();
    let step = plan.next_step(None);
    assert!(matches!(step, FallbackStep::Attempt(_)));
    // The first attempt succeeds: the driver stops here, and only one
    // attempt was ever started.
    assert_eq!(plan.attempts_started(), 1);
}

#[test]
fn fallback_order_is_a_permutation_of_all_providers() {
    for _ in 0..8 {
        let plan = FallbackPlan::new();
        let mut labels: Vec<&str> = plan.providers.iter().map(|p| p.label()).collect();
        assert_eq!(plan.next_index, 0);
        labels.sort();
        assert_eq!(labels, vec!["Cloudflare", "Google", "NextDNS", "Quad9"]);
    }
}
