use ochami_rs::error::Error;
use ochami_rs::fetch::{merge_outcomes, FetchOutcome, FetchStep, GroupFetcher, DEFAULT_CONCURRENCY};
use ochami_rs::group::{Group, Member};

fn strings(items: &[&str]) -> Vec<String> {
    items.iter().map(|s| s.to_string()).collect()
}

fn group(label: &str, members: &[&str]) -> Group {
    Group {
        label: label.to_string(),
        description: None,
        tags: None,
        members: Some(Member { ids: Some(strings(members)) }),
        exclusive_group: None,
    }
}

#[test]
fn merge_appends_in_the_order_of_completion() {
    let outcomes = vec![
        FetchOutcome::Fetched(group("b", &["x2", "x3"])),
        FetchOutcome::Fetched(group("a", &["x1", "x2"])),
    ];
    let merged = merge_outcomes(&outcomes).unwrap();
    assert_eq!(merged.members, strings(&["x2", "x3", "x1", "x2"]));
    assert!(merged.warnings.is_empty());
    assert_eq!(merged.node_set().to_vec(), strings(&["x1", "x2", "x3"]));
}

#[test]
fn merge_does_not_depend_on_the_order_as_a_set() {
    let one = vec![
        FetchOutcome::Fetched(group("a", &["x1", "x2"])),
        FetchOutcome::Failed("timeout".to_string()),
        FetchOutcome::Fetched(group("b", &["x2", "x3"])),
    ];
    let other = vec![
        FetchOutcome::Fetched(group("b", &["x2", "x3"])),
        FetchOutcome::Fetched(group("a", &["x1", "x2"])),
        FetchOutcome::Failed("timeout".to_string()),
    ];
    assert_eq!(
        merge_outcomes(&one).unwrap().node_set().to_vec(),
        merge_outcomes(&other).unwrap().node_set().to_vec()
    );
}

#[test]
fn a_failed_fetch_is_skipped_with_a_warning() {
    let outcomes = vec![
        FetchOutcome::Fetched(group("A", &["x1", "x2"])),
        FetchOutcome::Failed("group 'missing' not found".to_string()),
    ];
    let merged = merge_outcomes(&outcomes).unwrap();
    assert_eq!(merged.members, strings(&["x1", "x2"]));
    assert_eq!(merged.warnings, strings(&["group 'missing' not found"]));
}

#[test]
fn an_aborted_fetch_fails_the_merge() {
    let outcomes = vec![
        FetchOutcome::Fetched(group("A", &["x1"])),
        FetchOutcome::Aborted("task 3 panicked".to_string()),
        FetchOutcome::Aborted("task 4 was cancelled".to_string()),
    ];
    match merge_outcomes(&outcomes) {
        Err(Error::NetworkError(m)) => assert_eq!(m, "task 3 panicked"),
        other => panic!("unexpected: {:?}", other),
    }
}

#[test]
fn merge_of_nothing() {
    let merged = merge_outcomes(&Vec::new()).unwrap();
    assert!(merged.members.is_empty());
    assert!(merged.warnings.is_empty());
}

#[test]
fn the_default_limit_is_ten() {
    assert_eq!(DEFAULT_CONCURRENCY, 10);
    let labels: Vec<String> = (0..25).map(|i| format!("g{}", i)).collect();
    let mut fetcher = GroupFetcher::new(labels);
    let mut spawned = Vec::new();
    loop {
        let (next, step) = fetcher.step();
        fetcher = next;
        match step {
            FetchStep::Spawn(label) => spawned.push(label),
            FetchStep::Await => break,
            FetchStep::Done => panic!("done too early"),
        }
    }
    assert_eq!(spawned.len(), 10);
    assert_eq!(spawned[0], "g0");
    assert_eq!(spawned[9], "g9");
}

#[test]
fn never_more_in_flight_than_the_limit() {
    let labels = strings(&["a", "b", "c", "d", "e"]);
    let mut fetcher = GroupFetcher::with_limit(labels.clone(), 2).unwrap();
    let mut in_flight: Vec<String> = Vec::new();
    let mut started: Vec<String> = Vec::new();
    let mut most = 0;
    loop {
        let (next, step) = fetcher.step();
        fetcher = next;
        match step {
            FetchStep::Spawn(label) => {
                in_flight.push(label.clone());
                started.push(label);
                most = most.max(in_flight.len());
                assert!(in_flight.len() <= 2);
            }
            FetchStep::Await => {
                assert!(!in_flight.is_empty());
                let label = in_flight.pop().unwrap();
                let member = format!("x-{}", label);
                fetcher = fetcher
                    .complete(FetchOutcome::Fetched(group(&label, &[member.as_str()])))
                    .unwrap();
            }
            FetchStep::Done => break,
        }
    }
    assert_eq!(most, 2);
    assert_eq!(started, labels);
    let merged = fetcher.finish();
    assert_eq!(merged.node_set().to_vec(), strings(&["x-a", "x-b", "x-c", "x-d", "x-e"]));
}

#[test]
fn a_fetcher_without_labels_is_done_at_once() {
    let (fetcher, step) = GroupFetcher::new(Vec::new()).step();
    assert!(matches!(step, FetchStep::Done));
    assert!(fetcher.finish().members.is_empty());
}

#[test]
fn a_limit_of_zero_is_refused() {
    assert!(matches!(GroupFetcher::with_limit(strings(&["a"]), 0), Err(Error::InputError(_))));
}

#[test]
fn an_outcome_without_a_running_fetch_is_refused() {
    let fetcher = GroupFetcher::new(strings(&["a"]));
    assert!(matches!(
        fetcher.complete(FetchOutcome::Failed("late".to_string())),
        Err(Error::InputError(_))
    ));
}

#[test]
fn an_aborted_fetch_fails_the_fetcher() {
    let (fetcher, step) = GroupFetcher::new(strings(&["a"])).step();
    assert!(matches!(step, FetchStep::Spawn(_)));
    match fetcher.complete(FetchOutcome::Aborted("cancelled".to_string())) {
        Err(Error::NetworkError(m)) => assert_eq!(m, "cancelled"),
        _ => panic!("the fetcher went on"),
    }
}

#[test]
fn the_fetcher_collects_warnings() {
    let (fetcher, _) = GroupFetcher::new(strings(&["a", "missing"])).step();
    let (fetcher, _) = fetcher.step();
    let fetcher = fetcher.complete(FetchOutcome::Failed("404".to_string())).unwrap();
    let fetcher = fetcher.complete(FetchOutcome::Fetched(group("a", &["x1"]))).unwrap();
    let (fetcher, step) = fetcher.step();
    assert!(matches!(step, FetchStep::Done));
    let merged = fetcher.finish();
    assert_eq!(merged.members, strings(&["x1"]));
    assert_eq!(merged.warnings, strings(&["404"]));
}
