use ochami_rs::error::Error;
use ochami_rs::fetch::FetchOutcome;
use ochami_rs::group::{Group, Member};
use ochami_rs::resolve::{plan, resolve, resolve_with, within_groups, ResolveStep, Selectors};

fn strings(items: &[&str]) -> Vec<String> {
    items.iter().map(|s| s.to_string()).collect()
}

fn group(label: &str, members: &[&str]) -> Group {
    Group {
        label: label.to_string(),
        description: None,
        tags: None,
        members: Some(Member { ids: Some(strings(members)) }),
        exclusive_group: None,
    }
}

fn selectors(groups: &[&str], explicit: Option<&str>) -> Selectors {
    Selectors { groups: strings(groups), explicit: explicit.map(|s| s.to_string()) }
}

#[test]
fn resolving_twice_gives_the_same_node_set() {
    let s = selectors(&["A", "B"], None);
    let outcomes = || {
        vec![
            FetchOutcome::Fetched(group("A", &["x1000c0s0b0n1", "x1000c0s0b0n0"])),
            FetchOutcome::Fetched(group("B", &["x1000c0s0b0n0", "x1000c0s1b0n0"])),
        ]
    };
    let first = resolve(&s, &outcomes()).unwrap().to_vec();
    let second = resolve(&s, &outcomes()).unwrap().to_vec();
    assert_eq!(first, second);
    assert_eq!(first, strings(&["x1000c0s0b0n0", "x1000c0s0b0n1", "x1000c0s1b0n0"]));
}

#[test]
fn groups_resolve_to_the_union_of_their_members() {
    let s = selectors(&["A", "B"], None);
    let outcomes = vec![
        FetchOutcome::Fetched(group("A", &["x1", "x2"])),
        FetchOutcome::Fetched(group("B", &["x2", "x3"])),
    ];
    assert_eq!(resolve(&s, &outcomes).unwrap().to_vec(), strings(&["x1", "x2", "x3"]));
    let other_order = vec![
        FetchOutcome::Fetched(group("B", &["x2", "x3"])),
        FetchOutcome::Fetched(group("A", &["x1", "x2"])),
    ];
    assert_eq!(resolve(&s, &other_order).unwrap().to_vec(), strings(&["x1", "x2", "x3"]));
}

#[test]
fn a_missing_group_is_left_out_without_an_error() {
    let s = selectors(&["A", "missing"], None);
    let outcomes = vec![
        FetchOutcome::Failed("404 Not Found".to_string()),
        FetchOutcome::Fetched(group("A", &["x2", "x1"])),
    ];
    assert_eq!(resolve(&s, &outcomes).unwrap().to_vec(), strings(&["x1", "x2"]));
}

#[test]
fn no_selector_is_an_input_error() {
    let s = selectors(&[], None);
    assert!(matches!(resolve(&s, &Vec::new()), Err(Error::InputError(_))));
    assert!(matches!(plan(&s), Err(Error::InputError(_))));
    match resolve_with(&s, &Vec::new()) {
        Err(e) => assert_eq!(e.message(), "no selector provided"),
        Ok(_) => panic!("resolved without a selector"),
    }
}

#[test]
fn an_explicit_list_is_trimmed_sorted_and_deduplicated() {
    let s = selectors(&[], Some(" x1000c0s0b0n1 ,x1000c0s0b0n0, x1000c0s0b0n1"));
    assert_eq!(
        resolve(&s, &Vec::new()).unwrap().to_vec(),
        strings(&["x1000c0s0b0n0", "x1000c0s0b0n1"])
    );
    match plan(&s) {
        Ok(ResolveStep::Done(nodes)) => {
            assert_eq!(nodes.to_vec(), strings(&["x1000c0s0b0n0", "x1000c0s0b0n1"]))
        }
        other => panic!("unexpected: {:?}", other),
    }
}

#[test]
fn groups_are_fetched_first() {
    match plan(&selectors(&["A", "B"], Some("x1000c0s0b0n0"))) {
        Ok(ResolveStep::FetchGroups(labels)) => assert_eq!(labels, strings(&["A", "B"])),
        other => panic!("unexpected: {:?}", other),
    }
}

#[test]
fn an_explicit_list_must_lie_within_the_groups() {
    let members = strings(&["x1000c0s0b0n0", "x1000c0s0b0n1"]);
    let inside = selectors(&["A"], Some("x1000c0s0b0n1"));
    assert_eq!(resolve_with(&inside, &members).unwrap().to_vec(), members);
    let outside = selectors(&["A"], Some("x1000c0s0b0n1,x1000c0s0b0n2"));
    assert!(matches!(resolve_with(&outside, &members), Err(Error::MembershipError(_))));
    let malformed = selectors(&["A"], Some("x1000c0s0b0n1,n2"));
    assert!(matches!(resolve_with(&malformed, &members), Err(Error::FormatError(_))));
}

#[test]
fn groups_without_members_constrain_nothing() {
    let s = selectors(&["A"], Some("x1000c0s0b0n1"));
    assert_eq!(resolve_with(&s, &Vec::new()).unwrap().to_vec(), Vec::<String>::new());
    let malformed = selectors(&["A"], Some("bad"));
    assert!(matches!(resolve_with(&malformed, &Vec::new()), Err(Error::FormatError(_))));
}

#[test]
fn an_aborted_fetch_fails_the_resolution() {
    let s = selectors(&["A"], None);
    let outcomes = vec![FetchOutcome::Aborted("join error".to_string())];
    match resolve(&s, &outcomes) {
        Err(Error::NetworkError(m)) => assert_eq!(m, "join error"),
        other => panic!("unexpected: {:?}", other),
    }
}

#[test]
fn without_groups_the_outcomes_are_not_looked_at() {
    let s = selectors(&[], Some("x1000c0s0b0n0"));
    let outcomes = vec![FetchOutcome::Aborted("join error".to_string())];
    assert_eq!(resolve(&s, &outcomes).unwrap().to_vec(), strings(&["x1000c0s0b0n0"]));
}

#[test]
fn an_explicit_list_alone_is_taken_as_given() {
    let s = selectors(&[], Some("x2, ,not an xname,x1,"));
    assert_eq!(
        resolve_with(&s, &strings(&["x9"])).unwrap().to_vec(),
        strings(&["", "not an xname", "x1", "x2"])
    );
    assert_eq!(resolve(&selectors(&[], Some("")), &Vec::new()).unwrap().to_vec(), strings(&[""]));
}

#[test]
fn nodes_found_by_another_selector_must_lie_within_the_groups() {
    let members = strings(&["x1000c0s0b0n0", "x1000c0s0b0n1", "x1000c0s0b0n2"]);
    let found = strings(&["x1000c0s0b0n2", "x1000c0s0b0n0", "x1000c0s0b0n2"]);
    assert_eq!(
        within_groups(&found, &members).unwrap().to_vec(),
        strings(&["x1000c0s0b0n0", "x1000c0s0b0n2"])
    );
    assert_eq!(within_groups(&Vec::new(), &members).unwrap().to_vec(), Vec::<String>::new());
    match within_groups(&strings(&["x1000c0s0b0n0", "x1000c0s0b0n3", "x1000c0s0b0n4"]), &members) {
        Err(Error::MembershipError(m)) => {
            assert_eq!(m, "node 'x1000c0s0b0n3' is not a member of the groups")
        }
        other => panic!("unexpected: {:?}", other),
    }
    match within_groups(&strings(&["x1000c0s0b0n9", "bad", "worse"]), &members) {
        Err(Error::FormatError(m)) => assert_eq!(m, "identifier 'x1000c0s0b0n9' is not well formed"),
        other => panic!("unexpected: {:?}", other),
    }
}

#[test]
fn groups_without_members_let_the_nodes_found_through() {
    assert_eq!(
        within_groups(&strings(&["x1000c0s0b0n3"]), &Vec::new()).unwrap().to_vec(),
        strings(&["x1000c0s0b0n3"])
    );
    assert!(matches!(
        within_groups(&strings(&["n3"]), &Vec::new()),
        Err(Error::FormatError(_))
    ));
}
