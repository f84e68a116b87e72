use ochami_rs::error::Error;
use ochami_rs::group::{Group, Member};
use ochami_rs::migrate::{
    add_hsm_members, add_member, migrate_hsm_members, movable, moves, update_hsm_group_members, Mode,
    Mutation,
};

fn strings(items: &[&str]) -> Vec<String> {
    items.iter().map(|s| s.to_string()).collect()
}

const X1: &str = "x1000c0s0b0n1";
const X2: &str = "x1000c0s0b0n2";
const X3: &str = "x1000c0s0b0n3";

#[test]
fn a_dry_run_plans_and_calls_nothing() {
    let plan = migrate_hsm_members(
        "target",
        "parent",
        vec![X2],
        &strings(&[X3]),
        &strings(&[X1, X2]),
        Mode::DryRun,
    )
    .unwrap();
    assert_eq!(plan.target.to_vec(), strings(&[X2, X3]));
    assert_eq!(plan.parent.to_vec(), strings(&[X1]));
    assert_eq!(plan.mode, Mode::DryRun);
    assert!(plan.mutations.is_empty());
}

#[test]
fn apply_adds_to_the_target_then_removes_from_the_parent() {
    let plan = migrate_hsm_members(
        "target",
        "parent",
        vec![X2, X1],
        &strings(&[X3]),
        &strings(&[X1, X2]),
        Mode::Apply,
    )
    .unwrap();
    assert_eq!(plan.target.to_vec(), strings(&[X1, X2, X3]));
    assert_eq!(plan.parent.to_vec(), Vec::<String>::new());
    assert_eq!(plan.mode, Mode::Apply);
    let calls: Vec<String> = plan
        .mutations
        .iter()
        .map(|m| match m {
            Mutation::AddMember { label, id } => format!("add {} to {}", id, label),
            Mutation::RemoveMember { label, id } => format!("remove {} from {}", id, label),
        })
        .collect();
    assert_eq!(
        calls,
        vec![
            format!("add {} to target", X2),
            format!("remove {} from parent", X2),
            format!("add {} to target", X1),
            format!("remove {} from parent", X1),
        ]
    );
}

#[test]
fn target_and_parent_share_no_node_after_the_move() {
    let plan = migrate_hsm_members(
        "target",
        "parent",
        vec![X2],
        &strings(&[X3, X1]),
        &strings(&[X1, X2, X3]),
        Mode::DryRun,
    )
    .unwrap();
    let target = plan.target.to_vec();
    for id in plan.parent.to_vec() {
        assert!(!target.contains(&id));
    }
    assert_eq!(target, strings(&[X1, X2, X3]));
    assert!(plan.parent.is_empty());
}

#[test]
fn a_node_outside_the_parent_is_refused() {
    let r = migrate_hsm_members(
        "target",
        "parent",
        vec![X3],
        &strings(&[]),
        &strings(&[X1, X2]),
        Mode::Apply,
    );
    match r {
        Err(Error::InputError(m)) => assert_eq!(m, format!("Nodes '{}' not valid", X3)),
        other => panic!("unexpected: {:?}", other),
    }
}

#[test]
fn a_malformed_node_is_refused() {
    let r = migrate_hsm_members(
        "target",
        "parent",
        vec!["x2", X1],
        &strings(&[]),
        &strings(&["x2", X1]),
        Mode::DryRun,
    );
    match r {
        Err(Error::InputError(m)) => assert_eq!(m, format!("Nodes 'x2, {}' not valid", X1)),
        other => panic!("unexpected: {:?}", other),
    }
}

#[test]
fn from_an_empty_parent_nothing_moves() {
    for mode in [Mode::DryRun, Mode::Apply] {
        let r = migrate_hsm_members("T", "P", vec![X1], &strings(&[X2]), &strings(&[]), mode);
        match r {
            Err(Error::InputError(m)) => assert_eq!(m, format!("Nodes '{}' not valid", X1)),
            other => panic!("unexpected: {:?}", other),
        }
    }
}

#[test]
fn one_node_outside_the_parent_refuses_the_whole_move() {
    let r = migrate_hsm_members(
        "T",
        "P",
        vec![X1, X3],
        &strings(&[]),
        &strings(&[X1, X2]),
        Mode::DryRun,
    );
    assert!(matches!(r, Err(Error::InputError(_))));
}

#[test]
fn nodes_may_move_when_well_formed_and_in_the_parent() {
    let parent = strings(&[X1, X2, "x2"]);
    assert!(movable(&vec![X1, X2], &parent));
    assert!(movable(&Vec::new(), &parent));
    assert!(movable(&Vec::new(), &Vec::new()));
    assert!(!movable(&vec![X1, X3], &parent));
    assert!(!movable(&vec!["x2"], &parent));
    assert!(!movable(&vec![X1], &Vec::new()));
}

#[test]
fn moving_nothing_changes_nothing() {
    let plan = migrate_hsm_members(
        "target",
        "parent",
        Vec::new(),
        &strings(&[X3]),
        &strings(&[X1]),
        Mode::Apply,
    )
    .unwrap();
    assert_eq!(plan.target.to_vec(), strings(&[X3]));
    assert_eq!(plan.parent.to_vec(), strings(&[X1]));
    assert!(plan.mutations.is_empty());
}

#[test]
fn moves_come_in_pairs() {
    assert_eq!(moves("t", "p", &vec!["a", "b", "c"]).len(), 6);
    assert!(moves("t", "p", &Vec::new()).is_empty());
}

fn group(label: &str, members: Option<&[&str]>) -> Group {
    Group {
        label: label.to_string(),
        description: None,
        tags: None,
        members: members.map(|ids| Member { ids: Some(strings(ids)) }),
        exclusive_group: None,
    }
}

#[test]
fn an_added_member_comes_last() {
    let (members, call) = add_member(&group("compute", Some(&[X2, X1])), X3);
    assert_eq!(members, strings(&[X2, X1, X3]));
    match call {
        Mutation::AddMember { label, id } => {
            assert_eq!(label, "compute");
            assert_eq!(id, X3);
        }
        other => panic!("unexpected: {:?}", other),
    }
    let (members, _) = add_member(&group("empty", None), X1);
    assert_eq!(members, strings(&[X1]));
}

#[test]
fn members_are_added_to_a_group() {
    let (after, calls) = add_hsm_members("compute", &strings(&[X2]), vec![X3, X1, X2], false);
    assert_eq!(after.to_vec(), strings(&[X1, X2, X3]));
    assert_eq!(calls.len(), 3);
    let (after, calls) = add_hsm_members("compute", &strings(&[X2]), vec![X3], true);
    assert_eq!(after.to_vec(), strings(&[X2, X3]));
    assert!(calls.is_empty());
}

#[test]
fn an_update_removes_then_adds() {
    assert_eq!(
        update_hsm_group_members(&strings(&[X1, X2, X3, X2]), &strings(&[X2]), &strings(&[X2, "n"])),
        strings(&[X1, X3, X2, "n"])
    );
    assert_eq!(
        update_hsm_group_members(&strings(&[X1]), &strings(&[]), &strings(&[])),
        strings(&[X1])
    );
    assert_eq!(
        update_hsm_group_members(&strings(&[]), &strings(&[X1]), &strings(&[X1])),
        strings(&[X1])
    );
}
