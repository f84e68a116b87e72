use ochami_rs::node_set::{followed_by, contains_text, without, NodeSet};

fn strings(items: &[&str]) -> Vec<String> {
    items.iter().map(|s| s.to_string()).collect()
}

#[test]
fn a_node_set_is_sorted_and_holds_nothing_twice() {
    let set = NodeSet::from_vec(&strings(&["x3", "x1", "x2", "x1", "x3"]));
    assert_eq!(set.to_vec(), strings(&["x1", "x2", "x3"]));
    assert_eq!(set.len(), 3);
    assert!(!set.is_empty());
}

#[test]
fn the_order_is_that_of_str() {
    let mut items = strings(&["x1000c0s10b0n0", "x1000c0s9b0n0", "x1000c0s1b0n0", "", "é", "x", "X"]);
    let set = NodeSet::from_vec(&items);
    items.sort();
    items.dedup();
    assert_eq!(set.to_vec(), items);
}

#[test]
fn the_empty_set() {
    let set = NodeSet::empty();
    assert!(set.is_empty());
    assert_eq!(set.len(), 0);
    assert_eq!(set.to_vec(), Vec::<String>::new());
    assert!(NodeSet::from_vec(&Vec::new()).is_empty());
}

#[test]
fn membership_in_a_set() {
    let set = NodeSet::from_vec(&strings(&["b", "a"]));
    assert!(set.contains("a"));
    assert!(set.contains("b"));
    assert!(!set.contains("c"));
    assert!(!set.contains(""));
}

#[test]
fn union_and_difference() {
    let a = NodeSet::from_vec(&strings(&["x1", "x2"]));
    let b = NodeSet::from_vec(&strings(&["x2", "x3"]));
    assert_eq!(a.union(&b).to_vec(), strings(&["x1", "x2", "x3"]));
    assert_eq!(a.difference(&b).to_vec(), strings(&["x1"]));
    assert_eq!(b.difference(&a).to_vec(), strings(&["x3"]));
    assert_eq!(a.difference(&a).to_vec(), Vec::<String>::new());
    assert_eq!(a.union(&NodeSet::empty()).to_vec(), a.to_vec());
}

#[test]
fn a_clone_holds_the_same_nodes() {
    let a = NodeSet::from_vec(&strings(&["x2", "x1"]));
    assert_eq!(a.clone().to_vec(), a.to_vec());
}

#[test]
fn helpers_on_lists() {
    assert_eq!(followed_by(&strings(&["a", "b"]), &strings(&["b", "c"])), strings(&["a", "b", "b", "c"]));
    assert_eq!(without(&strings(&["a", "b", "a", "c"]), &strings(&["a"])), strings(&["b", "c"]));
    assert!(contains_text(&strings(&["a", "b"]), "b"));
    assert!(!contains_text(&strings(&["a", "b"]), "ab"));
}
