use ochami_rs::component::{component_ids, Component};
use ochami_rs::error::Error;
use ochami_rs::nid::{
    nid_filter, nid_label, nid_query, nodes_of, select_matching, short_nid, NidPatterns,
    HOSTLIST_MAX,
};

fn strings(items: &[&str]) -> Vec<String> {
    items.iter().map(|s| s.to_string()).collect()
}

fn component(id: Option<&str>, nid: Option<u32>) -> Component {
    Component {
        id: id.map(|s| s.to_string()),
        kind: Some("Node".to_string()),
        state: None,
        flag: None,
        enabled: None,
        software_status: None,
        role: None,
        sub_role: None,
        nid,
        subtype: None,
        net_type: None,
        arch: None,
        class: None,
        reservation_disabled: None,
        locked: None,
    }
}

fn inventory() -> Vec<Component> {
    vec![
        component(Some("x1000c0s0b0n3"), Some(3)),
        component(Some("x1000c0s0b0n1"), Some(1)),
        component(Some("x1000c0s0b0n2"), Some(2)),
        component(Some("x1000c0s1b0n0"), Some(10)),
        component(Some("x1000c0s2b0n0"), None),
        component(None, Some(1)),
    ]
}

#[test]
fn a_nid_label_has_six_digits() {
    assert_eq!(nid_label(1), "nid000001");
    assert_eq!(nid_label(0), "nid000000");
    assert_eq!(nid_label(123456), "nid123456");
    assert_eq!(nid_label(1234567), "nid1234567");
}

#[test]
fn a_hostlist_expands_to_its_nids() {
    assert_eq!(nid_query("nid0000[01-03]").unwrap(), "1,2,3");
    let found = vec![
        component(Some("x1000c0s0b0n2"), Some(2)),
        component(Some("x1000c0s0b0n1"), Some(1)),
        component(Some("x1000c0s0b0n3"), Some(3)),
        component(Some("x1000c0s0b0n1"), Some(1)),
    ];
    assert_eq!(
        nodes_of(&found).to_vec(),
        strings(&["x1000c0s0b0n1", "x1000c0s0b0n2", "x1000c0s0b0n3"])
    );
}

#[test]
fn a_comma_list_of_nids_is_a_hostlist() {
    assert_eq!(nid_query("nid000001,nid000002,nid000003").unwrap(), "1,2,3");
    assert_eq!(nid_query("nid000010").unwrap(), "10");
    assert_eq!(nid_query("nid0000[01-03],nid001000").unwrap(), "1,2,3,1000");
}

#[test]
fn a_broken_hostlist_is_an_input_error() {
    match nid_query("nid0000[01-") {
        Err(Error::InputError(m)) => {
            assert!(m.starts_with("Could not parse list of nodes as a hostlist. Reason:\n"));
            assert!(m.ends_with("Exit"));
            assert!(m.len() > "Could not parse list of nodes as a hostlist. Reason:\nExit".len());
        }
        other => panic!("unexpected: {:?}", other),
    }
    assert!(matches!(nid_query(""), Err(Error::InputError(_))));
}

#[test]
fn a_host_that_is_no_nid_is_an_input_error() {
    match nid_query("node[1-2]") {
        Err(Error::InputError(m)) => assert_eq!(m, "Nid 'node1' not valid, 'nid' prefix missing"),
        other => panic!("unexpected: {:?}", other),
    }
}

#[test]
fn the_short_form_of_a_label() {
    assert_eq!(short_nid("nid000001"), Some("1".to_string()));
    assert_eq!(short_nid("nid001000"), Some("1000".to_string()));
    assert_eq!(short_nid("nid000000"), Some("".to_string()));
    assert_eq!(short_nid("nid"), Some("".to_string()));
    assert_eq!(short_nid("nid0x0"), Some("x0".to_string()));
    assert_eq!(short_nid("ni"), None);
    assert_eq!(short_nid("xnid0001"), None);
    assert_eq!(short_nid(""), None);
}

#[test]
fn the_filter_joins_the_short_forms() {
    assert_eq!(nid_filter(&strings(&["nid000007", "nid000042"])).unwrap(), "7,42");
    assert_eq!(nid_filter(&strings(&[])).unwrap(), "");
    assert!(matches!(nid_filter(&strings(&["nid000007", "n42"])), Err(Error::InputError(_))));
}

#[test]
fn patterns_select_by_nid_label() {
    let patterns = NidPatterns::compile("nid00000[12]").unwrap();
    assert_eq!(
        patterns.select(&inventory()).to_vec(),
        strings(&["x1000c0s0b0n1", "x1000c0s0b0n2"])
    );
    assert_eq!(patterns.matching(&inventory()), vec![false, true, true, false, false, true]);
}

#[test]
fn several_patterns_select_what_any_of_them_matches() {
    let patterns = NidPatterns::compile(" nid000003 , nid00001.*,nid000003").unwrap();
    assert_eq!(
        patterns.select(&inventory()).to_vec(),
        strings(&["x1000c0s0b0n3", "x1000c0s1b0n0"])
    );
}

#[test]
fn a_pattern_matches_anywhere_in_the_label() {
    let patterns = NidPatterns::compile("0001$").unwrap();
    assert!(patterns.matches("nid000001"));
    assert!(!patterns.matches("nid000010"));
    assert!(NidPatterns::compile("").unwrap().matches("anything"));
    assert!(!NidPatterns::compile("^x").unwrap().matches("nid000001"));
}

#[test]
fn a_broken_pattern_is_a_compile_error() {
    match NidPatterns::compile("nid0000.*,nid(") {
        Err(Error::CompileError(m)) => assert!(!m.is_empty() && m != "nid("),
        _ => panic!("a broken pattern compiled"),
    }
}

#[test]
fn marked_components_are_selected() {
    let picked = select_matching(&inventory(), &vec![true, false, true, false, true, true]);
    assert_eq!(
        picked.to_vec(),
        strings(&["x1000c0s0b0n2", "x1000c0s0b0n3", "x1000c0s2b0n0"])
    );
    assert!(select_matching(&inventory(), &Vec::new()).is_empty());
    assert_eq!(select_matching(&inventory(), &vec![true]).to_vec(), strings(&["x1000c0s0b0n3"]));
}

#[test]
fn the_identifiers_of_components() {
    assert_eq!(
        component_ids(&inventory()),
        strings(&[
            "x1000c0s0b0n3",
            "x1000c0s0b0n1",
            "x1000c0s0b0n2",
            "x1000c0s1b0n0",
            "x1000c0s2b0n0"
        ])
    );
}

#[test]
fn a_hostlist_beyond_the_bound_is_refused() {
    assert_eq!(HOSTLIST_MAX, 65535);
    let long = format!("nid[{}1]", "0".repeat(65536));
    match nid_query(&long) {
        Err(Error::InputError(m)) => assert_eq!(m, "hostlist too long"),
        other => panic!("unexpected: {:?}", other),
    }
    let many: Vec<String> = (0..9000).map(|i| format!("nid{:06}", i)).collect();
    assert!(many.join(",").len() > HOSTLIST_MAX);
    assert!(matches!(nid_query(&many.join(",")), Err(Error::InputError(_))));
}

#[test]
fn a_hostlist_at_the_bound_is_expanded() {
    let zeros = HOSTLIST_MAX - "nid[1]".len();
    let widest = format!("nid[{}1]", "0".repeat(zeros));
    assert_eq!(widest.chars().count(), HOSTLIST_MAX);
    assert_eq!(nid_query(&widest).unwrap(), "1");
    assert_eq!(nid_query("nid[0000000001-0000000003]").unwrap(), "1,2,3");
}
