use ochami_rs::membership::validate_xnames_format_and_membership_agaisnt_single_hsm;
use ochami_rs::xname::validate_xname_format;

#[test]
fn cabinet_needs_four_digits() {
    assert!(!validate_xname_format("x1c0s0b0n0"));
    assert!(validate_xname_format("x1000c0s0b0n0"));
}

#[test]
fn accepts_the_whole_range_of_each_field() {
    assert!(validate_xname_format("x0000c0s0b0n0"));
    assert!(validate_xname_format("x9999c7s64b1n7"));
    assert!(validate_xname_format("x1234c3s9b0n4"));
    assert!(validate_xname_format("x1234c3s10b1n0"));
    assert!(validate_xname_format("x1234c3s59b1n0"));
    assert!(validate_xname_format("x1234c3s60b1n0"));
}

#[test]
fn rejects_values_out_of_range() {
    assert!(!validate_xname_format("x1000c8s0b0n0"));
    assert!(!validate_xname_format("x1000c0s65b0n0"));
    assert!(!validate_xname_format("x1000c0s70b0n0"));
    assert!(!validate_xname_format("x1000c0s100b0n0"));
    assert!(!validate_xname_format("x1000c0s0b2n0"));
    assert!(!validate_xname_format("x1000c0s0b0n8"));
}

#[test]
fn rejects_a_slot_with_a_leading_zero() {
    assert!(!validate_xname_format("x1000c0s01b0n0"));
    assert!(!validate_xname_format("x1000c0s00b0n0"));
}

#[test]
fn rejects_what_is_not_the_whole_grammar() {
    assert!(!validate_xname_format(""));
    assert!(!validate_xname_format("x1000c0s0b0"));
    assert!(!validate_xname_format("x1000c0s0b0n0 "));
    assert!(!validate_xname_format(" x1000c0s0b0n0"));
    assert!(!validate_xname_format("x1000c0s0b0n0\n"));
    assert!(!validate_xname_format("X1000c0s0b0n0"));
    assert!(!validate_xname_format("x10000c0s0b0n0"));
    assert!(!validate_xname_format("x100ac0s0b0n0"));
    assert!(!validate_xname_format("x1000c0s0b0n00"));
    assert!(!validate_xname_format("x1000c0sb0n0"));
    assert!(!validate_xname_format("x1000c0s0b0n0é"));
    assert!(!validate_xname_format("éééééééééééééé"));
}

#[test]
fn only_ascii_digits_count() {
    assert!(!validate_xname_format("x\u{661}\u{662}\u{663}\u{664}c0s0b0n0"));
    assert!(!validate_xname_format("x1000c0s0b0n\u{ff10}"));
}

#[test]
fn membership_fails_for_a_node_outside_the_group() {
    let members = vec!["x2".to_string()];
    assert!(!validate_xnames_format_and_membership_agaisnt_single_hsm(&["x1"], Some(&members)));
}

#[test]
fn membership_holds_for_well_formed_members() {
    let members = vec!["x1000c0s0b0n0".to_string(), "x1000c0s0b0n1".to_string()];
    assert!(validate_xnames_format_and_membership_agaisnt_single_hsm(
        &["x1000c0s0b0n1"],
        Some(&members)
    ));
    assert!(validate_xnames_format_and_membership_agaisnt_single_hsm(
        &["x1000c0s0b0n1", "x1000c0s0b0n0"],
        Some(&members)
    ));
    assert!(!validate_xnames_format_and_membership_agaisnt_single_hsm(
        &["x1000c0s0b0n1", "x1000c0s0b0n2"],
        Some(&members)
    ));
}

#[test]
fn membership_checks_the_format_of_members_too() {
    let members = vec!["x1".to_string()];
    assert!(!validate_xnames_format_and_membership_agaisnt_single_hsm(&["x1"], Some(&members)));
}

#[test]
fn an_empty_group_constrains_nothing() {
    let members: Vec<String> = Vec::new();
    assert!(validate_xnames_format_and_membership_agaisnt_single_hsm(
        &["x1000c0s0b0n0"],
        Some(&members)
    ));
    assert!(!validate_xnames_format_and_membership_agaisnt_single_hsm(&["nonsense"], Some(&members)));
}

#[test]
fn without_a_group_only_the_format_counts() {
    assert!(validate_xnames_format_and_membership_agaisnt_single_hsm(&["x1000c0s0b0n0"], None));
    assert!(!validate_xnames_format_and_membership_agaisnt_single_hsm(&["x1000c0s0b0n9"], None));
    assert!(validate_xnames_format_and_membership_agaisnt_single_hsm(&[], None));
}
