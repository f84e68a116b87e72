use ochami_rs::adapter::{
    add_member, below, check_status, create_group, delete_group, fetch_all_nodes, fetch_group,
    fetch_groups, fetch_labels, fetch_members, fetch_nodes_by_nid, item_address, list_all_groups,
    push_optional,
    remove_member, resource_address, Dialect, Method, Ochami, Payload, Resource,
};
use ochami_rs::error::Error;
use ochami_rs::group::Group;

fn pairs(items: &[(&str, &str)]) -> Vec<(String, String)> {
    items.iter().map(|(k, v)| (k.to_string(), v.to_string())).collect()
}

#[test]
fn the_two_dialects_differ_in_the_path() {
    assert_eq!(list_all_groups(Dialect::Ochami, "https://h:8443").url, "https://h:8443/hsm/v2/groups");
    assert_eq!(list_all_groups(Dialect::Csm, "https://h:8443").url, "https://h:8443/smd/hsm/v2/groups");
}

#[test]
fn the_requests_of_a_group() {
    let r = fetch_group(Dialect::Ochami, "http://h", "compute");
    assert_eq!(r.method, Method::Get);
    assert_eq!(r.url, "http://h/hsm/v2/groups/compute");
    assert!(r.query.is_empty());
    assert!(matches!(r.payload, Payload::Empty));

    let r = fetch_members(Dialect::Csm, "http://h", "compute");
    assert_eq!(r.method, Method::Get);
    assert_eq!(r.url, "http://h/smd/hsm/v2/groups/compute/members");

    let r = fetch_labels(Dialect::Ochami, "http://h");
    assert_eq!(r.url, "http://h/hsm/v2/groups/labels");

    let r = delete_group(Dialect::Ochami, "http://h", "compute");
    assert_eq!(r.method, Method::Delete);
    assert_eq!(r.url, "http://h/hsm/v2/groups/compute");
}

#[test]
fn the_filter_of_a_listing() {
    let r = fetch_groups(Dialect::Ochami, "http://h", Some(&["a", "b"]), Some(&["t"]));
    assert_eq!(r.method, Method::Get);
    assert_eq!(r.url, "http://h/hsm/v2/groups");
    assert_eq!(r.query, pairs(&[("group", "a"), ("group", "b"), ("tag", "t")]));
    assert!(fetch_groups(Dialect::Ochami, "http://h", None, None).query.is_empty());
    assert_eq!(
        fetch_groups(Dialect::Csm, "http://h", None, Some(&["t", "u"])).query,
        pairs(&[("tag", "t"), ("tag", "u")])
    );
}

#[test]
fn the_requests_that_change_membership() {
    let r = add_member(Dialect::Ochami, "http://h", "compute", "x1000c0s0b0n0");
    assert_eq!(r.method, Method::Post);
    assert_eq!(r.url, "http://h/hsm/v2/groups/compute/members");
    match r.payload {
        Payload::Member(id) => assert_eq!(id, "x1000c0s0b0n0"),
        other => panic!("unexpected: {:?}", other),
    }
    let r = remove_member(Dialect::Csm, "http://h", "compute", "x1000c0s0b0n0");
    assert_eq!(r.method, Method::Delete);
    assert_eq!(r.url, "http://h/smd/hsm/v2/groups/compute/members/x1000c0s0b0n0");
    assert!(matches!(r.payload, Payload::Empty));
}

#[test]
fn the_request_that_creates_a_group() {
    let group = Group {
        label: "compute".to_string(),
        description: Some("all compute nodes".to_string()),
        tags: None,
        members: None,
        exclusive_group: None,
    };
    let r = create_group(Dialect::Ochami, "http://h", group);
    assert_eq!(r.method, Method::Post);
    assert_eq!(r.url, "http://h/hsm/v2/groups");
    match r.payload {
        Payload::Group(g) => assert_eq!(g.label, "compute"),
        other => panic!("unexpected: {:?}", other),
    }
}

#[test]
fn the_requests_of_the_inventory() {
    let r = fetch_all_nodes(Dialect::Csm, "http://h");
    assert_eq!(r.url, "http://h/smd/hsm/v2/State/Components");
    assert_eq!(r.query, pairs(&[("type", "Node"), ("nidonly", "true")]));
    let r = fetch_nodes_by_nid(Dialect::Ochami, "http://h", "1,2,3");
    assert_eq!(r.url, "http://h/hsm/v2/State/Components");
    assert_eq!(r.query, pairs(&[("nid", "1,2,3"), ("nidonly", "true")]));
}

#[test]
fn a_failure_status_is_a_backend_error() {
    assert_eq!(check_status(200, "ok".to_string()).unwrap(), "ok");
    assert_eq!(check_status(204, String::new()).unwrap(), "");
    assert_eq!(check_status(399, "moved".to_string()).unwrap(), "moved");
    assert_eq!(check_status(600, "odd".to_string()).unwrap(), "odd");
    for status in [400u16, 401, 404, 500, 599] {
        match check_status(status, "no".to_string()) {
            Err(Error::BackendError { status: s, payload }) => {
                assert_eq!(s, status);
                assert_eq!(payload, "no");
            }
            other => panic!("unexpected: {:?}", other),
        }
    }
}

#[test]
fn a_handle_keeps_address_and_certificate() {
    let backend = Ochami::new("https://h:8443", b"-----BEGIN CERTIFICATE-----");
    assert_eq!(backend.base_url(), "https://h:8443");
    assert_eq!(backend.root_cert(), b"-----BEGIN CERTIFICATE-----");
    assert_eq!(backend.dialect(), Dialect::Ochami);
}

#[test]
fn an_error_tells_its_text() {
    assert_eq!(Error::InputError("a".to_string()).message(), "a");
    assert_eq!(Error::FormatError("b".to_string()).message(), "b");
    assert_eq!(Error::CompileError("c".to_string()).message(), "c");
    assert_eq!(Error::MembershipError("d".to_string()).message(), "d");
    assert_eq!(Error::NetworkError("e".to_string()).message(), "e");
    assert_eq!(Error::BackendError { status: 404, payload: "f".to_string() }.message(), "f");
}

#[test]
fn the_addresses_of_the_other_resources() {
    let cases = [
        (Resource::Partitions, "/hsm/v2/partitions"),
        (Resource::Components, "/hsm/v2/State/Components"),
        (Resource::ComponentQuery, "/hsm/v2/State/Components/Query"),
        (Resource::ComponentsByNid, "/hsm/v2/State/Components/ByNID"),
        (Resource::NodeMaps, "/hsm/v2/Defaults/NodeMaps"),
        (Resource::EthernetInterfaces, "/hsm/v2/Inventory/EthernetInterfaces"),
        (Resource::Hardware, "/hsm/v2/Inventory/Hardware"),
        (Resource::HardwareQuery, "/hsm/v2/Inventory/Hardware/Query"),
        (Resource::HardwareByFru, "/hsm/v2/Inventory/HardwareByFRU"),
        (Resource::Memberships, "/hsm/v2/memberships"),
        (Resource::BootParameters, "/boot/v1/bootparameters"),
        (Resource::PowerStatus, "/power-control/v1/power-status"),
    ];
    for (resource, path) in cases {
        assert_eq!(resource_address(Dialect::Ochami, "http://h", resource), format!("http://h{}", path));
    }
    assert_eq!(
        resource_address(Dialect::Csm, "http://h", Resource::Memberships),
        "http://h/smd/hsm/v2/memberships"
    );
    assert_eq!(
        resource_address(Dialect::Csm, "http://h", Resource::BootParameters),
        "http://h/boot/v1/bootparameters"
    );
    assert_eq!(
        item_address(Dialect::Csm, "http://h", Resource::NodeMaps, "x1000c0s0b0n0"),
        "http://h/smd/hsm/v2/Defaults/NodeMaps/x1000c0s0b0n0"
    );
}

#[test]
fn addresses_below_an_address() {
    assert_eq!(below("http://h/hsm/v2/partitions".to_string(), "names"), "http://h/hsm/v2/partitions/names");
    assert_eq!(below(String::new(), ""), "/");
}

#[test]
fn a_query_takes_the_values_that_are_given() {
    let mut query = pairs(&[("type", "Node")]);
    push_optional(&mut query, "state", None);
    push_optional(&mut query, "role", Some("Compute"));
    push_optional(&mut query, "flag", Some(""));
    assert_eq!(query, pairs(&[("type", "Node"), ("role", "Compute"), ("flag", "")]));
}
