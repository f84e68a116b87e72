//! The inventory service as the library sees it: the requests of the group
//! and component resources in the two dialects of the service, and the
//! reading of its answers. Sending a request is the caller's part.

use vstd::prelude::*;
use crate::error::Error;
use crate::group::Group;
use crate::text::slice_texts;

verus! {

/// The dialect of the REST interface that a service speaks.
#[derive(Clone, Copy, Debug, PartialEq, Eq, Structural)]
pub enum Dialect {
    /// The state manager behind the `smd` gateway path.
    Csm,
    /// The state manager at the root of the service.
    Ochami,
}

/// The method of a request.
#[derive(Clone, Copy, Debug, PartialEq, Eq, Structural)]
pub enum Method {
    Get,
    Post,
    Put,
    Patch,
    Delete,
}

/// What a request carries in its body.
#[derive(Clone, Debug)]
pub enum Payload {
    /// Nothing.
    Empty,
    /// A group to create.
    Group(Group),
    /// The identifier of a member to add.
    Member(String),
    /// A body that the caller has encoded as JSON.
    Json(String),
}

/// A request to the inventory service.
#[derive(Clone, Debug)]
pub struct Request {
    pub method: Method,
    pub url: String,
    pub query: Vec<(String, String)>,
    pub payload: Payload,
}

/// The path under which a dialect serves the state manager.
pub open spec fn service_path(dialect: Dialect) -> Seq<char> {
    match dialect {
        Dialect::Csm => "/smd/hsm/v2"@,
        Dialect::Ochami => "/hsm/v2"@,
    }
}

/// The address of the group collection.
pub open spec fn groups_url(dialect: Dialect, base_url: Seq<char>) -> Seq<char> {
    base_url + service_path(dialect) + "/groups"@
}

/// The address of the group `label`.
pub open spec fn group_url(dialect: Dialect, base_url: Seq<char>, label: Seq<char>) -> Seq<
    char,
> {
    groups_url(dialect, base_url) + "/"@ + label
}

/// The address of the members of the group `label`.
pub open spec fn members_url(dialect: Dialect, base_url: Seq<char>, label: Seq<char>) -> Seq<
    char,
> {
    group_url(dialect, base_url, label) + "/members"@
}

/// The address of the member `id` of the group `label`.
pub open spec fn member_url(
    dialect: Dialect,
    base_url: Seq<char>,
    label: Seq<char>,
    id: Seq<char>,
) -> Seq<char> {
    members_url(dialect, base_url, label) + "/"@ + id
}

/// The address of the component collection.
pub open spec fn components_url(dialect: Dialect, base_url: Seq<char>) -> Seq<char> {
    base_url + service_path(dialect) + "/State/Components"@
}

/// The query of a request, as pairs of texts.
pub open spec fn query_texts(query: Seq<(String, String)>) -> Seq<(Seq<char>, Seq<char>)> {
    Seq::new(query.len(), |i: int| (query[i].0@, query[i].1@))
}

/// One pair with the key `key` for each of `values`, in order.
pub open spec fn pairs_of(key: Seq<char>, values: Seq<Seq<char>>) -> Seq<(Seq<char>, Seq<char>)> {
    Seq::new(values.len(), |i: int| (key, values[i]))
}

/// The filter of a group listing: a `group` pair for each label, then a
/// `tag` pair for each tag.
pub open spec fn group_filter(labels: Option<Seq<Seq<char>>>, tags: Option<Seq<Seq<char>>>) -> Seq<
    (Seq<char>, Seq<char>),
> {
    (match labels {
        Some(l) => pairs_of("group"@, l),
        None => Seq::<(Seq<char>, Seq<char>)>::empty(),
    }) + (match tags {
        Some(t) => pairs_of("tag"@, t),
        None => Seq::<(Seq<char>, Seq<char>)>::empty(),
    })
}

fn service_root(dialect: Dialect, base_url: &str) -> (url: String)
    ensures
        url@ == base_url@ + service_path(dialect),
{
    let mut url = base_url.to_owned();
    match dialect {
        Dialect::Csm => url.append("/smd/hsm/v2"),
        Dialect::Ochami => url.append("/hsm/v2"),
    }
    url
}

fn groups_address(dialect: Dialect, base_url: &str) -> (url: String)
    ensures
        url@ == groups_url(dialect, base_url@),
{
    let mut url = service_root(dialect, base_url);
    url.append("/groups");
    url
}

fn group_address(dialect: Dialect, base_url: &str, label: &str) -> (url: String)
    ensures
        url@ == group_url(dialect, base_url@, label@),
{
    let mut url = groups_address(dialect, base_url);
    url.append("/");
    url.append(label);
    url
}

fn members_address(dialect: Dialect, base_url: &str, label: &str) -> (url: String)
    ensures
        url@ == members_url(dialect, base_url@, label@),
{
    let mut url = group_address(dialect, base_url, label);
    url.append("/members");
    url
}

fn push_pairs(query: &mut Vec<(String, String)>, key: &str, values: &[&str])
    ensures
        query_texts(final(query)@) == query_texts(old(query)@) + pairs_of(
            key@,
            slice_texts(values@),
        ),
{
    let ghost start = query_texts(query@);
    for i in 0..values.len()
        invariant
            query_texts(query@) == start + pairs_of(key@, slice_texts(values@).take(i as int)),
    {
        let ghost before = query@;
        query.push((key.to_owned(), values[i].to_owned()));
        proof {
            assert(query_texts(query@) =~= query_texts(before).push((key@, values@[i as int]@)));
            assert(pairs_of(key@, slice_texts(values@).take(i + 1)) =~= pairs_of(
                key@,
                slice_texts(values@).take(i as int),
            ).push((key@, values@[i as int]@)));
        }
    }
    assert(slice_texts(values@).take(values.len() as int) =~= slice_texts(values@));
}

/// The request that lists the groups, all of them or those with one of
/// `labels` and one of `tags`.
pub fn fetch_groups(
    dialect: Dialect,
    base_url: &str,
    labels: Option<&[&str]>,
    tags: Option<&[&str]>,
) -> (r: Request)
    ensures
        r.method == Method::Get,
        r.url@ == groups_url(dialect, base_url@),
        query_texts(r.query@) == group_filter(
            match labels {
                Some(l) => Some(slice_texts(l@)),
                None => None,
            },
            match tags {
                Some(t) => Some(slice_texts(t@)),
                None => None,
            },
        ),
        r.payload is Empty,
{
    let mut query: Vec<(String, String)> = Vec::new();
    assert(query_texts(query@) =~= Seq::<(Seq<char>, Seq<char>)>::empty());
    if let Some(l) = labels {
        push_pairs(&mut query, "group", l);
    }
    if let Some(t) = tags {
        push_pairs(&mut query, "tag", t);
    }
    let r = Request {
        method: Method::Get,
        url: groups_address(dialect, base_url),
        query,
        payload: Payload::Empty,
    };
    assert(query_texts(r.query@) =~= group_filter(
        match labels {
            Some(l) => Some(slice_texts(l@)),
            None => None,
        },
        match tags {
            Some(t) => Some(slice_texts(t@)),
            None => None,
        },
    ));
    r
}

/// The request that lists every group.
pub fn list_all_groups(dialect: Dialect, base_url: &str) -> (r: Request)
    ensures
        r.method == Method::Get,
        r.url@ == groups_url(dialect, base_url@),
        r.query@.len() == 0,
        r.payload is Empty,
{
    Request {
        method: Method::Get,
        url: groups_address(dialect, base_url),
        query: Vec::new(),
        payload: Payload::Empty,
    }
}

/// The request that fetches the group `label`.
pub fn fetch_group(dialect: Dialect, base_url: &str, label: &str) -> (r: Request)
    ensures
        r.method == Method::Get,
        r.url@ == group_url(dialect, base_url@, label@),
        r.query@.len() == 0,
        r.payload is Empty,
{
    Request {
        method: Method::Get,
        url: group_address(dialect, base_url, label),
        query: Vec::new(),
        payload: Payload::Empty,
    }
}

/// The request that lists the labels of the groups.
pub fn fetch_labels(dialect: Dialect, base_url: &str) -> (r: Request)
    ensures
        r.method == Method::Get,
        r.url@ == group_url(dialect, base_url@, "labels"@),
        r.query@.len() == 0,
        r.payload is Empty,
{
    Request {
        method: Method::Get,
        url: group_address(dialect, base_url, "labels"),
        query: Vec::new(),
        payload: Payload::Empty,
    }
}

/// The request that fetches the members of the group `label`.
pub fn fetch_members(dialect: Dialect, base_url: &str, label: &str) -> (r: Request)
    ensures
        r.method == Method::Get,
        r.url@ == members_url(dialect, base_url@, label@),
        r.query@.len() == 0,
        r.payload is Empty,
{
    Request {
        method: Method::Get,
        url: members_address(dialect, base_url, label),
        query: Vec::new(),
        payload: Payload::Empty,
    }
}

/// The request that creates `group`.
pub fn create_group(dialect: Dialect, base_url: &str, group: Group) -> (r: Request)
    ensures
        r.method == Method::Post,
        r.url@ == groups_url(dialect, base_url@),
        r.query@.len() == 0,
        r.payload == Payload::Group(group),
{
    Request {
        method: Method::Post,
        url: groups_address(dialect, base_url),
        query: Vec::new(),
        payload: Payload::Group(group),
    }
}

/// The request that deletes the group `label`.
pub fn delete_group(dialect: Dialect, base_url: &str, label: &str) -> (r: Request)
    ensures
        r.method == Method::Delete,
        r.url@ == group_url(dialect, base_url@, label@),
        r.query@.len() == 0,
        r.payload is Empty,
{
    Request {
        method: Method::Delete,
        url: group_address(dialect, base_url, label),
        query: Vec::new(),
        payload: Payload::Empty,
    }
}

/// The request that adds the node `id` to the group `label`.
pub fn add_member(dialect: Dialect, base_url: &str, label: &str, id: &str) -> (r: Request)
    ensures
        r.method == Method::Post,
        r.url@ == members_url(dialect, base_url@, label@),
        r.query@.len() == 0,
        r.payload matches Payload::Member(m) && m@ == id@,
{
    Request {
        method: Method::Post,
        url: members_address(dialect, base_url, label),
        query: Vec::new(),
        payload: Payload::Member(id.to_owned()),
    }
}

/// The request that removes the node `id` from the group `label`.
pub fn remove_member(dialect: Dialect, base_url: &str, label: &str, id: &str) -> (r: Request)
    ensures
        r.method == Method::Delete,
        r.url@ == member_url(dialect, base_url@, label@, id@),
        r.query@.len() == 0,
        r.payload is Empty,
{
    let mut url = members_address(dialect, base_url, label);
    url.append("/");
    url.append(id);
    Request { method: Method::Delete, url, query: Vec::new(), payload: Payload::Empty }
}

/// The request that lists the components that are nodes, with their NIDs.
pub fn fetch_all_nodes(dialect: Dialect, base_url: &str) -> (r: Request)
    ensures
        r.method == Method::Get,
        r.url@ == components_url(dialect, base_url@),
        query_texts(r.query@) == seq![("type"@, "Node"@), ("nidonly"@, "true"@)],
        r.payload is Empty,
{
    let mut url = service_root(dialect, base_url);
    url.append("/State/Components");
    let mut query: Vec<(String, String)> = Vec::new();
    query.push(("type".to_owned(), "Node".to_owned()));
    query.push(("nidonly".to_owned(), "true".to_owned()));
    let r = Request { method: Method::Get, url, query, payload: Payload::Empty };
    assert(query_texts(r.query@) =~= seq![("type"@, "Node"@), ("nidonly"@, "true"@)]);
    r
}

/// The request that lists the components whose NID is in `nid_filter`, a
/// comma-separated list of numbers.
pub fn fetch_nodes_by_nid(dialect: Dialect, base_url: &str, nid_filter: &str) -> (r: Request)
    ensures
        r.method == Method::Get,
        r.url@ == components_url(dialect, base_url@),
        query_texts(r.query@) == seq![("nid"@, nid_filter@), ("nidonly"@, "true"@)],
        r.payload is Empty,
{
    let mut url = service_root(dialect, base_url);
    url.append("/State/Components");
    let mut query: Vec<(String, String)> = Vec::new();
    query.push(("nid".to_owned(), nid_filter.to_owned()));
    query.push(("nidonly".to_owned(), "true".to_owned()));
    let r = Request { method: Method::Get, url, query, payload: Payload::Empty };
    assert(query_texts(r.query@) =~= seq![("nid"@, nid_filter@), ("nidonly"@, "true"@)]);
    r
}

/// The resources of the services besides the groups.
#[derive(Clone, Copy, Debug, PartialEq, Eq, Structural)]
pub enum Resource {
    Partitions,
    Components,
    ComponentQuery,
    ComponentsByNid,
    NodeMaps,
    EthernetInterfaces,
    Hardware,
    HardwareQuery,
    HardwareByFru,
    Memberships,
    BootParameters,
    PowerStatus,
}

/// The path of a resource below the address of the system. The resources of
/// the state manager lie below its service path; boot parameters and power
/// status belong to services of their own.
pub open spec fn resource_path(dialect: Dialect, resource: Resource) -> Seq<char> {
    match resource {
        Resource::Partitions => service_path(dialect) + "/partitions"@,
        Resource::Components => service_path(dialect) + "/State/Components"@,
        Resource::ComponentQuery => service_path(dialect) + "/State/Components/Query"@,
        Resource::ComponentsByNid => service_path(dialect) + "/State/Components/ByNID"@,
        Resource::NodeMaps => service_path(dialect) + "/Defaults/NodeMaps"@,
        Resource::EthernetInterfaces => service_path(dialect) + "/Inventory/EthernetInterfaces"@,
        Resource::Hardware => service_path(dialect) + "/Inventory/Hardware"@,
        Resource::HardwareQuery => service_path(dialect) + "/Inventory/Hardware/Query"@,
        Resource::HardwareByFru => service_path(dialect) + "/Inventory/HardwareByFRU"@,
        Resource::Memberships => service_path(dialect) + "/memberships"@,
        Resource::BootParameters => "/boot/v1/bootparameters"@,
        Resource::PowerStatus => "/power-control/v1/power-status"@,
    }
}

/// The address of a resource.
pub fn resource_address(dialect: Dialect, base_url: &str, resource: Resource) -> (url: String)
    ensures
        url@ == base_url@ + resource_path(dialect, resource),
{
    match resource {
        Resource::BootParameters => {
            let mut url = base_url.to_owned();
            url.append("/boot/v1/bootparameters");
            url
        },
        Resource::PowerStatus => {
            let mut url = base_url.to_owned();
            url.append("/power-control/v1/power-status");
            url
        },
        _ => {
            let mut url = service_root(dialect, base_url);
            let ghost root = url@;
            match resource {
                Resource::Partitions => url.append("/partitions"),
                Resource::Components => url.append("/State/Components"),
                Resource::ComponentQuery => url.append("/State/Components/Query"),
                Resource::ComponentsByNid => url.append("/State/Components/ByNID"),
                Resource::NodeMaps => url.append("/Defaults/NodeMaps"),
                Resource::EthernetInterfaces => url.append("/Inventory/EthernetInterfaces"),
                Resource::Hardware => url.append("/Inventory/Hardware"),
                Resource::HardwareQuery => url.append("/Inventory/Hardware/Query"),
                Resource::HardwareByFru => url.append("/Inventory/HardwareByFRU"),
                _ => url.append("/memberships"),
            }
            assert(url@ =~= base_url@ + resource_path(dialect, resource));
            url
        },
    }
}

/// The address of the item `id` of a resource.
pub fn item_address(dialect: Dialect, base_url: &str, resource: Resource, id: &str) -> (url:
    String)
    ensures
        url@ == base_url@ + resource_path(dialect, resource) + "/"@ + id@,
{
    let mut url = resource_address(dialect, base_url, resource);
    url.append("/");
    url.append(id);
    url
}

/// The address of what lies below `url` under the name `part`.
pub fn below(url: String, part: &str) -> (r: String)
    ensures
        r@ == url@ + "/"@ + part@,
{
    let mut r = url;
    r.append("/");
    r.append(part);
    r
}

/// Adds the pair of `key` and `value` to a query, where a value is given.
pub fn push_optional(query: &mut Vec<(String, String)>, key: &str, value: Option<&str>)
    ensures
        query_texts(final(query)@) == match value {
            Some(v) => query_texts(old(query)@).push((key@, v@)),
            None => query_texts(old(query)@),
        },
{
    let ghost before = query@;
    match value {
        Some(v) => {
            query.push((key.to_owned(), v.to_owned()));
            assert(query_texts(query@) =~= query_texts(before).push((key@, v@)));
        },
        None => {},
    }
}

/// Whether a status is one of the client or server errors.
pub open spec fn is_failure(status: u16) -> bool {
    400 <= status < 600
}

/// Reads the status of an answer: a client or server error becomes a
/// `BackendError` with the status and the payload, any other status hands
/// the payload on.
pub fn check_status(status: u16, payload: String) -> (r: Result<String, Error>)
    ensures
        match r {
            Ok(p) => !is_failure(status) && p == payload,
            Err(e) => is_failure(status) && e == (Error::BackendError { status, payload }),
        },
{
    if 400 <= status && status < 600 {
        Err(Error::BackendError { status, payload })
    } else {
        Ok(payload)
    }
}

/// A handle on a service that speaks the Ochami dialect: its address and the
/// certificate that its transport trusts.
#[derive(Clone, Debug)]
pub struct Ochami {
    base_url: String,
    root_cert: Vec<u8>,
}

impl Ochami {
    /// A handle on the service at `base_url`.
    pub fn new(base_url: &str, root_cert: &[u8]) -> (backend: Ochami)
        ensures
            backend.base_url_text() == base_url@,
            backend.root_cert_bytes() == root_cert@,
    {
        Ochami { base_url: base_url.to_owned(), root_cert: vstd::slice::slice_to_vec(root_cert) }
    }

    /// The address of the service.
    pub closed spec fn base_url_text(&self) -> Seq<char> {
        self.base_url@
    }

    /// The certificate, in PEM form.
    pub closed spec fn root_cert_bytes(&self) -> Seq<u8> {
        self.root_cert@
    }

    /// The address of the service.
    pub fn base_url(&self) -> (url: &str)
        ensures
            url@ == self.base_url_text(),
    {
        self.base_url.as_str()
    }

    /// The certificate, in PEM form.
    pub fn root_cert(&self) -> (cert: &[u8])
        ensures
            cert@ == self.root_cert_bytes(),
    {
        self.root_cert.as_slice()
    }

    /// The dialect that the service speaks.
    pub fn dialect(&self) -> (d: Dialect)
        ensures
            d == Dialect::Ochami,
    {
        Dialect::Ochami
    }
}

} // verus!
