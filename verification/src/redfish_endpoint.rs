//! The Redfish endpoints through which the inventory is discovered.

use vstd::prelude::*;

verus! {

/// How the last discovery through an endpoint went.
#[derive(Clone, Debug)]
pub struct DiscoveryInfo {
    pub last_attempt: Option<String>,
    pub last_status: Option<String>,
    pub redfish_version: Option<String>,
}

/// A Redfish endpoint: a controller that the service talks to.
#[derive(Clone, Debug)]
pub struct RedfishEndpoint {
    pub id: String,
    pub kind: Option<String>,
    pub name: Option<String>,
    pub hostname: Option<String>,
    pub domain: Option<String>,
    pub fqdn: Option<String>,
    pub enabled: Option<bool>,
    pub uuid: Option<String>,
    pub user: Option<String>,
    pub password: Option<String>,
    pub use_ssdp: Option<bool>,
    pub mac_required: Option<bool>,
    pub mac_addr: Option<String>,
    pub ip_address: Option<String>,
    pub rediscover_on_update: Option<bool>,
    pub template_id: Option<String>,
    pub discovery_info: Option<DiscoveryInfo>,
}

/// A list of Redfish endpoints.
#[derive(Clone, Debug)]
pub struct RedfishEndpointArray {
    pub redfish_endpoints: Option<Vec<RedfishEndpoint>>,
}

} // verus!
