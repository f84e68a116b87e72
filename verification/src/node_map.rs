//! The node map: which NID and role a node gets when it is discovered.

use vstd::prelude::*;

verus! {

/// The entry of one node in the node map. A request that names the node in
/// its address sends no identifier.
#[derive(Clone, Debug)]
pub struct NodeMap {
    pub id: Option<String>,
    pub nid: usize,
    pub role: Option<String>,
    pub sub_role: Option<String>,
}

/// The body of a request that holds a node map entry.
#[derive(Clone, Debug)]
pub struct NodeMapArray {
    pub node_maps: Option<NodeMap>,
}

} // verus!
