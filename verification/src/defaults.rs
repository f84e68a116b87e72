//! The default node map of the service.

use vstd::prelude::*;

verus! {

/// The default entry of one node.
#[derive(Clone, Debug)]
pub struct NodeMap {
    pub id: String,
    pub nid: u32,
    pub role: Option<String>,
    pub sub_role: Option<String>,
}

/// The default node map.
#[derive(Clone, Debug)]
pub struct NodeMapArray {
    pub node_maps: Option<Vec<NodeMap>>,
}

} // verus!
