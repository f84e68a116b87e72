//! Partitions of the inventory.

use vstd::prelude::*;

verus! {

/// One member of a partition or group, as the body of a request to add it.
#[derive(Clone, Debug)]
pub struct Member {
    pub id: Option<String>,
}

/// The members of a partition.
#[derive(Clone, Debug)]
pub struct Members {
    pub ids: Option<Vec<String>>,
}

/// A named part of the inventory.
#[derive(Clone, Debug)]
pub struct Partition {
    pub name: String,
    pub description: Option<String>,
    pub tags: Option<Vec<String>>,
    pub members: Option<Members>,
}

} // verus!
