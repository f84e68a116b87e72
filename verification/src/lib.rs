//! Group membership for the nodes of a cluster inventory: resolving node
//! selectors into a canonical node set, validating identifiers, merging the
//! membership of several groups, and planning the migration of nodes from one
//! group to another.
//!
//! The library computes and decides; it sends nothing. Where an operation
//! needs the inventory service, the library says which request to send and
//! takes the answer as a value.

pub mod adapter;
pub mod bss;
pub mod component;
pub mod defaults;
pub mod error;
pub mod fetch;
pub mod group;
pub mod inventory;
pub mod kernel_params;
pub mod membership;
pub mod migrate;
pub mod nid;
pub mod node_map;
pub mod node_set;
pub mod partition;
pub mod pattern;
pub mod redfish_endpoint;
pub mod resolve;
pub mod session;
pub mod summary;
pub mod text;
pub mod xname;
