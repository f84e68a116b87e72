//! Components of the inventory, as the state manager describes them, and the
//! queries that select them.

use vstd::prelude::*;
use crate::text::texts;

verus! {

/// One component of the inventory. Every attribute but the list position is
/// optional: a query may ask the service for a subset of them.
#[derive(Clone, Debug)]
pub struct Component {
    pub id: Option<String>,
    pub kind: Option<String>,
    pub state: Option<String>,
    pub flag: Option<String>,
    pub enabled: Option<bool>,
    pub software_status: Option<String>,
    pub role: Option<String>,
    pub sub_role: Option<String>,
    pub nid: Option<u32>,
    pub subtype: Option<String>,
    pub net_type: Option<String>,
    pub arch: Option<String>,
    pub class: Option<String>,
    pub reservation_disabled: Option<bool>,
    pub locked: Option<bool>,
}

/// A list of components, as sent to and received from the service.
#[derive(Clone, Debug)]
pub struct ComponentArray {
    pub components: Vec<Component>,
    pub force: Option<bool>,
}

/// The body of a component query by identifier and attribute filters.
#[derive(Clone, Debug)]
pub struct ComponentPostQuery {
    pub component_ids: Option<Vec<String>>,
    pub partition: Option<String>,
    pub group: Option<String>,
    pub state_only: Option<bool>,
    pub flag_only: Option<bool>,
    pub role_only: Option<bool>,
    pub nid_only: Option<bool>,
    pub kind: Option<String>,
    pub state: Option<String>,
    pub flag: Option<String>,
    pub enabled: Option<bool>,
    pub software_status: Option<String>,
    pub role: Option<String>,
    pub sub_role: Option<String>,
    pub subtype: Option<String>,
    pub arch: Option<String>,
    pub class: Option<String>,
    pub nid: Option<String>,
    pub nid_start: Option<String>,
    pub nid_end: Option<String>,
}

/// The body of a component query by NID ranges.
#[derive(Clone, Debug)]
pub struct ComponentPostByNidQuery {
    pub nid_ranger: Vec<String>,
    pub partition: Option<String>,
    pub stateonly: Option<bool>,
    pub flagonly: Option<bool>,
    pub roleonly: Option<bool>,
    pub nidonly: Option<bool>,
}

/// The identifiers of the components that have one, in list order.
pub open spec fn ids_of(components: Seq<Component>) -> Seq<Seq<char>>
    decreases components.len(),
{
    if components.len() == 0 {
        Seq::<Seq<char>>::empty()
    } else {
        let rest = ids_of(components.drop_last());
        match components.last().id {
            Some(id) => rest.push(id@),
            None => rest,
        }
    }
}

/// The identifiers of the components that have one, in list order.
pub fn component_ids(components: &Vec<Component>) -> (ids: Vec<String>)
    ensures
        texts(ids@) == ids_of(components@),
{
    let mut ids: Vec<String> = Vec::new();
    assert(components@.take(0) =~= Seq::<Component>::empty());
    assert(texts(ids@) =~= Seq::<Seq<char>>::empty());
    for i in 0..components.len()
        invariant
            texts(ids@) == ids_of(components@.take(i as int)),
    {
        proof {
            assert(components@.take(i + 1).drop_last() =~= components@.take(i as int));
            assert(components@.take(i + 1).last() == components@[i as int]);
        }
        if let Some(id) = &components[i].id {
            let ghost before = ids@;
            ids.push(id.clone());
            assert(texts(ids@) =~= texts(before).push(id@));
        }
    }
    assert(components@.take(components.len() as int) =~= components@);
    ids
}

} // verus!
