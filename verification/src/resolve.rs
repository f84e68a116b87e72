//! Resolving selectors into the canonical node set of a request.

use vstd::prelude::*;
use crate::error::Error;
use crate::fetch::{
    contribution, is_first_abort, lemma_merged_is_union, merge_outcomes, merged, none_aborted,
    FetchOutcome,
};
use crate::node_set::{
    contains_text, lemma_sorted_no_duplicates, lemma_sorted_unique, strictly_sorted, NodeSet,
};
use crate::text::{split_trimmed, texts, trimmed_fields};
use crate::membership::passes;
use crate::xname::{is_xname, validate_xname_format};

verus! {

/// What a request names its nodes by: group labels, a comma-separated list
/// of identifiers, or both.
#[derive(Clone, Debug)]
pub struct Selectors {
    pub groups: Vec<String>,
    pub explicit: Option<String>,
}

/// The identifiers of an explicit list: its comma-separated fields, trimmed.
pub open spec fn explicit_ids(list: Seq<char>) -> Seq<Seq<char>> {
    trimmed_fields(list, ',')
}

/// What the selectors resolve to, given the merged members of their groups.
pub enum Resolution {
    /// These nodes.
    Nodes(Set<Seq<char>>),
    /// Neither a group nor an explicit list was given.
    NoSelector,
    /// An identifier of the explicit list is not well formed.
    Malformed,
    /// An identifier of the explicit list is not a member of the groups.
    NotMember,
}

/// The rules of resolution. Without groups the explicit list stands as it
/// is given: each of its trimmed tokens counts as an identifier, whatever its
/// shape, the empty token too, and none is refused. The grammar is asked of
/// an explicit list only where it stands beside groups. With groups the
/// result is the union of their members; an explicit list beside them must
/// hold well-formed identifiers only, each a member of that union (an empty
/// union constrains nothing).
pub open spec fn resolution(
    groups: nat,
    explicit: Option<Seq<char>>,
    members: Seq<Seq<char>>,
) -> Resolution {
    if groups == 0 {
        match explicit {
            None => Resolution::NoSelector,
            Some(list) => Resolution::Nodes(explicit_ids(list).to_set()),
        }
    } else {
        match explicit {
            None => Resolution::Nodes(members.to_set()),
            Some(list) => {
                let ids = explicit_ids(list);
                if exists|i: int| 0 <= i < ids.len() && !is_xname(#[trigger] ids[i]) {
                    Resolution::Malformed
                } else if members.len() > 0 && exists|i: int|
                    0 <= i < ids.len() && !members.contains(#[trigger] ids[i]) {
                    Resolution::NotMember
                } else {
                    Resolution::Nodes(members.to_set())
                }
            },
        }
    }
}

/// `nodes` is the canonical form of what the selectors resolve to.
pub open spec fn resolves_to(
    groups: nat,
    explicit: Option<Seq<char>>,
    members: Seq<Seq<char>>,
    nodes: Seq<Seq<char>>,
) -> bool {
    &&& resolution(groups, explicit, members) matches Resolution::Nodes(set)
    &&& nodes.to_set() == set
    &&& strictly_sorted(nodes)
}

/// Resolution is idempotent: two resolutions of the same selectors against
/// the same group members give the same node set, element for element and in
/// the same order.
pub proof fn lemma_resolve_idempotent(
    groups: nat,
    explicit: Option<Seq<char>>,
    members: Seq<Seq<char>>,
    first: Seq<Seq<char>>,
    second: Seq<Seq<char>>,
)
    requires
        resolves_to(groups, explicit, members, first),
        resolves_to(groups, explicit, members, second),
    ensures
        first == second,
{
    lemma_sorted_unique(first, second);
}

/// Groups resolve to the union of their members, each node once: a node is
/// in the result exactly when one of the fetched groups has it.
pub proof fn lemma_groups_resolve_to_union(
    groups: nat,
    outcomes: Seq<FetchOutcome>,
    nodes: Seq<Seq<char>>,
)
    requires
        groups > 0,
        resolves_to(groups, None, merged(outcomes), nodes),
    ensures
        nodes.no_duplicates(),
        forall|id: Seq<char>|
            nodes.contains(id) <==> exists|i: int|
                0 <= i < outcomes.len() && contribution(#[trigger] outcomes[i]).contains(id),
{
    lemma_sorted_no_duplicates(nodes);
    assert forall|id: Seq<char>|
        nodes.contains(id) <==> exists|i: int|
            0 <= i < outcomes.len() && contribution(#[trigger] outcomes[i]).contains(id) by {
        lemma_merged_is_union(outcomes, id);
        assert(nodes.to_set().contains(id) == merged(outcomes).to_set().contains(id));
    }
}

/// What to do first for a request.
#[derive(Debug)]
pub enum ResolveStep {
    /// Fetch the members of the groups with these labels, then resolve
    /// against them.
    FetchGroups(Vec<String>),
    /// No group is named: these are the nodes.
    Done(NodeSet),
}

/// The first step of a resolution. Fails with `InputError` exactly when
/// neither a group nor an explicit list is given.
pub fn plan(selectors: &Selectors) -> (r: Result<ResolveStep, Error>)
    ensures
        match r {
            Ok(ResolveStep::FetchGroups(labels)) => selectors.groups.len() > 0 && texts(labels@)
                == texts(selectors.groups@),
            Ok(ResolveStep::Done(nodes)) => selectors.groups.len() == 0 && resolves_to(
                0,
                explicit_text(*selectors),
                Seq::<Seq<char>>::empty(),
                nodes@,
            ),
            Err(e) => e is InputError && selectors.groups.len() == 0
                && selectors.explicit is None,
        },
{
    if selectors.groups.len() > 0 {
        let labels = selectors.groups.clone();
        assert(texts(labels@) =~= texts(selectors.groups@));
        Ok(ResolveStep::FetchGroups(labels))
    } else {
        let none: Vec<String> = Vec::new();
        match resolve_with(selectors, &none) {
            Ok(nodes) => Ok(ResolveStep::Done(nodes)),
            Err(e) => Err(e),
        }
    }
}

/// The text of the explicit list, where one is given.
pub open spec fn explicit_text(selectors: Selectors) -> Option<Seq<char>> {
    match selectors.explicit {
        Some(list) => Some(list@),
        None => None,
    }
}

/// The identifier at `i` is the first that is not well formed.
pub open spec fn is_first_malformed(ids: Seq<Seq<char>>, i: int) -> bool {
    &&& 0 <= i < ids.len()
    &&& !is_xname(ids[i])
    &&& forall|k: int| 0 <= k < i ==> is_xname(#[trigger] ids[k])
}

/// The identifier at `i` is the first that is not among `members`.
pub open spec fn is_first_missing(ids: Seq<Seq<char>>, members: Seq<Seq<char>>, i: int) -> bool {
    &&& 0 <= i < ids.len()
    &&& !members.contains(ids[i])
    &&& forall|k: int| 0 <= k < i ==> members.contains(#[trigger] ids[k])
}

/// The message of the failure that `resolve_with` reports, where the
/// resolution fails.
pub open spec fn refusal_text(
    groups: nat,
    explicit: Option<Seq<char>>,
    members: Seq<Seq<char>>,
    text: Seq<char>,
) -> bool {
    match resolution(groups, explicit, members) {
        Resolution::Nodes(_) => true,
        Resolution::NoSelector => text == "no selector provided"@,
        Resolution::Malformed => exists|i: int|
            is_first_malformed(explicit_ids(explicit->0), i) && text == "identifier '"@
                + #[trigger] explicit_ids(explicit->0)[i] + "' is not well formed"@,
        Resolution::NotMember => exists|i: int|
            is_first_missing(explicit_ids(explicit->0), members, i) && text == "node '"@
                + #[trigger] explicit_ids(explicit->0)[i] + "' is not a member of the groups"@,
    }
}

/// The place of the first identifier that is not well formed, if there is one.
fn first_malformed(ids: &Vec<String>) -> (r: Option<usize>)
    ensures
        match r {
            Some(i) => i < ids.len() && is_first_malformed(texts(ids@), i as int),
            None => forall|k: int| 0 <= k < ids.len() ==> is_xname(#[trigger] texts(ids@)[k]),
        },
{
    for i in 0..ids.len()
        invariant
            forall|k: int| 0 <= k < i ==> is_xname(#[trigger] texts(ids@)[k]),
    {
        assert(texts(ids@)[i as int] == ids@[i as int]@);
        if !validate_xname_format(ids[i].as_str()) {
            return Some(i);
        }
    }
    None
}

/// The place of the first identifier that is not among `members`, if there
/// is one.
fn first_missing(ids: &Vec<String>, members: &Vec<String>) -> (r: Option<usize>)
    ensures
        match r {
            Some(i) => i < ids.len() && is_first_missing(texts(ids@), texts(members@), i as int),
            None => forall|k: int|
                0 <= k < ids.len() ==> texts(members@).contains(#[trigger] texts(ids@)[k]),
        },
{
    for i in 0..ids.len()
        invariant
            forall|k: int| 0 <= k < i ==> texts(members@).contains(#[trigger] texts(ids@)[k]),
    {
        assert(texts(ids@)[i as int] == ids@[i as int]@);
        if !contains_text(members, ids[i].as_str()) {
            return Some(i);
        }
    }
    None
}

/// An explicit list without groups is taken as it is given: it resolves, and
/// to its trimmed tokens, whatever their shape.
pub proof fn lemma_explicit_list_stands(list: Seq<char>, members: Seq<Seq<char>>)
    ensures
        resolution(0, Some(list), members) == Resolution::Nodes(explicit_ids(list).to_set()),
{
}

/// Resolves the selectors against `members`, the merged members of their
/// groups. Each failure comes exactly where the rules of `resolution` say.
///
/// An explicit list without groups always resolves, to its trimmed tokens as
/// they are given: the grammar of identifiers is not asked of them, and
/// `members` is not looked at.
pub fn resolve_with(selectors: &Selectors, members: &Vec<String>) -> (r: Result<NodeSet, Error>)
    ensures
        selectors.groups.len() == 0 ==> match selectors.explicit {
            Some(list) => r matches Ok(nodes) && nodes@.to_set() == explicit_ids(list@).to_set(),
            None => r is Err,
        },
        match r {
            Ok(nodes) => resolves_to(
                selectors.groups.len() as nat,
                explicit_text(*selectors),
                texts(members@),
                nodes@,
            ),
            Err(e) => (match resolution(
                selectors.groups.len() as nat,
                explicit_text(*selectors),
                texts(members@),
            ) {
                Resolution::Nodes(_) => false,
                Resolution::NoSelector => e is InputError,
                Resolution::Malformed => e is FormatError,
                Resolution::NotMember => e is MembershipError,
            }) && refusal_text(
                selectors.groups.len() as nat,
                explicit_text(*selectors),
                texts(members@),
                e.text(),
            ),
        },
{
    if selectors.groups.len() == 0 {
        match &selectors.explicit {
            None => Err(Error::InputError("no selector provided".to_owned())),
            Some(list) => {
                let ids = split_trimmed(list.as_str(), ',');
                Ok(NodeSet::from_vec(&ids))
            },
        }
    } else {
        match &selectors.explicit {
            None => Ok(NodeSet::from_vec(members)),
            Some(list) => {
                let ids = split_trimmed(list.as_str(), ',');
                match first_malformed(&ids) {
                    Some(i) => {
                        assert(exists|k: int|
                            0 <= k < explicit_ids(list@).len() && !is_xname(
                                #[trigger] explicit_ids(list@)[k],
                            )) by {
                            assert(!is_xname(explicit_ids(list@)[i as int]));
                        }
                        assert(resolution(
                            selectors.groups.len() as nat,
                            explicit_text(*selectors),
                            texts(members@),
                        ) is Malformed);
                        let mut m = "identifier '".to_owned();
                        m.append(ids[i].as_str());
                        m.append("' is not well formed");
                        assert(m@ == "identifier '"@ + explicit_ids(list@)[i as int]
                            + "' is not well formed"@) by {
                            assert(texts(ids@)[i as int] == ids@[i as int]@);
                        }
                        return Err(Error::FormatError(m));
                    },
                    None => {},
                }
                if members.len() > 0 {
                    match first_missing(&ids, members) {
                        Some(i) => {
                            assert(exists|k: int|
                                0 <= k < explicit_ids(list@).len() && !texts(members@).contains(
                                    #[trigger] explicit_ids(list@)[k],
                                )) by {
                                assert(!texts(members@).contains(explicit_ids(list@)[i as int]));
                            }
                            assert(resolution(
                                selectors.groups.len() as nat,
                                explicit_text(*selectors),
                                texts(members@),
                            ) is NotMember);
                            let mut m = "node '".to_owned();
                            m.append(ids[i].as_str());
                            m.append("' is not a member of the groups");
                            assert(m@ == "node '"@ + explicit_ids(list@)[i as int]
                                + "' is not a member of the groups"@) by {
                                assert(texts(ids@)[i as int] == ids@[i as int]@);
                            }
                            return Err(Error::MembershipError(m));
                        },
                        None => {},
                    }
                }
                Ok(NodeSet::from_vec(members))
            },
        }
    }
}

/// Whether every one of `found` passes against the merged members of the
/// groups: it is a well-formed identifier and, unless the groups have no
/// member at all, one of their members.
pub open spec fn all_within(found: Seq<Seq<char>>, members: Seq<Seq<char>>) -> bool {
    forall|i: int| 0 <= i < found.len() ==> passes(#[trigger] found[i], members)
}

/// Combines nodes that another selector found, such as a NID selector, with
/// group labels: the nodes found are the result, as a node set, provided each
/// of them is a well-formed identifier and a member of the groups, whose
/// merged members are `members` (groups without any member constrain
/// nothing). Fails with `FormatError` exactly when one of the nodes found is
/// not well formed, and with `MembershipError` exactly when all are well
/// formed, the groups have members, and one of the nodes is not among them.
pub fn within_groups(found: &Vec<String>, members: &Vec<String>) -> (r: Result<NodeSet, Error>)
    ensures
        match r {
            Ok(nodes) => {
                &&& strictly_sorted(nodes@)
                &&& nodes@.to_set() == texts(found@).to_set()
                &&& all_within(texts(found@), texts(members@))
            },
            Err(Error::FormatError(m)) => exists|i: int|
                is_first_malformed(texts(found@), i) && m@ == "identifier '"@
                    + #[trigger] texts(found@)[i] + "' is not well formed"@,
            Err(Error::MembershipError(m)) => {
                &&& forall|k: int| 0 <= k < found.len() ==> is_xname(#[trigger] texts(found@)[k])
                &&& members.len() > 0
                &&& exists|i: int|
                    is_first_missing(texts(found@), texts(members@), i) && m@ == "node '"@
                        + #[trigger] texts(found@)[i] + "' is not a member of the groups"@
            },
            Err(_) => false,
        },
{
    match first_malformed(found) {
        Some(i) => {
            let mut m = "identifier '".to_owned();
            m.append(found[i].as_str());
            m.append("' is not well formed");
            assert(m@ == "identifier '"@ + texts(found@)[i as int] + "' is not well formed"@) by {
                assert(texts(found@)[i as int] == found@[i as int]@);
            }
            return Err(Error::FormatError(m));
        },
        None => {},
    }
    if members.len() > 0 {
        match first_missing(found, members) {
            Some(i) => {
                let mut m = "node '".to_owned();
                m.append(found[i].as_str());
                m.append("' is not a member of the groups");
                assert(m@ == "node '"@ + texts(found@)[i as int]
                    + "' is not a member of the groups"@) by {
                    assert(texts(found@)[i as int] == found@[i as int]@);
                }
                return Err(Error::MembershipError(m));
            },
            None => {},
        }
    }
    Ok(NodeSet::from_vec(found))
}

/// Resolves the selectors, given the outcomes of the fetches of their
/// groups in the order of completion. A group whose fetch failed adds
/// nothing; an aborted fetch fails the resolution with `NetworkError`.
/// Without groups the outcomes are not looked at.
pub fn resolve(selectors: &Selectors, outcomes: &Vec<FetchOutcome>) -> (r: Result<NodeSet, Error>)
    ensures
        match r {
            Ok(nodes) => (selectors.groups.len() == 0 || none_aborted(outcomes@)) && resolves_to(
                selectors.groups.len() as nat,
                explicit_text(*selectors),
                merged(outcomes@),
                nodes@,
            ),
            Err(e) => if selectors.groups.len() > 0 && !none_aborted(outcomes@) {
                e is NetworkError && exists|i: int|
                    is_first_abort(outcomes@, i) && e.text() == (
                    #[trigger] outcomes@[i])->Aborted_0@
            } else {
                (match resolution(
                    selectors.groups.len() as nat,
                    explicit_text(*selectors),
                    merged(outcomes@),
                ) {
                    Resolution::Nodes(_) => false,
                    Resolution::NoSelector => e is InputError,
                    Resolution::Malformed => e is FormatError,
                    Resolution::NotMember => e is MembershipError,
                }) && refusal_text(
                    selectors.groups.len() as nat,
                    explicit_text(*selectors),
                    merged(outcomes@),
                    e.text(),
                )
            },
        },
{
    if selectors.groups.len() == 0 {
        let none: Vec<String> = Vec::new();
        resolve_with(selectors, &none)
    } else {
        match merge_outcomes(outcomes) {
            Ok(m) => resolve_with(selectors, &m.members),
            Err(e) => Err(e),
        }
    }
}

} // verus!
