//! Moving nodes from one group to another: the plan of the move, and the
//! calls that carry it out.

use vstd::prelude::*;
use crate::error::Error;
use crate::group::{member_texts, Group};
use crate::node_set::{
    contains_text, followed_by, kept_of, lemma_append_set, strictly_sorted, without, NodeSet,
};
use crate::text::{join_by, joined_by, slice_texts, texts, to_strings};
use crate::xname::{is_xname, validate_xname_format};

verus! {

/// Whether a migration is only computed or also carried out.
#[derive(Clone, Copy, Debug, PartialEq, Eq, Structural)]
pub enum Mode {
    /// Compute the plan and call nothing.
    DryRun,
    /// Compute the plan and issue its calls.
    Apply,
}

/// One call that changes the membership of a group.
#[derive(Debug)]
pub enum Mutation {
    /// Add the node `id` to the group `label`.
    AddMember { label: String, id: String },
    /// Remove the node `id` from the group `label`.
    RemoveMember { label: String, id: String },
}

/// The intended result of a migration: the members of the target and of the
/// parent group after the move, and the calls to issue, in order. The calls
/// are issued one after another; one that fails is logged and the next one
/// is issued all the same, so the plan tells what was intended, not what the
/// groups hold afterwards.
#[derive(Debug)]
pub struct MigrationPlan {
    pub target: NodeSet,
    pub parent: NodeSet,
    pub mode: Mode,
    pub mutations: Vec<Mutation>,
}

/// `m` adds `id` to the group `label`.
pub open spec fn is_add(m: Mutation, label: Seq<char>, id: Seq<char>) -> bool {
    m matches Mutation::AddMember { label: l, id: i } && l@ == label && i@ == id
}

/// `m` removes `id` from the group `label`.
pub open spec fn is_remove(m: Mutation, label: Seq<char>, id: Seq<char>) -> bool {
    m matches Mutation::RemoveMember { label: l, id: i } && l@ == label && i@ == id
}

/// For each of `members` in order: add it to `target`, then remove it from
/// `parent`.
pub open spec fn moves_each(
    mutations: Seq<Mutation>,
    target: Seq<char>,
    parent: Seq<char>,
    members: Seq<Seq<char>>,
) -> bool {
    &&& mutations.len() == 2 * members.len()
    &&& forall|k: int|
        0 <= k < members.len() ==> is_add(mutations[2 * k], target, #[trigger] members[k])
            && is_remove(mutations[2 * k + 1], parent, members[k])
}

/// The plan of a move of `members` into a target group that holds `target`,
/// out of a parent group that holds `parent`.
pub open spec fn is_plan_of(
    plan: MigrationPlan,
    target_label: Seq<char>,
    parent_label: Seq<char>,
    members: Seq<Seq<char>>,
    target: Seq<Seq<char>>,
    parent: Seq<Seq<char>>,
    mode: Mode,
) -> bool {
    &&& strictly_sorted(plan.target@)
    &&& plan.target@.to_set() == target.to_set().union(members.to_set())
    &&& strictly_sorted(plan.parent@)
    &&& plan.parent@.to_set() == parent.to_set().difference(plan.target@.to_set())
    &&& plan.mode == mode
    &&& match mode {
        Mode::DryRun => plan.mutations@.len() == 0,
        Mode::Apply => moves_each(plan.mutations@, target_label, parent_label, members),
    }
}

/// After a planned move no node is in both groups.
pub proof fn lemma_plan_disjoint(
    plan: MigrationPlan,
    target_label: Seq<char>,
    parent_label: Seq<char>,
    members: Seq<Seq<char>>,
    target: Seq<Seq<char>>,
    parent: Seq<Seq<char>>,
    mode: Mode,
)
    requires
        is_plan_of(plan, target_label, parent_label, members, target, parent, mode),
    ensures
        plan.target@.to_set().disjoint(plan.parent@.to_set()),
        forall|id: Seq<char>| #[trigger] members.contains(id) ==> plan.target@.contains(id),
        forall|id: Seq<char>| #[trigger] members.contains(id) ==> !plan.parent@.contains(id),
        forall|id: Seq<char>|
            #[trigger] parent.contains(id) ==> plan.target@.contains(id) || plan.parent@.contains(
                id,
            ),
{
    assert forall|id: Seq<char>| #[trigger] members.contains(id) implies plan.target@.contains(
        id,
    ) && !plan.parent@.contains(id) by {
        assert(members.to_set().contains(id));
        assert(plan.target@.to_set().contains(id));
        if plan.parent@.contains(id) {
            assert(plan.parent@.to_set().contains(id));
        }
    }
    assert forall|id: Seq<char>| #[trigger] parent.contains(id) implies plan.target@.contains(id)
        || plan.parent@.contains(id) by {
        assert(parent.to_set().contains(id));
        if !plan.target@.contains(id) {
            assert(!plan.target@.to_set().contains(id));
            assert(plan.parent@.to_set().contains(id));
        }
    }
}

/// The message of a refused move: the nodes that were to move.
pub open spec fn refusal_text(members: Seq<Seq<char>>) -> Seq<char> {
    "Nodes '"@ + joined_by(members, ", "@) + "' not valid"@
}

fn refusal(members: &Vec<&str>) -> (m: String)
    ensures
        m@ == refusal_text(slice_texts(members@)),
{
    let mut m = "Nodes '".to_owned();
    let listed = join_by(&to_strings(members), ", ");
    m.append(listed.as_str());
    m.append("' not valid");
    m
}

/// The calls of a move: for each member, add it to the target group, then
/// remove it from the parent group.
pub fn moves(target_label: &str, parent_label: &str, members: &Vec<&str>) -> (mutations: Vec<
    Mutation,
>)
    ensures
        moves_each(mutations@, target_label@, parent_label@, slice_texts(members@)),
{
    let mut mutations: Vec<Mutation> = Vec::new();
    let ghost ids = slice_texts(members@);
    for i in 0..members.len()
        invariant
            ids == slice_texts(members@),
            mutations.len() == 2 * i,
            forall|k: int|
                0 <= k < i ==> is_add(mutations@[2 * k], target_label@, #[trigger] ids[k])
                    && is_remove(mutations@[2 * k + 1], parent_label@, ids[k]),
    {
        let ghost before = mutations@;
        mutations.push(
            Mutation::AddMember { label: target_label.to_owned(), id: members[i].to_owned() },
        );
        mutations.push(
            Mutation::RemoveMember { label: parent_label.to_owned(), id: members[i].to_owned() },
        );
        proof {
            assert(ids[i as int] == members@[i as int]@);
            assert forall|k: int| 0 <= k < i + 1 implies is_add(
                mutations@[2 * k],
                target_label@,
                #[trigger] ids[k],
            ) && is_remove(mutations@[2 * k + 1], parent_label@, ids[k]) by {
                if k < i {
                    assert(mutations@[2 * k] == before[2 * k]);
                    assert(mutations@[2 * k + 1] == before[2 * k + 1]);
                }
            }
        }
    }
    mutations
}

/// One call for each of `members` in order: add it to the group `label`.
pub open spec fn adds_each(mutations: Seq<Mutation>, label: Seq<char>, members: Seq<Seq<char>>) -> bool {
    &&& mutations.len() == members.len()
    &&& forall|k: int|
        0 <= k < members.len() ==> is_add(#[trigger] mutations[k], label, members[k])
}

/// Adds `members` to the group `group_label`, which holds `current`. Returns
/// the members of the group after the addition, and the calls to issue: one
/// for each node to add, or none in a dry run.
pub fn add_hsm_members(
    group_label: &str,
    current: &Vec<String>,
    members: Vec<&str>,
    dryrun: bool,
) -> (r: (NodeSet, Vec<Mutation>))
    ensures
        strictly_sorted(r.0@),
        r.0@.to_set() == texts(current@).to_set().union(slice_texts(members@).to_set()),
        if dryrun {
            r.1@.len() == 0
        } else {
            adds_each(r.1@, group_label@, slice_texts(members@))
        },
{
    let added = to_strings(&members);
    let all = followed_by(current, &added);
    proof {
        lemma_append_set(texts(current@), texts(added@));
    }
    let after = NodeSet::from_vec(&all);
    let mut mutations: Vec<Mutation> = Vec::new();
    if !dryrun {
        let ghost ids = slice_texts(members@);
        for i in 0..members.len()
            invariant
                ids == slice_texts(members@),
                mutations.len() == i,
                forall|k: int|
                    0 <= k < i ==> is_add(#[trigger] mutations@[k], group_label@, ids[k]),
        {
            assert(ids[i as int] == members@[i as int]@);
            mutations.push(
                Mutation::AddMember { label: group_label.to_owned(), id: members[i].to_owned() },
            );
        }
    }
    (after, mutations)
}

/// Adds the node `new_member` to `group`. Returns the members of the group
/// after the addition, which are its members with the new one at the end,
/// and the call to issue.
pub fn add_member(group: &Group, new_member: &str) -> (r: (Vec<String>, Mutation))
    ensures
        texts(r.0@) == member_texts(*group).push(new_member@),
        is_add(r.1, group.label@, new_member@),
{
    let call = Mutation::AddMember { label: group.label.clone(), id: new_member.to_owned() };
    let mut members = group.get_members();
    let ghost before = members@;
    members.push(new_member.to_owned());
    assert(texts(members@) =~= texts(before).push(new_member@));
    (members, call)
}

/// The members of a group that holds `current`, once the members to delete
/// have left and the members to add have come: what is left of `current`,
/// in its order, then the members to add.
pub fn update_hsm_group_members(
    current: &Vec<String>,
    group_members_to_delete: &Vec<String>,
    group_members_to_add: &Vec<String>,
) -> (after: Vec<String>)
    ensures
        texts(after@) == kept_of(texts(current@), texts(group_members_to_delete@)) + texts(
            group_members_to_add@,
        ),
{
    let kept = without(current, group_members_to_delete);
    followed_by(&kept, group_members_to_add)
}

/// Whether `id` may move out of a group that holds `parent`: it is a
/// well-formed identifier and a member of the group. An empty group lets no
/// node move.
pub open spec fn may_move(id: Seq<char>, parent: Seq<Seq<char>>) -> bool {
    is_xname(id) && parent.contains(id)
}

/// Whether every one of `ids` may move out of a group that holds `parent`.
pub open spec fn all_may_move(ids: Seq<Seq<char>>, parent: Seq<Seq<char>>) -> bool {
    forall|i: int| 0 <= i < ids.len() ==> may_move(#[trigger] ids[i], parent)
}

/// Whether every one of `members` is a well-formed identifier and a member
/// of the group that holds `parent_members`.
pub fn movable(members: &Vec<&str>, parent_members: &Vec<String>) -> (b: bool)
    ensures
        b == all_may_move(slice_texts(members@), texts(parent_members@)),
{
    let ghost ids = slice_texts(members@);
    for i in 0..members.len()
        invariant
            ids == slice_texts(members@),
            forall|k: int| 0 <= k < i ==> may_move(#[trigger] ids[k], texts(parent_members@)),
    {
        assert(ids[i as int] == members@[i as int]@);
        if !validate_xname_format(members[i]) || !contains_text(parent_members, members[i]) {
            assert(!may_move(ids[i as int], texts(parent_members@)));
            return false;
        }
    }
    true
}

/// Plans the move of `new_target_hsm_members` from the parent group, which
/// holds `parent_members`, into the target group, which holds
/// `target_members`.
///
/// The move is refused with `InputError` unless every node to move is a
/// well-formed identifier and a member of the parent group; from a parent
/// without members no node can move. Otherwise the target gets its members
/// and the moved nodes, and the parent keeps what is not in the new target.
/// In `DryRun` the plan holds no call; in `Apply` it holds the calls of
/// `moves`.
pub fn migrate_hsm_members(
    target_hsm_group_name: &str,
    parent_hsm_group_name: &str,
    new_target_hsm_members: Vec<&str>,
    target_members: &Vec<String>,
    parent_members: &Vec<String>,
    mode: Mode,
) -> (r: Result<MigrationPlan, Error>)
    ensures
        match r {
            Ok(plan) => {
                &&& all_may_move(slice_texts(new_target_hsm_members@), texts(parent_members@))
                &&& is_plan_of(
                    plan,
                    target_hsm_group_name@,
                    parent_hsm_group_name@,
                    slice_texts(new_target_hsm_members@),
                    texts(target_members@),
                    texts(parent_members@),
                    mode,
                )
                &&& plan.target@.to_set().disjoint(plan.parent@.to_set())
            },
            Err(e) => e is InputError && !all_may_move(
                slice_texts(new_target_hsm_members@),
                texts(parent_members@),
            ) && e.text() == refusal_text(slice_texts(new_target_hsm_members@)),
        },
{
    if !movable(&new_target_hsm_members, parent_members) {
        return Err(Error::InputError(refusal(&new_target_hsm_members)));
    }
    let moved = to_strings(&new_target_hsm_members);
    let all = followed_by(target_members, &moved);
    proof {
        lemma_append_set(texts(target_members@), texts(moved@));
    }
    let target = NodeSet::from_vec(&all);
    let parent_now = NodeSet::from_vec(parent_members);
    let parent = parent_now.difference(&target);
    let mutations = match mode {
        Mode::DryRun => Vec::new(),
        Mode::Apply => moves(target_hsm_group_name, parent_hsm_group_name, &new_target_hsm_members),
    };
    Ok(MigrationPlan { target, parent, mode, mutations })
}

} // verus!
