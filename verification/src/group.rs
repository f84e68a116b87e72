//! Groups of nodes, and maps from group labels to members.

use vstd::prelude::*;
use crate::text::{lemma_lex_irreflexive, rank, slice_texts, texts, Rank};

verus! {

/// The members of a group.
#[derive(Clone, Debug)]
pub struct Member {
    pub ids: Option<Vec<String>>,
}

/// A named collection of nodes.
#[derive(Clone, Debug)]
pub struct Group {
    pub label: String,
    pub description: Option<String>,
    pub tags: Option<Vec<String>>,
    pub members: Option<Member>,
    pub exclusive_group: Option<String>,
}

/// The identifiers of the members of `g`; none where the group carries no
/// member list.
pub open spec fn member_texts(g: Group) -> Seq<Seq<char>> {
    match g.members {
        Some(m) => match m.ids {
            Some(ids) => texts(ids@),
            None => Seq::<Seq<char>>::empty(),
        },
        None => Seq::<Seq<char>>::empty(),
    }
}

fn clone_strings(v: &Vec<String>) -> (c: Vec<String>)
    ensures
        texts(c@) == texts(v@),
{
    let mut c: Vec<String> = Vec::new();
    for i in 0..v.len()
        invariant
            c.len() == i,
            forall|k: int| 0 <= k < i ==> (#[trigger] c@[k])@ == v@[k]@,
    {
        c.push(v[i].clone());
    }
    assert(texts(c@) =~= texts(v@));
    c
}

impl Group {
    /// The identifiers of the members, in the order of the group.
    pub fn get_members(&self) -> (ids: Vec<String>)
        ensures
            texts(ids@) == member_texts(*self),
    {
        match &self.members {
            Some(m) => match &m.ids {
                Some(ids) => clone_strings(ids),
                None => {
                    let v: Vec<String> = Vec::new();
                    assert(texts(v@) =~= Seq::<Seq<char>>::empty());
                    v
                },
            },
            None => {
                let v: Vec<String> = Vec::new();
                assert(texts(v@) =~= Seq::<Seq<char>>::empty());
                v
            },
        }
    }
}

/// The labels of the groups, in order.
pub fn group_labels(groups: &Vec<Group>) -> (labels: Vec<String>)
    ensures
        labels.len() == groups.len(),
        forall|i: int| 0 <= i < labels.len() ==> (#[trigger] labels@[i])@ == groups@[i].label@,
{
    let mut labels: Vec<String> = Vec::new();
    for i in 0..groups.len()
        invariant
            labels.len() == i,
            forall|k: int| 0 <= k < i ==> (#[trigger] labels@[k])@ == groups@[k].label@,
    {
        labels.push(groups[i].label.clone());
    }
    labels
}

/// Whether the association list `m` has an entry for `label`.
pub open spec fn has_label(m: Seq<(Seq<char>, Seq<Seq<char>>)>, label: Seq<char>) -> bool {
    exists|i: int| 0 <= i < m.len() && (#[trigger] m[i]).0 == label
}

/// `m` with an entry for `label` at its end, unless it has one.
pub open spec fn put_if_absent(
    m: Seq<(Seq<char>, Seq<Seq<char>>)>,
    label: Seq<char>,
    members: Seq<Seq<char>>,
) -> Seq<(Seq<char>, Seq<Seq<char>>)> {
    if has_label(m, label) {
        m
    } else {
        m.push((label, members))
    }
}

/// No label occurs in two entries.
pub open spec fn distinct_labels(m: Seq<(Seq<char>, Seq<Seq<char>>)>) -> bool {
    forall|i: int, j: int|
        0 <= i < m.len() && 0 <= j < m.len() && i != j ==> (#[trigger] m[i]).0 != (
        #[trigger] m[j]).0
}

/// A map from group labels to member lists. It keeps its entries in the order
/// in which the labels were first put, and holds each label once.
#[derive(Debug)]
pub struct GroupMap {
    entries: Vec<(String, Vec<String>)>,
}

impl View for GroupMap {
    type V = Seq<(Seq<char>, Seq<Seq<char>>)>;

    closed spec fn view(&self) -> Seq<(Seq<char>, Seq<Seq<char>>)> {
        Seq::new(self.entries@.len(), |i: int| (self.entries@[i].0@, texts(self.entries@[i].1@)))
    }
}

impl GroupMap {
    #[verifier::type_invariant]
    spec fn well_formed(&self) -> bool {
        distinct_labels(self@)
    }

    /// The map without entries.
    pub fn new() -> (m: GroupMap)
        ensures
            m@ == Seq::<(Seq<char>, Seq<Seq<char>>)>::empty(),
    {
        let m = GroupMap { entries: Vec::new() };
        assert(m@ =~= Seq::<(Seq<char>, Seq<Seq<char>>)>::empty());
        m
    }

    /// The number of labels.
    pub fn len(&self) -> (n: usize)
        ensures
            n == self@.len(),
    {
        self.entries.len()
    }

    /// Whether the map has an entry for `label`.
    pub fn contains_key(&self, label: &str) -> (b: bool)
        ensures
            b == has_label(self@, label@),
    {
        for i in 0..self.entries.len()
            invariant
                forall|k: int| 0 <= k < i ==> (#[trigger] self@[k]).0 != label@,
        {
            proof {
                lemma_lex_irreflexive(label@);
                assert(self@[i as int].0 == self.entries@[i as int].0@);
            }
            if let Rank::Same = rank(self.entries[i].0.as_str(), label) {
                return true;
            }
        }
        false
    }

    /// The members under `label`, if the map has that label.
    pub fn get(&self, label: &str) -> (r: Option<Vec<String>>)
        ensures
            distinct_labels(self@),
            match r {
                Some(members) => exists|i: int|
                    0 <= i < self@.len() && #[trigger] self@[i] == (label@, texts(members@)),
                None => !has_label(self@, label@),
            },
    {
        proof {
            use_type_invariant(self);
        }
        for i in 0..self.entries.len()
            invariant
                distinct_labels(self@),
                forall|k: int| 0 <= k < i ==> (#[trigger] self@[k]).0 != label@,
        {
            proof {
                lemma_lex_irreflexive(label@);
                assert(self@[i as int].0 == self.entries@[i as int].0@);
            }
            if let Rank::Same = rank(self.entries[i].0.as_str(), label) {
                let members = clone_strings(&self.entries[i].1);
                assert(self@[i as int] == (label@, texts(members@)));
                return Some(members);
            }
        }
        None
    }

    /// The labels, in the order in which they were put.
    pub fn labels(&self) -> (labels: Vec<String>)
        ensures
            labels.len() == self@.len(),
            forall|i: int| 0 <= i < labels.len() ==> (#[trigger] labels@[i])@ == self@[i].0,
    {
        let mut labels: Vec<String> = Vec::new();
        for i in 0..self.entries.len()
            invariant
                labels.len() == i,
                forall|k: int| 0 <= k < i ==> (#[trigger] labels@[k])@ == self@[k].0,
        {
            labels.push(self.entries[i].0.clone());
        }
        labels
    }

    /// Puts `members` under `label`, unless the map has that label already.
    pub fn with_if_absent(self, label: String, members: Vec<String>) -> (m: GroupMap)
        ensures
            m@ == put_if_absent(self@, label@, texts(members@)),
    {
        proof {
            use_type_invariant(&self);
        }
        if self.contains_key(label.as_str()) {
            self
        } else {
            let ghost before = self@;
            let ghost added = (label@, texts(members@));
            let mut entries = self.entries;
            entries.push((label, members));
            proof {
                let after = Seq::new(
                    entries@.len(),
                    |i: int| (entries@[i].0@, texts(entries@[i].1@)),
                );
                assert(after =~= before.push(added));
                assert forall|i: int, j: int|
                    0 <= i < after.len() && 0 <= j < after.len() && i != j implies (
                #[trigger] after[i]).0 != (#[trigger] after[j]).0 by {
                    if i < before.len() && j < before.len() {
                        assert(before[i].0 != before[j].0);
                    } else if i < before.len() {
                        assert(before[i].0 != added.0);
                    } else {
                        assert(before[j].0 != added.0);
                    }
                }
            }
            GroupMap { entries }
        }
    }
}

fn contains_slice(items: &[&str], id: &str) -> (b: bool)
    ensures
        b == slice_texts(items@).contains(id@),
{
    let ghost all = slice_texts(items@);
    for i in 0..items.len()
        invariant
            all == slice_texts(items@),
            forall|k: int| 0 <= k < i ==> all[k] != id@,
    {
        proof {
            assert(all[i as int] == items@[i as int]@);
            lemma_lex_irreflexive(id@);
        }
        if let Rank::Same = rank(items[i], id) {
            return true;
        }
    }
    false
}

/// The entries for the groups whose label is among `names`: for each such
/// label the members of the first group that carries it.
pub open spec fn entries_by_label(names: Seq<Seq<char>>, groups: Seq<Group>) -> Seq<
    (Seq<char>, Seq<Seq<char>>),
>
    decreases groups.len(),
{
    if groups.len() == 0 {
        Seq::<(Seq<char>, Seq<Seq<char>>)>::empty()
    } else {
        let m = entries_by_label(names, groups.drop_last());
        let g = groups.last();
        if names.contains(g.label@) {
            put_if_absent(m, g.label@, member_texts(g))
        } else {
            m
        }
    }
}

/// Whether a member of `g` is among `wanted`.
pub open spec fn has_member_among(g: Group, wanted: Seq<Seq<char>>) -> bool {
    exists|i: int|
        0 <= i < member_texts(g).len() && wanted.contains(#[trigger] member_texts(g)[i])
}

/// The entries for the groups that have a member among `wanted`: for each
/// label of such a group the members of the first one that carries it.
pub open spec fn entries_by_member(wanted: Seq<Seq<char>>, groups: Seq<Group>) -> Seq<
    (Seq<char>, Seq<Seq<char>>),
>
    decreases groups.len(),
{
    if groups.len() == 0 {
        Seq::<(Seq<char>, Seq<Seq<char>>)>::empty()
    } else {
        let m = entries_by_member(wanted, groups.drop_last());
        let g = groups.last();
        if has_member_among(g, wanted) {
            put_if_absent(m, g.label@, member_texts(g))
        } else {
            m
        }
    }
}

/// Keeps the groups whose label is among `hsm_name_vec`, as a map from label
/// to members.
pub fn filter_by_hsm_group_and_convert_to_map(
    hsm_name_vec: Vec<&str>,
    hsm_group_vec: Vec<Group>,
) -> (map: GroupMap)
    ensures
        map@ == entries_by_label(slice_texts(hsm_name_vec@), hsm_group_vec@),
{
    let mut map = GroupMap::new();
    assert(hsm_group_vec@.take(0) =~= Seq::<Group>::empty());
    for i in 0..hsm_group_vec.len()
        invariant
            map@ == entries_by_label(slice_texts(hsm_name_vec@), hsm_group_vec@.take(i as int)),
    {
        proof {
            assert(hsm_group_vec@.take(i + 1).drop_last() =~= hsm_group_vec@.take(i as int));
            assert(hsm_group_vec@.take(i + 1).last() == hsm_group_vec@[i as int]);
        }
        let group = &hsm_group_vec[i];
        if contains_slice(hsm_name_vec.as_slice(), group.label.as_str()) {
            map = map.with_if_absent(group.label.clone(), group.get_members());
        }
    }
    assert(hsm_group_vec@.take(hsm_group_vec.len() as int) =~= hsm_group_vec@);
    map
}

/// Keeps the groups whose label is among `hsm_name_vec`, as a map from label
/// to members.
pub fn filter_and_convert_to_map(hsm_name_vec: Vec<&str>, hsm_group_vec: Vec<Group>) -> (map:
    GroupMap)
    ensures
        map@ == entries_by_label(slice_texts(hsm_name_vec@), hsm_group_vec@),
{
    filter_by_hsm_group_and_convert_to_map(hsm_name_vec, hsm_group_vec)
}

fn any_member_among(members: &Vec<String>, wanted: &[&str]) -> (b: bool)
    ensures
        b == exists|i: int|
            0 <= i < members.len() && slice_texts(wanted@).contains(#[trigger] texts(members@)[i]),
{
    for i in 0..members.len()
        invariant
            forall|k: int|
                0 <= k < i ==> !slice_texts(wanted@).contains(#[trigger] texts(members@)[k]),
    {
        assert(texts(members@)[i as int] == members@[i as int]@);
        if contains_slice(wanted, members[i].as_str()) {
            return true;
        }
    }
    false
}

/// Keeps the groups that have a member among `hsm_group_member_vec`, as a map
/// from label to members.
pub fn filter_by_hsm_group_members_and_convert_to_map(
    hsm_group_member_vec: &[&str],
    hsm_group_vec: Vec<Group>,
) -> (map: GroupMap)
    ensures
        map@ == entries_by_member(slice_texts(hsm_group_member_vec@), hsm_group_vec@),
{
    let mut map = GroupMap::new();
    assert(hsm_group_vec@.take(0) =~= Seq::<Group>::empty());
    for i in 0..hsm_group_vec.len()
        invariant
            map@ == entries_by_member(
                slice_texts(hsm_group_member_vec@),
                hsm_group_vec@.take(i as int),
            ),
    {
        proof {
            assert(hsm_group_vec@.take(i + 1).drop_last() =~= hsm_group_vec@.take(i as int));
            assert(hsm_group_vec@.take(i + 1).last() == hsm_group_vec@[i as int]);
        }
        let group = &hsm_group_vec[i];
        let members = group.get_members();
        if any_member_among(&members, hsm_group_member_vec) {
            map = map.with_if_absent(group.label.clone(), members);
        }
    }
    assert(hsm_group_vec@.take(hsm_group_vec.len() as int) =~= hsm_group_vec@);
    map
}

} // verus!
