//! The check that runs before any operation on a set of nodes: every
//! identifier is well formed and, where a group is given, a member of it.

use vstd::prelude::*;
use crate::node_set::contains_text;
use crate::text::{slice_texts, texts};
use crate::xname::{is_xname, validate_xname_format};

verus! {

/// Whether `id` passes against the members of a group: it is well formed
/// and, unless the member list is empty, among the members. An empty member
/// list constrains nothing.
pub open spec fn passes(id: Seq<char>, members: Seq<Seq<char>>) -> bool {
    is_xname(id) && (members.len() == 0 || members.contains(id))
}

/// Whether every identifier passes against the members of the group, where
/// one is given, and is well formed where none is.
pub open spec fn all_pass(ids: Seq<Seq<char>>, members: Option<Seq<Seq<char>>>) -> bool {
    forall|i: int|
        0 <= i < ids.len() ==> passes(
            #[trigger] ids[i],
            match members {
                Some(m) => m,
                None => Seq::<Seq<char>>::empty(),
            },
        )
}

/// Whether every one of `xnames` is a well-formed identifier and, where
/// `hsm_group_members` is given and not empty, one of those members.
pub fn validate_xnames_format_and_membership_agaisnt_single_hsm(
    xnames: &[&str],
    hsm_group_members: Option<&Vec<String>>,
) -> (valid: bool)
    ensures
        valid == all_pass(
            slice_texts(xnames@),
            match hsm_group_members {
                Some(m) => Some(texts(m@)),
                None => None,
            },
        ),
{
    let ghost ids = slice_texts(xnames@);
    let ghost members = match hsm_group_members {
        Some(m) => texts(m@),
        None => Seq::<Seq<char>>::empty(),
    };
    for i in 0..xnames.len()
        invariant
            ids == slice_texts(xnames@),
            members == match hsm_group_members {
                Some(m) => texts(m@),
                None => Seq::<Seq<char>>::empty(),
            },
            forall|k: int| 0 <= k < i ==> passes(#[trigger] ids[k], members),
    {
        assert(ids[i as int] == xnames@[i as int]@);
        if !validate_xname_format(xnames[i]) {
            assert(!passes(ids[i as int], members));
            return false;
        }
        match hsm_group_members {
            Some(m) => {
                if m.len() > 0 && !contains_text(m, xnames[i]) {
                    assert(!passes(ids[i as int], members));
                    return false;
                }
            },
            None => {},
        }
    }
    true
}

} // verus!
