//! Selecting nodes by NID: by regular expressions over the NID labels of the
//! inventory, or by a hostlist that names the NIDs.

use vstd::prelude::*;
use crate::component::{component_ids, ids_of, Component};
use crate::error::Error;
use crate::node_set::{strictly_sorted, NodeSet};
use crate::pattern::{
    compile_pattern, pattern_compiles, pattern_matches, pattern_of, regex_is_match,
};
use crate::text::{
    chars_of, join_commas, join_with, split_trimmed, texts, trimmed_fields, zero_padded,
    zero_padded_string,
};

verus! {

/// What the hostlist parser makes of `input`: the host names it stands for,
/// or nothing where `input` is no hostlist.
pub uninterp spec fn hostlist_expansion(input: Seq<char>) -> Option<Seq<Seq<char>>>;

/// The longest hostlist, in characters, that is handed to the parser.
pub const HOSTLIST_MAX: usize = 65535;

/// `hostlist_parser::parse`: expands a hostlist expression into the host names
/// that it stands for, each once. The outcome depends on the expression
/// alone. The parser enumerates every range, so the memory that it takes grows
/// with the ranges. A failure is handed back as the text of the parser's
/// error.
///
/// The parser writes each number of a range with as many digits as its text
/// has, leading zeros counted, and the formatting that it uses panics on a
/// width above 65535. A number is never longer than the expression, so the
/// bound on the expression leaves out every text on which that can happen.
#[verifier::external_body]
fn expand_hostlist(input: &str) -> (r: Result<Vec<String>, String>)
    requires
        input@.len() <= HOSTLIST_MAX,
    ensures
        match r {
            Ok(hosts) => hostlist_expansion(input@) == Some(texts(hosts@)),
            Err(_) => hostlist_expansion(input@) is None,
        },
{
    hostlist_parser::parse(input).map_err(|e| e.to_string())
}

/// The label of a NID: `nid` and the number, with zeros in front up to six digits.
pub open spec fn nid_label_text(nid: nat) -> Seq<char> {
    seq!['n', 'i', 'd'] + zero_padded(nid, 6)
}

/// The label of a NID: `nid` and the number, with zeros in front up to six digits.
pub fn nid_label(nid: u32) -> (label: String)
    ensures
        label@ == nid_label_text(nid as nat),
{
    proof {
        reveal_strlit("nid");
    }
    let mut label = "nid".to_owned();
    assert(label@ =~= seq!['n', 'i', 'd']);
    let digits = zero_padded_string(nid as u64, 6);
    label.append(digits.as_str());
    label
}

/// Whether one of `patterns` matches `text`.
pub open spec fn any_matches(patterns: Seq<Seq<char>>, text: Seq<char>) -> bool {
    exists|i: int| 0 <= i < patterns.len() && pattern_matches(#[trigger] patterns[i], text)
}

/// Whether the component has a NID whose label one of `patterns` matches.
pub open spec fn component_matches(patterns: Seq<Seq<char>>, c: Component) -> bool {
    c.nid matches Some(n) && any_matches(patterns, nid_label_text(n as nat))
}

/// The identifiers of the components that are marked in `matched` and have
/// an identifier, in list order. A component without a mark counts as unmarked.
pub open spec fn picked_ids(components: Seq<Component>, matched: Seq<bool>) -> Seq<Seq<char>>
    decreases components.len(),
{
    if components.len() == 0 {
        Seq::<Seq<char>>::empty()
    } else {
        let rest = picked_ids(components.drop_last(), matched);
        let i = components.len() - 1;
        match components.last().id {
            Some(id) => if i < matched.len() && matched[i] {
                rest.push(id@)
            } else {
                rest
            },
            None => rest,
        }
    }
}

/// The node set of the components that are marked in `matched`.
pub fn select_matching(components: &Vec<Component>, matched: &Vec<bool>) -> (nodes: NodeSet)
    ensures
        strictly_sorted(nodes@),
        nodes@.to_set() == picked_ids(components@, matched@).to_set(),
{
    let mut ids: Vec<String> = Vec::new();
    assert(components@.take(0) =~= Seq::<Component>::empty());
    assert(texts(ids@) =~= Seq::<Seq<char>>::empty());
    for i in 0..components.len()
        invariant
            texts(ids@) == picked_ids(components@.take(i as int), matched@),
    {
        proof {
            assert(components@.take(i + 1).drop_last() =~= components@.take(i as int));
            assert(components@.take(i + 1).last() == components@[i as int]);
        }
        if i < matched.len() && matched[i] {
            if let Some(id) = &components[i].id {
                let ghost before = ids@;
                ids.push(id.clone());
                assert(texts(ids@) =~= texts(before).push(id@));
            }
        }
    }
    assert(components@.take(components.len() as int) =~= components@);
    NodeSet::from_vec(&ids)
}

/// The regular expressions of a NID selector, compiled.
pub struct NidPatterns {
    compiled: Vec<regex::Regex>,
}

impl View for NidPatterns {
    type V = Seq<Seq<char>>;

    /// The patterns, in the order of the selector.
    closed spec fn view(&self) -> Seq<Seq<char>> {
        Seq::new(self.compiled@.len(), |i: int| pattern_of(self.compiled@[i]))
    }
}

impl NidPatterns {
    /// Compiles the comma-separated patterns of `input`, each trimmed. Fails
    /// with `CompileError` exactly when one of them is no regular expression.
    pub fn compile(input: &str) -> (r: Result<NidPatterns, Error>)
        ensures
            match r {
                Ok(p) => p@ == trimmed_fields(input@, ',') && forall|i: int|
                    0 <= i < p@.len() ==> pattern_compiles(#[trigger] p@[i]),
                Err(e) => e is CompileError && exists|i: int|
                    0 <= i < trimmed_fields(input@, ',').len() && !pattern_compiles(
                        #[trigger] trimmed_fields(input@, ',')[i],
                    ),
            },
    {
        let fields = split_trimmed(input, ',');
        let mut compiled: Vec<regex::Regex> = Vec::new();
        for i in 0..fields.len()
            invariant
                texts(fields@) == trimmed_fields(input@, ','),
                compiled.len() == i,
                forall|k: int|
                    0 <= k < i ==> pattern_of(#[trigger] compiled@[k]) == texts(fields@)[k],
                forall|k: int| 0 <= k < i ==> pattern_compiles(#[trigger] texts(fields@)[k]),
        {
            assert(texts(fields@)[i as int] == fields@[i as int]@);
            match compile_pattern(fields[i].as_str()) {
                Ok(re) => {
                    compiled.push(re);
                },
                Err(e) => {
                    return Err(Error::CompileError(e));
                },
            }
        }
        let p = NidPatterns { compiled };
        assert(p@ =~= trimmed_fields(input@, ','));
        Ok(p)
    }

    /// Whether one of the patterns matches `text`.
    pub fn matches(&self, text: &str) -> (b: bool)
        ensures
            b == any_matches(self@, text@),
    {
        for i in 0..self.compiled.len()
            invariant
                forall|k: int| 0 <= k < i ==> !pattern_matches(#[trigger] self@[k], text@),
        {
            if regex_is_match(&self.compiled[i], text) {
                assert(pattern_matches(self@[i as int], text@));
                return true;
            }
        }
        false
    }

    /// For each component, whether it has a NID whose label one of the
    /// patterns matches.
    pub fn matching(&self, components: &Vec<Component>) -> (matched: Vec<bool>)
        ensures
            matched.len() == components.len(),
            forall|i: int|
                0 <= i < matched.len() ==> #[trigger] matched@[i] == component_matches(
                    self@,
                    components@[i],
                ),
    {
        let mut matched: Vec<bool> = Vec::new();
        for i in 0..components.len()
            invariant
                matched.len() == i,
                forall|k: int|
                    0 <= k < i ==> #[trigger] matched@[k] == component_matches(
                        self@,
                        components@[k],
                    ),
        {
            let m = match components[i].nid {
                Some(n) => {
                    let label = nid_label(n);
                    self.matches(label.as_str())
                },
                None => false,
            };
            matched.push(m);
        }
        matched
    }

    /// The nodes among `components` that have a NID whose label one of the
    /// patterns matches.
    pub fn select(&self, components: &Vec<Component>) -> (nodes: NodeSet)
        ensures
            strictly_sorted(nodes@),
            nodes@.to_set() == picked_ids(
                components@,
                Seq::new(components@.len(), |i: int| component_matches(self@, components@[i])),
            ).to_set(),
    {
        let matched = self.matching(components);
        assert(matched@ =~= Seq::new(
            components@.len(),
            |i: int| component_matches(self@, components@[i]),
        ));
        select_matching(components, &matched)
    }
}

/// `s` without the zeros at its front.
pub open spec fn strip_zeros(s: Seq<char>) -> Seq<char>
    decreases s.len(),
{
    if s.len() > 0 && s[0] == '0' {
        strip_zeros(s.drop_first())
    } else {
        s
    }
}

/// The number part of a NID label, without leading zeros; nothing where the
/// label does not begin with `nid`.
pub open spec fn short_nid_text(label: Seq<char>) -> Option<Seq<char>> {
    if label.len() >= 3 && label[0] == 'n' && label[1] == 'i' && label[2] == 'd' {
        Some(strip_zeros(label.skip(3)))
    } else {
        None
    }
}

/// The number part of a NID label, without leading zeros.
pub fn short_nid(label: &str) -> (r: Option<String>)
    ensures
        match r {
            Some(s) => short_nid_text(label@) == Some(s@),
            None => short_nid_text(label@) is None,
        },
{
    let v = chars_of(label);
    let n = v.len();
    if n < 3 || v[0] != 'n' || v[1] != 'i' || v[2] != 'd' {
        return None;
    }
    let mut i: usize = 3;
    let ghost rest = v@.skip(3);
    assert(rest.skip(0) =~= rest);
    while i < n && v[i] == '0'
        invariant
            n == v.len(),
            3 <= i <= n,
            rest == v@.skip(3),
            strip_zeros(rest) == strip_zeros(rest.skip(i - 3)),
        decreases n - i,
    {
        proof {
            assert(rest.skip(i - 3)[0] == v@[i as int]);
            assert(rest.skip(i - 3).drop_first() =~= rest.skip(i - 3 + 1));
        }
        i += 1;
    }
    proof {
        if i < n {
            assert(rest.skip(i - 3)[0] == v@[i as int]);
        }
        assert(rest.skip(i - 3) =~= v@.subrange(i as int, n as int));
    }
    Some(label.substring_char(i, n).to_owned())
}

/// The short forms of the labels, where every label has one.
pub open spec fn short_nid_texts(labels: Seq<Seq<char>>) -> Option<Seq<Seq<char>>> {
    if forall|i: int| 0 <= i < labels.len() ==> short_nid_text(#[trigger] labels[i]) is Some {
        Some(Seq::new(labels.len(), |i: int| short_nid_text(labels[i])->0))
    } else {
        None
    }
}

/// The label at `i` is the first that does not begin with `nid`.
pub open spec fn is_first_without_prefix(labels: Seq<Seq<char>>, i: int) -> bool {
    &&& 0 <= i < labels.len()
    &&& short_nid_text(labels[i]) is None
    &&& forall|k: int| 0 <= k < i ==> short_nid_text(#[trigger] labels[k]) is Some
}

/// The message for a label that does not begin with `nid`.
pub open spec fn prefix_missing_text(label: Seq<char>) -> Seq<char> {
    "Nid '"@ + label + "' not valid, 'nid' prefix missing"@
}

/// The NID filter of an inventory query: the short forms of the labels,
/// joined by commas. Fails with `InputError` exactly when a label does not
/// begin with `nid`.
pub fn nid_filter(labels: &Vec<String>) -> (r: Result<String, Error>)
    ensures
        match r {
            Ok(s) => short_nid_texts(texts(labels@)) matches Some(short) && s@ == join_with(
                short,
                ',',
            ),
            Err(e) => e is InputError && short_nid_texts(texts(labels@)) is None && exists|i: int|
                is_first_without_prefix(texts(labels@), i) && e.text() == prefix_missing_text(
                    #[trigger] texts(labels@)[i],
                ),
        },
{
    let mut short: Vec<String> = Vec::new();
    for i in 0..labels.len()
        invariant
            short.len() == i,
            forall|k: int|
                0 <= k < i ==> short_nid_text(#[trigger] texts(labels@)[k]) == Some(
                    short@[k]@,
                ),
    {
        assert(texts(labels@)[i as int] == labels@[i as int]@);
        match short_nid(labels[i].as_str()) {
            Some(s) => {
                short.push(s);
            },
            None => {
                let mut m = "Nid '".to_owned();
                m.append(labels[i].as_str());
                m.append("' not valid, 'nid' prefix missing");
                proof {
                    assert forall|k: int| 0 <= k < i implies short_nid_text(
                        #[trigger] texts(labels@)[k],
                    ) is Some by {}
                    assert(is_first_without_prefix(texts(labels@), i as int));
                    assert(m@ == prefix_missing_text(texts(labels@)[i as int]));
                }
                return Err(Error::InputError(m));
            },
        }
    }
    let s = join_commas(&short);
    proof {
        let want = short_nid_texts(texts(labels@))->0;
        assert(texts(short@) =~= want);
    }
    Ok(s)
}

/// What `nid_query` returns for a hostlist that expands to `expansion`.
pub open spec fn nid_query_text(expansion: Option<Seq<Seq<char>>>) -> Option<Seq<char>> {
    match expansion {
        Some(labels) => match short_nid_texts(labels) {
            Some(short) => Some(join_with(short, ',')),
            None => None,
        },
        None => None,
    }
}

/// The NID filter for a hostlist of NID labels, such as `nid0000[01-15]`:
/// the hostlist is expanded, and each label loses `nid` and its leading
/// zeros. Fails with `InputError` where `input` is longer than
/// `HOSTLIST_MAX` characters, is no hostlist, or names a host that does not
/// begin with `nid`.
pub fn nid_query(input: &str) -> (r: Result<String, Error>)
    ensures
        match r {
            Ok(s) => input@.len() <= HOSTLIST_MAX && nid_query_text(hostlist_expansion(input@))
                == Some(s@),
            Err(e) => e is InputError && if input@.len() > HOSTLIST_MAX {
                e.text() == "hostlist too long"@
            } else {
                nid_query_text(hostlist_expansion(input@)) is None && match hostlist_expansion(
                    input@,
                ) {
                    Some(labels) => exists|i: int|
                        is_first_without_prefix(labels, i) && e.text() == prefix_missing_text(
                            #[trigger] labels[i],
                        ),
                    None => exists|reason: Seq<char>|
                        e.text() == "Could not parse list of nodes as a hostlist. Reason:\n"@
                            + reason + "Exit"@,
                }
            },
        },
{
    if input.unicode_len() > HOSTLIST_MAX {
        return Err(Error::InputError("hostlist too long".to_owned()));
    }
    match expand_hostlist(input) {
        Ok(labels) => nid_filter(&labels),
        Err(reason) => {
            let mut m = "Could not parse list of nodes as a hostlist. Reason:\n".to_owned();
            m.append(reason.as_str());
            m.append("Exit");
            assert(m@ == "Could not parse list of nodes as a hostlist. Reason:\n"@ + reason@
                + "Exit"@);
            Err(Error::InputError(m))
        },
    }
}

/// The node set of the components that an inventory query returned.
pub fn nodes_of(components: &Vec<Component>) -> (nodes: NodeSet)
    ensures
        strictly_sorted(nodes@),
        nodes@.to_set() == ids_of(components@).to_set(),
{
    let ids = component_ids(components);
    NodeSet::from_vec(&ids)
}

} // verus!
