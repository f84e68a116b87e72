//! The canonical node set: identifiers without duplicates, in ascending
//! code-point order.

use vstd::prelude::*;
use crate::text::{
    lemma_lex_irreflexive, lemma_lex_total, lemma_lex_transitive, lex_lt, rank, texts, Rank,
};

verus! {

/// Each text is below all that follow it.
pub open spec fn strictly_sorted(v: Seq<Seq<char>>) -> bool {
    forall|i: int, j: int| 0 <= i < j < v.len() ==> lex_lt(#[trigger] v[i], #[trigger] v[j])
}

/// A strictly sorted sequence holds no text twice.
pub proof fn lemma_sorted_no_duplicates(v: Seq<Seq<char>>)
    requires
        strictly_sorted(v),
    ensures
        v.no_duplicates(),
{
    assert forall|i: int, j: int| 0 <= i < v.len() && 0 <= j < v.len() && i != j implies v[i]
        != v[j] by {
        if i < j {
            assert(lex_lt(v[i], v[j]));
        } else {
            assert(lex_lt(v[j], v[i]));
        }
        lemma_lex_irreflexive(v[i]);
    }
}

/// Two strictly sorted sequences with the same elements are the same
/// sequence: a set of texts has one canonical form.
pub proof fn lemma_sorted_unique(a: Seq<Seq<char>>, b: Seq<Seq<char>>)
    requires
        strictly_sorted(a),
        strictly_sorted(b),
        a.to_set() == b.to_set(),
    ensures
        a == b,
    decreases a.len(),
{
    if a.len() == 0 {
        if b.len() > 0 {
            assert(b.contains(b[0]));
            assert(b.to_set().contains(b[0]));
            assert(a.contains(b[0]));
        }
        assert(a =~= b);
    } else if b.len() == 0 {
        assert(a.contains(a[0]));
        assert(a.to_set().contains(a[0]));
        assert(b.contains(a[0]));
    } else {
        lemma_sorted_heads(a, b);
        lemma_sorted_heads(b, a);
        if a[0] != b[0] {
            lemma_lex_total(a[0], b[0]);
            if lex_lt(a[0], b[0]) {
                lemma_lex_transitive(a[0], b[0], a[0]);
            } else {
                lemma_lex_transitive(b[0], a[0], b[0]);
            }
            lemma_lex_irreflexive(a[0]);
            lemma_lex_irreflexive(b[0]);
        }
        let a1 = a.drop_first();
        let b1 = b.drop_first();
        assert(strictly_sorted(a1)) by {
            assert forall|i: int, j: int| 0 <= i < j < a1.len() implies lex_lt(
                #[trigger] a1[i],
                #[trigger] a1[j],
            ) by {
                assert(lex_lt(a[i + 1], a[j + 1]));
            }
        }
        assert(strictly_sorted(b1)) by {
            assert forall|i: int, j: int| 0 <= i < j < b1.len() implies lex_lt(
                #[trigger] b1[i],
                #[trigger] b1[j],
            ) by {
                assert(lex_lt(b[i + 1], b[j + 1]));
            }
        }
        lemma_tail_set(a);
        lemma_tail_set(b);
        lemma_sorted_unique(a1, b1);
        assert(a =~= seq![a[0]] + a1);
        assert(b =~= seq![b[0]] + b1);
    }
}

/// The head of a strictly sorted sequence is not above any element of a
/// sequence with the same elements.
proof fn lemma_sorted_heads(a: Seq<Seq<char>>, b: Seq<Seq<char>>)
    requires
        strictly_sorted(a),
        a.len() > 0,
        b.len() > 0,
        a.to_set() == b.to_set(),
    ensures
        a[0] == b[0] || lex_lt(a[0], b[0]),
{
    assert(b.contains(b[0]));
    assert(b.to_set().contains(b[0]));
    assert(a.contains(b[0]));
    let k = choose|k: int| 0 <= k < a.len() && a[k] == b[0];
    if k > 0 {
        assert(lex_lt(a[0], a[k]));
    }
}

/// Without its head, a strictly sorted sequence holds all its elements but
/// the head.
proof fn lemma_tail_set(a: Seq<Seq<char>>)
    requires
        strictly_sorted(a),
        a.len() > 0,
    ensures
        a.drop_first().to_set() == a.to_set().remove(a[0]),
{
    let t = a.drop_first();
    assert forall|x: Seq<char>| t.to_set().contains(x) <==> a.to_set().remove(a[0]).contains(
        x,
    ) by {
        if t.contains(x) {
            let k = choose|k: int| 0 <= k < t.len() && t[k] == x;
            assert(a[k + 1] == x);
            assert(a.contains(x));
            assert(lex_lt(a[0], a[k + 1]));
            lemma_lex_irreflexive(a[0]);
        }
        if a.contains(x) && x != a[0] {
            let k = choose|k: int| 0 <= k < a.len() && a[k] == x;
            assert(t[k - 1] == x);
            assert(t.contains(x));
        }
    }
    assert(t.to_set() =~= a.to_set().remove(a[0]));
}

/// Puts `item` at its place in a strictly sorted vector, unless it is there.
fn insert_sorted(v: &mut Vec<String>, item: String)
    requires
        strictly_sorted(texts(old(v)@)),
    ensures
        strictly_sorted(texts(final(v)@)),
        texts(final(v)@).to_set() == texts(old(v)@).to_set().insert(item@),
{
    let ghost before = texts(v@);
    let mut i: usize = 0;
    let mut found = false;
    while i < v.len()
        invariant_except_break
            !found,
        invariant
            v@ == old(v)@,
            before == texts(v@),
            i <= v.len(),
            forall|k: int| 0 <= k < i ==> lex_lt(#[trigger] before[k], item@),
        ensures
            v@ == old(v)@,
            before == texts(v@),
            i <= v.len(),
            forall|k: int| 0 <= k < i ==> lex_lt(#[trigger] before[k], item@),
            found ==> i < v.len() && before[i as int] == item@,
            !found ==> (i == v.len() || lex_lt(item@, before[i as int])),
        decreases v.len() - i,
    {
        let r = rank(v[i].as_str(), item.as_str());
        assert(before[i as int] == v@[i as int]@);
        match r {
            Rank::Below => {
                i += 1;
            },
            Rank::Same => {
                found = true;
                break ;
            },
            Rank::Above => {
                proof {
                    lemma_lex_total(before[i as int], item@);
                }
                break ;
            },
        }
    }
    if found {
        proof {
            assert(before.contains(item@));
            assert(before.to_set().insert(item@) =~= before.to_set());
        }
    } else {
        v.insert(i, item);
        proof {
            let after = texts(v@);
            assert(after =~= before.insert(i as int, item@));
            assert forall|p: int, q: int| 0 <= p < q < after.len() implies lex_lt(
                #[trigger] after[p],
                #[trigger] after[q],
            ) by {
                if q < i {
                    assert(lex_lt(before[p], before[q]));
                } else if q == i {
                    assert(lex_lt(before[p], item@));
                } else if p < i {
                    assert(lex_lt(before[p], before[q - 1]));
                } else if p == i {
                    if q - 1 > i {
                        assert(lex_lt(before[i as int], before[q - 1]));
                        lemma_lex_transitive(item@, before[i as int], before[q - 1]);
                    }
                } else {
                    assert(lex_lt(before[p - 1], before[q - 1]));
                }
            }
            assert forall|x: Seq<char>| after.to_set().contains(x) <==> before.to_set().insert(
                item@,
            ).contains(x) by {
                if after.contains(x) {
                    let k = choose|k: int| 0 <= k < after.len() && after[k] == x;
                    if k < i {
                        assert(before[k] == x);
                        assert(before.contains(x));
                    } else if k > i {
                        assert(before[k - 1] == x);
                        assert(before.contains(x));
                    }
                }
                if before.contains(x) {
                    let k = choose|k: int| 0 <= k < before.len() && before[k] == x;
                    if k < i {
                        assert(after[k] == x);
                    } else {
                        assert(after[k + 1] == x);
                    }
                    assert(after.contains(x));
                }
                if x == item@ {
                    assert(after[i as int] == x);
                    assert(after.contains(x));
                }
            }
            assert(after.to_set() =~= before.to_set().insert(item@));
        }
    }
}

/// A set of node identifiers in canonical form: no identifier twice, in
/// ascending code-point order.
#[derive(Debug)]
pub struct NodeSet {
    ids: Vec<String>,
}

impl View for NodeSet {
    type V = Seq<Seq<char>>;

    closed spec fn view(&self) -> Seq<Seq<char>> {
        texts(self.ids@)
    }
}

impl Clone for NodeSet {
    fn clone(&self) -> (c: NodeSet)
        ensures
            c@ == self@,
    {
        proof {
            use_type_invariant(self);
        }
        let ids = self.ids.clone();
        assert(texts(ids@) =~= texts(self.ids@));
        NodeSet { ids }
    }
}

impl NodeSet {
    #[verifier::type_invariant]
    spec fn canonical(&self) -> bool {
        strictly_sorted(texts(self.ids@))
    }

    /// The set without elements.
    pub fn empty() -> (s: NodeSet)
        ensures
            s@ == Seq::<Seq<char>>::empty(),
    {
        let s = NodeSet { ids: Vec::new() };
        assert(s@ =~= Seq::<Seq<char>>::empty());
        s
    }

    /// The canonical form of `items`: the same identifiers, each once, sorted.
    pub fn from_vec(items: &Vec<String>) -> (s: NodeSet)
        ensures
            strictly_sorted(s@),
            s@.to_set() == texts(items@).to_set(),
    {
        let mut v: Vec<String> = Vec::new();
        let ghost all = texts(items@);
        assert(texts(v@).to_set() =~= all.take(0).to_set());
        for i in 0..items.len()
            invariant
                all == texts(items@),
                strictly_sorted(texts(v@)),
                texts(v@).to_set() == all.take(i as int).to_set(),
        {
            let item = items[i].clone();
            insert_sorted(&mut v, item);
            proof {
                assert(all.take(i + 1) =~= all.take(i as int).push(all[i as int]));
                lemma_push_set(all.take(i as int), all[i as int]);
            }
        }
        assert(all.take(items.len() as int) =~= all);
        NodeSet { ids: v }
    }

    /// The number of identifiers.
    pub fn len(&self) -> (n: usize)
        ensures
            n == self@.len(),
    {
        self.ids.len()
    }

    /// Whether the set has no identifier.
    pub fn is_empty(&self) -> (b: bool)
        ensures
            b == (self@.len() == 0),
    {
        self.ids.len() == 0
    }

    /// Whether `id` is in the set.
    pub fn contains(&self, id: &str) -> (b: bool)
        ensures
            b == self@.contains(id@),
    {
        contains_text(&self.ids, id)
    }

    /// The identifiers in ascending order, none twice.
    pub fn to_vec(&self) -> (v: Vec<String>)
        ensures
            texts(v@) == self@,
            strictly_sorted(self@),
            self@.no_duplicates(),
    {
        proof {
            use_type_invariant(self);
            lemma_sorted_no_duplicates(self@);
        }
        let v = self.ids.clone();
        assert(texts(v@) =~= texts(self.ids@));
        v
    }
    /// The identifiers of this set and of `other`.
    pub fn union(&self, other: &NodeSet) -> (u: NodeSet)
        ensures
            strictly_sorted(u@),
            u@.to_set() == self@.to_set().union(other@.to_set()),
    {
        let all = followed_by(&self.ids, &other.ids);
        proof {
            lemma_append_set(texts(self.ids@), texts(other.ids@));
        }
        NodeSet::from_vec(&all)
    }

    /// The identifiers of this set that are not in `other`.
    pub fn difference(&self, other: &NodeSet) -> (d: NodeSet)
        ensures
            strictly_sorted(d@),
            d@.to_set() == self@.to_set().difference(other@.to_set()),
    {
        let kept = without(&self.ids, &other.ids);
        NodeSet::from_vec(&kept)
    }
}

/// Pushing onto a sequence adds one element to its set.
pub proof fn lemma_push_set(s: Seq<Seq<char>>, x: Seq<char>)
    ensures
        s.push(x).to_set() == s.to_set().insert(x),
{
    let p = s.push(x);
    assert forall|y: Seq<char>| p.to_set().contains(y) <==> s.to_set().insert(x).contains(y) by {
        if p.contains(y) {
            let k = choose|k: int| 0 <= k < p.len() && p[k] == y;
            if k < s.len() {
                assert(s[k] == y);
                assert(s.contains(y));
            }
        }
        if s.contains(y) {
            let k = choose|k: int| 0 <= k < s.len() && s[k] == y;
            assert(p[k] == y);
            assert(p.contains(y));
        }
        if y == x {
            assert(p[s.len() as int] == y);
            assert(p.contains(y));
        }
    }
    assert(p.to_set() =~= s.to_set().insert(x));
}

/// Whether one of `items` has the text of `id`.
pub fn contains_text(items: &Vec<String>, id: &str) -> (b: bool)
    ensures
        b == texts(items@).contains(id@),
{
    let ghost all = texts(items@);
    for i in 0..items.len()
        invariant
            all == texts(items@),
            forall|k: int| 0 <= k < i ==> all[k] != id@,
    {
        proof {
            assert(all[i as int] == items@[i as int]@);
            lemma_lex_irreflexive(id@);
        }
        if let Rank::Same = rank(items[i].as_str(), id) {
            return true;
        }
    }
    false
}

/// The set of a concatenation is the union of the sets.
pub proof fn lemma_append_set(a: Seq<Seq<char>>, b: Seq<Seq<char>>)
    ensures
        (a + b).to_set() == a.to_set().union(b.to_set()),
{
    let c = a + b;
    assert forall|x: Seq<char>| c.to_set().contains(x) <==> a.to_set().union(
        b.to_set(),
    ).contains(x) by {
        if c.contains(x) {
            let k = choose|k: int| 0 <= k < c.len() && c[k] == x;
            if k < a.len() {
                assert(a[k] == x);
                assert(a.contains(x));
            } else {
                assert(b[k - a.len()] == x);
                assert(b.contains(x));
            }
        }
        if a.contains(x) {
            let k = choose|k: int| 0 <= k < a.len() && a[k] == x;
            assert(c[k] == x);
            assert(c.contains(x));
        }
        if b.contains(x) {
            let k = choose|k: int| 0 <= k < b.len() && b[k] == x;
            assert(c[a.len() + k] == x);
            assert(c.contains(x));
        }
    }
    assert(c.to_set() =~= a.to_set().union(b.to_set()));
}

/// The strings of `a`, then those of `b`.
pub fn followed_by(a: &Vec<String>, b: &Vec<String>) -> (c: Vec<String>)
    ensures
        texts(c@) == texts(a@) + texts(b@),
{
    let mut c: Vec<String> = Vec::new();
    for i in 0..a.len()
        invariant
            c.len() == i,
            forall|k: int| 0 <= k < i ==> (#[trigger] c@[k])@ == a@[k]@,
    {
        c.push(a[i].clone());
    }
    for i in 0..b.len()
        invariant
            c.len() == a.len() + i,
            forall|k: int| 0 <= k < a.len() ==> (#[trigger] c@[k])@ == a@[k]@,
            forall|k: int| 0 <= k < i ==> (#[trigger] c@[a.len() + k])@ == b@[k]@,
    {
        c.push(b[i].clone());
    }
    proof {
        let want = texts(a@) + texts(b@);
        assert forall|j: int| 0 <= j < want.len() implies texts(c@)[j] == want[j] by {
            if j >= a.len() {
                assert(c@[a.len() + (j - a.len())]@ == b@[j - a.len()]@);
            }
        }
        assert(texts(c@) =~= want);
    }
    c
}

/// The texts of `items` that are not among `excluded`, in their order.
pub open spec fn kept_of(items: Seq<Seq<char>>, excluded: Seq<Seq<char>>) -> Seq<Seq<char>>
    decreases items.len(),
{
    if items.len() == 0 {
        Seq::<Seq<char>>::empty()
    } else if excluded.contains(items.last()) {
        kept_of(items.drop_last(), excluded)
    } else {
        kept_of(items.drop_last(), excluded).push(items.last())
    }
}

/// The strings of `items` whose text is not among `excluded`, in their order.
pub fn without(items: &Vec<String>, excluded: &Vec<String>) -> (kept: Vec<String>)
    ensures
        texts(kept@) == kept_of(texts(items@), texts(excluded@)),
        texts(kept@).to_set() == texts(items@).to_set().difference(texts(excluded@).to_set()),
{
    let mut kept: Vec<String> = Vec::new();
    let ghost all = texts(items@);
    let ghost out = texts(excluded@).to_set();
    assert(texts(kept@).to_set() =~= all.take(0).to_set().difference(out));
    assert(texts(kept@) =~= kept_of(all.take(0), texts(excluded@)));
    for i in 0..items.len()
        invariant
            all == texts(items@),
            out == texts(excluded@).to_set(),
            texts(kept@) == kept_of(all.take(i as int), texts(excluded@)),
            texts(kept@).to_set() == all.take(i as int).to_set().difference(out),
    {
        proof {
            assert(all.take(i + 1).drop_last() =~= all.take(i as int));
            assert(all.take(i + 1).last() == all[i as int]);
            assert(all.take(i + 1) =~= all.take(i as int).push(all[i as int]));
            lemma_push_set(all.take(i as int), all[i as int]);
            assert(all[i as int] == items@[i as int]@);
        }
        if !contains_text(excluded, items[i].as_str()) {
            let ghost before = texts(kept@);
            kept.push(items[i].clone());
            proof {
                assert(texts(kept@) =~= before.push(all[i as int]));
                lemma_push_set(before, all[i as int]);
                assert(texts(kept@).to_set() =~= all.take(i + 1).to_set().difference(out));
            }
        } else {
            assert(texts(kept@).to_set() =~= all.take(i + 1).to_set().difference(out));
        }
    }
    assert(all.take(items.len() as int) =~= all);
    kept
}

} // verus!
