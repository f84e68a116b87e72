//! Fetching the members of several groups at once: how many fetches may run
//! at a time, and how their outcomes merge into one member list.
//!
//! The fetches themselves are the caller's: `GroupFetcher` says which label
//! to fetch next and when to wait, and takes each outcome as it completes.

use vstd::prelude::*;
use crate::error::Error;
use crate::group::{member_texts, Group};
use crate::node_set::{followed_by, strictly_sorted, NodeSet};
use crate::text::texts;

verus! {

/// The number of fetches that run at a time unless the caller says otherwise.
pub const DEFAULT_CONCURRENCY: usize = 10;

/// How the fetch of one group ended.
#[derive(Debug)]
pub enum FetchOutcome {
    /// The group was fetched.
    Fetched(Group),
    /// The fetch failed: the group is skipped, with this warning.
    Failed(String),
    /// The task that ran the fetch was cancelled or panicked: the whole
    /// operation fails.
    Aborted(String),
}

/// The outcome of a fetch of one group that the service answered with a
/// listing: the first group listed, or a failure where the listing is empty
/// or the fetch failed.
pub fn outcome_of(answer: Result<Vec<Group>, Error>) -> (o: FetchOutcome)
    ensures
        match answer {
            Ok(groups) => if groups.len() > 0 {
                o == FetchOutcome::Fetched(groups[0])
            } else {
                o matches FetchOutcome::Failed(m) && m@ == "group not found"@
            },
            Err(e) => o matches FetchOutcome::Failed(m) && m@ == e.text(),
        },
{
    match answer {
        Ok(groups) => {
            if groups.len() > 0 {
                let mut groups = groups;
                FetchOutcome::Fetched(groups.remove(0))
            } else {
                FetchOutcome::Failed("group not found".to_owned())
            }
        },
        Err(e) => FetchOutcome::Failed(e.message()),
    }
}

/// What one outcome adds to the merged members.
pub open spec fn contribution(o: FetchOutcome) -> Seq<Seq<char>> {
    match o {
        FetchOutcome::Fetched(g) => member_texts(g),
        _ => Seq::<Seq<char>>::empty(),
    }
}

/// The members of the fetched groups, in the order of completion.
pub open spec fn merged(outcomes: Seq<FetchOutcome>) -> Seq<Seq<char>>
    decreases outcomes.len(),
{
    if outcomes.len() == 0 {
        Seq::<Seq<char>>::empty()
    } else {
        merged(outcomes.drop_last()) + contribution(outcomes.last())
    }
}

/// The warnings of the failed fetches, in the order of completion.
pub open spec fn warnings_of(outcomes: Seq<FetchOutcome>) -> Seq<Seq<char>>
    decreases outcomes.len(),
{
    if outcomes.len() == 0 {
        Seq::<Seq<char>>::empty()
    } else {
        let before = warnings_of(outcomes.drop_last());
        match outcomes.last() {
            FetchOutcome::Failed(w) => before.push(w@),
            _ => before,
        }
    }
}

/// The outcome at `i` is the first one that aborts.
pub open spec fn is_first_abort(outcomes: Seq<FetchOutcome>, i: int) -> bool {
    &&& 0 <= i < outcomes.len()
    &&& outcomes[i] is Aborted
    &&& forall|k: int| 0 <= k < i ==> !(#[trigger] outcomes[k] is Aborted)
}

/// No outcome aborts.
pub open spec fn none_aborted(outcomes: Seq<FetchOutcome>) -> bool {
    forall|k: int| 0 <= k < outcomes.len() ==> !(#[trigger] outcomes[k] is Aborted)
}

/// An identifier is among the merged members exactly when one of the fetched
/// groups has it: the merge is the union of the groups' members.
pub proof fn lemma_merged_is_union(outcomes: Seq<FetchOutcome>, id: Seq<char>)
    ensures
        merged(outcomes).contains(id) <==> exists|i: int|
            0 <= i < outcomes.len() && contribution(#[trigger] outcomes[i]).contains(id),
    decreases outcomes.len(),
{
    if outcomes.len() > 0 {
        let front = outcomes.drop_last();
        let last = outcomes.last();
        lemma_merged_is_union(front, id);
        let m = merged(front);
        let c = contribution(last);
        if merged(outcomes).contains(id) {
            let k = choose|k: int| 0 <= k < (m + c).len() && (m + c)[k] == id;
            if k < m.len() {
                assert(m[k] == id);
                assert(m.contains(id));
                let i = choose|i: int|
                    0 <= i < front.len() && contribution(#[trigger] front[i]).contains(id);
                assert(outcomes[i] == front[i]);
            } else {
                assert(c[k - m.len()] == id);
                assert(c.contains(id));
                assert(contribution(outcomes[outcomes.len() - 1]).contains(id));
            }
        }
        if exists|i: int|
            0 <= i < outcomes.len() && contribution(#[trigger] outcomes[i]).contains(id) {
            let i = choose|i: int|
                0 <= i < outcomes.len() && contribution(#[trigger] outcomes[i]).contains(id);
            if i < front.len() {
                assert(front[i] == outcomes[i]);
                assert(m.contains(id));
                let k = choose|k: int| 0 <= k < m.len() && m[k] == id;
                assert((m + c)[k] == id);
            } else {
                let k = choose|k: int| 0 <= k < c.len() && c[k] == id;
                assert((m + c)[m.len() + k] == id);
            }
            assert(merged(outcomes).contains(id));
        }
    }
}

/// The set of merged members does not depend on the order in which the
/// fetches complete: two runs with the same outcomes merge to the same set.
pub proof fn lemma_merge_order_independent(a: Seq<FetchOutcome>, b: Seq<FetchOutcome>)
    requires
        forall|o: FetchOutcome| a.contains(o) <==> b.contains(o),
    ensures
        merged(a).to_set() == merged(b).to_set(),
{
    assert forall|id: Seq<char>| merged(a).contains(id) <==> merged(b).contains(id) by {
        lemma_merged_is_union(a, id);
        lemma_merged_is_union(b, id);
        if merged(a).contains(id) {
            let i = choose|i: int| 0 <= i < a.len() && contribution(#[trigger] a[i]).contains(id);
            assert(a.contains(a[i]));
            let j = choose|j: int| 0 <= j < b.len() && b[j] == a[i];
            assert(contribution(b[j]).contains(id));
        }
        if merged(b).contains(id) {
            let i = choose|i: int| 0 <= i < b.len() && contribution(#[trigger] b[i]).contains(id);
            assert(b.contains(b[i]));
            let j = choose|j: int| 0 <= j < a.len() && a[j] == b[i];
            assert(contribution(a[j]).contains(id));
        }
    }
    assert(merged(a).to_set() =~= merged(b).to_set());
}

/// The result of a merge: the members of the fetched groups, and a warning
/// for each group that was skipped.
#[derive(Debug)]
pub struct Merged {
    pub members: Vec<String>,
    pub warnings: Vec<String>,
}

impl Merged {
    /// The members as a node set.
    pub fn node_set(&self) -> (nodes: NodeSet)
        ensures
            strictly_sorted(nodes@),
            nodes@.to_set() == texts(self.members@).to_set(),
    {
        NodeSet::from_vec(&self.members)
    }
}

/// Adds one outcome that does not abort to a merge.
fn absorb(members: Vec<String>, warnings: Vec<String>, outcome: &FetchOutcome) -> (r: (
    Vec<String>,
    Vec<String>,
))
    requires
        !(outcome is Aborted),
    ensures
        texts(r.0@) == texts(members@) + contribution(*outcome),
        texts(r.1@) == match outcome {
            FetchOutcome::Failed(w) => texts(warnings@).push(w@),
            _ => texts(warnings@),
        },
{
    match outcome {
        FetchOutcome::Fetched(g) => {
            let added = g.get_members();
            (followed_by(&members, &added), warnings)
        },
        FetchOutcome::Failed(w) => {
            let ghost before = warnings@;
            let mut warnings = warnings;
            warnings.push(w.clone());
            proof {
                assert(texts(warnings@) =~= texts(before).push(w@));
                assert(texts(members@) + contribution(*outcome) =~= texts(members@));
            }
            (members, warnings)
        },
        FetchOutcome::Aborted(_) => (members, warnings),
    }
}

/// Merges the outcomes of the fetches, taken in the order of completion.
/// A failed fetch is skipped with its warning; the first aborted one fails
/// the merge with its message.
pub fn merge_outcomes(outcomes: &Vec<FetchOutcome>) -> (r: Result<Merged, Error>)
    ensures
        match r {
            Ok(m) => {
                &&& none_aborted(outcomes@)
                &&& texts(m.members@) == merged(outcomes@)
                &&& texts(m.warnings@) == warnings_of(outcomes@)
            },
            Err(e) => e is NetworkError && exists|i: int|
                is_first_abort(outcomes@, i) && e.text() == (#[trigger] outcomes@[i])->Aborted_0@,
        },
{
    let mut members: Vec<String> = Vec::new();
    let mut warnings: Vec<String> = Vec::new();
    proof {
        assert(outcomes@.take(0) =~= Seq::<FetchOutcome>::empty());
        assert(texts(members@) =~= Seq::<Seq<char>>::empty());
        assert(texts(warnings@) =~= Seq::<Seq<char>>::empty());
    }
    for i in 0..outcomes.len()
        invariant
            none_aborted(outcomes@.take(i as int)),
            texts(members@) == merged(outcomes@.take(i as int)),
            texts(warnings@) == warnings_of(outcomes@.take(i as int)),
    {
        proof {
            assert(outcomes@.take(i + 1).drop_last() =~= outcomes@.take(i as int));
            assert(outcomes@.take(i + 1).last() == outcomes@[i as int]);
        }
        if let FetchOutcome::Aborted(m) = &outcomes[i] {
            proof {
                assert forall|k: int| 0 <= k < i implies !(#[trigger] outcomes@[k] is Aborted) by {
                    assert(outcomes@.take(i as int)[k] == outcomes@[k]);
                }
                assert(is_first_abort(outcomes@, i as int));
            }
            return Err(Error::NetworkError(m.clone()));
        }
        let (m, w) = absorb(members, warnings, &outcomes[i]);
        members = m;
        warnings = w;
        proof {
            assert forall|k: int| 0 <= k < i + 1 implies !(#[trigger] outcomes@.take(i + 1)[k]
                is Aborted) by {
                if k < i {
                    assert(outcomes@.take(i as int)[k] == outcomes@.take(i + 1)[k]);
                }
            }
        }
    }
    proof {
        assert(outcomes@.take(outcomes.len() as int) =~= outcomes@);
    }
    Ok(Merged { members, warnings })
}

/// What the caller of a `GroupFetcher` does next.
#[derive(Debug)]
pub enum FetchStep {
    /// Start the fetch of the group with this label.
    Spawn(String),
    /// Wait for one of the running fetches and hand in its outcome.
    Await,
    /// Every label has been fetched: take the result.
    Done,
}

/// The fetch of the members of several groups, a bounded number at a time.
pub struct GroupFetcher {
    labels: Vec<String>,
    started: usize,
    in_flight: usize,
    limit: usize,
    members: Vec<String>,
    warnings: Vec<String>,
    history: Ghost<Seq<FetchOutcome>>,
}

impl GroupFetcher {
    #[verifier::type_invariant]
    spec fn well_formed(&self) -> bool {
        &&& self.started <= self.labels.len()
        &&& self.in_flight <= self.started
        &&& self.in_flight <= self.limit
        &&& self.limit >= 1
        &&& self.history@.len() == self.started - self.in_flight
        &&& none_aborted(self.history@)
        &&& texts(self.members@) == merged(self.history@)
        &&& texts(self.warnings@) == warnings_of(self.history@)
    }

    /// The labels to fetch, in the order in which their fetches start.
    pub closed spec fn labels(&self) -> Seq<Seq<char>> {
        texts(self.labels@)
    }

    /// How many fetches have been started.
    pub closed spec fn started(&self) -> nat {
        self.started as nat
    }

    /// How many fetches are running.
    pub closed spec fn in_flight(&self) -> nat {
        self.in_flight as nat
    }

    /// How many fetches may run at a time.
    pub closed spec fn limit(&self) -> nat {
        self.limit as nat
    }

    /// The outcomes handed in so far, in the order of completion.
    pub closed spec fn history(&self) -> Seq<FetchOutcome> {
        self.history@
    }

    /// A fetcher for `labels` that runs ten fetches at a time.
    pub fn new(labels: Vec<String>) -> (f: GroupFetcher)
        ensures
            f.labels() == texts(labels@),
            f.started() == 0,
            f.in_flight() == 0,
            f.limit() == DEFAULT_CONCURRENCY,
            f.history() == Seq::<FetchOutcome>::empty(),
    {
        let members: Vec<String> = Vec::new();
        let warnings: Vec<String> = Vec::new();
        proof {
            assert(texts(members@) =~= Seq::<Seq<char>>::empty());
            assert(texts(warnings@) =~= Seq::<Seq<char>>::empty());
        }
        GroupFetcher {
            labels,
            started: 0,
            in_flight: 0,
            limit: DEFAULT_CONCURRENCY,
            members,
            warnings,
            history: Ghost(Seq::empty()),
        }
    }

    /// A fetcher for `labels` that runs `limit` fetches at a time. A limit
    /// of zero, under which no fetch could ever start, is refused.
    pub fn with_limit(labels: Vec<String>, limit: usize) -> (r: Result<GroupFetcher, Error>)
        ensures
            match r {
                Ok(f) => {
                    &&& limit > 0
                    &&& f.labels() == texts(labels@)
                    &&& f.started() == 0
                    &&& f.in_flight() == 0
                    &&& f.limit() == limit
                    &&& f.history() == Seq::<FetchOutcome>::empty()
                },
                Err(e) => limit == 0 && e is InputError && e.text()
                    == "the concurrency limit must be positive"@,
            },
    {
        if limit == 0 {
            return Err(Error::InputError("the concurrency limit must be positive".to_owned()));
        }
        let members: Vec<String> = Vec::new();
        let warnings: Vec<String> = Vec::new();
        proof {
            assert(texts(members@) =~= Seq::<Seq<char>>::empty());
            assert(texts(warnings@) =~= Seq::<Seq<char>>::empty());
        }
        Ok(
            GroupFetcher {
                labels,
                started: 0,
                in_flight: 0,
                limit,
                members,
                warnings,
                history: Ghost(Seq::empty()),
            },
        )
    }

    /// What to do next: start the next fetch while fewer than the limit run
    /// and a label is left, else wait for a running one, else finish. The
    /// number of running fetches never exceeds the limit.
    pub fn step(self) -> (r: (GroupFetcher, FetchStep))
        ensures
            r.0.labels() == self.labels(),
            r.0.limit() == self.limit(),
            r.0.history() == self.history(),
            r.0.in_flight() <= r.0.limit(),
            r.0.in_flight() <= r.0.started() <= r.0.labels().len(),
            r.0.history().len() == r.0.started() - r.0.in_flight(),
            match r.1 {
                FetchStep::Spawn(label) => {
                    &&& self.started() < self.labels().len()
                    &&& self.in_flight() < self.limit()
                    &&& label@ == self.labels()[self.started() as int]
                    &&& r.0.started() == self.started() + 1
                    &&& r.0.in_flight() == self.in_flight() + 1
                },
                FetchStep::Await => {
                    &&& !(self.started() < self.labels().len() && self.in_flight() < self.limit())
                    &&& self.in_flight() > 0
                    &&& r.0.started() == self.started()
                    &&& r.0.in_flight() == self.in_flight()
                },
                FetchStep::Done => {
                    &&& self.started() == self.labels().len()
                    &&& self.in_flight() == 0
                    &&& r.0.started() == self.started()
                    &&& r.0.in_flight() == 0
                },
            },
    {
        proof {
            use_type_invariant(&self);
        }
        if self.started < self.labels.len() && self.in_flight < self.limit {
            let label = self.labels[self.started].clone();
            let next = GroupFetcher {
                labels: self.labels,
                started: self.started + 1,
                in_flight: self.in_flight + 1,
                limit: self.limit,
                members: self.members,
                warnings: self.warnings,
                history: self.history,
            };
            (next, FetchStep::Spawn(label))
        } else if self.in_flight > 0 {
            (self, FetchStep::Await)
        } else {
            (self, FetchStep::Done)
        }
    }

    /// Takes the outcome of a fetch that completed. A fetched group adds its
    /// members, a failed fetch its warning. An aborted fetch fails the whole
    /// operation with `NetworkError`; an outcome handed in while no fetch is
    /// running is refused with `InputError`.
    pub fn complete(self, outcome: FetchOutcome) -> (r: Result<GroupFetcher, Error>)
        ensures
            match r {
                Ok(f) => {
                    &&& self.in_flight() > 0
                    &&& !(outcome is Aborted)
                    &&& f.labels() == self.labels()
                    &&& f.limit() == self.limit()
                    &&& f.started() == self.started()
                    &&& f.in_flight() == self.in_flight() - 1
                    &&& f.history() == self.history().push(outcome)
                },
                Err(e) => {
                    ||| self.in_flight() == 0 && e is InputError && e.text() == "no fetch is running"@
                    ||| self.in_flight() > 0 && outcome is Aborted && e is NetworkError
                        && e.text() == outcome->Aborted_0@
                },
            },
    {
        proof {
            use_type_invariant(&self);
        }
        if self.in_flight == 0 {
            return Err(Error::InputError("no fetch is running".to_owned()));
        }
        if let FetchOutcome::Aborted(m) = outcome {
            return Err(Error::NetworkError(m));
        }
        let ghost history = self.history@.push(outcome);
        proof {
            assert(history.drop_last() =~= self.history@);
        }
        let (members, warnings) = absorb(self.members, self.warnings, &outcome);
        Ok(
            GroupFetcher {
                labels: self.labels,
                started: self.started,
                in_flight: self.in_flight - 1,
                limit: self.limit,
                members,
                warnings,
                history: Ghost(history),
            },
        )
    }

    /// The merge of the outcomes handed in so far.
    pub fn finish(self) -> (m: Merged)
        ensures
            none_aborted(self.history()),
            texts(m.members@) == merged(self.history()),
            texts(m.warnings@) == warnings_of(self.history()),
    {
        proof {
            use_type_invariant(&self);
        }
        Merged { members: self.members, warnings: self.warnings }
    }
}

} // verus!
