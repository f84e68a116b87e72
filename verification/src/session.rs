//! The checks before a configuration session is started on a set of nodes:
//! which nodes a running session holds, and whether the new session would
//! collide with one.

use vstd::prelude::*;
use crate::node_set::{contains_text, followed_by};
use crate::text::{
    chars_of, numeral_value, parse_number, same_text, split_trimmed, texts, trimmed_fields,
};

verus! {

/// What the checks read of a configuration session: its status, the name of
/// its configuration, and the comma-separated nodes that it is limited to.
#[derive(Clone, Debug)]
pub struct SessionInfo {
    pub status: Option<String>,
    pub configuration: Option<String>,
    pub limit: Option<String>,
}

/// A session with this status runs or is about to.
pub open spec fn is_active(status: Seq<char>) -> bool {
    status == "running"@ || status == "pending"@
}

/// The session is active and applies the configuration `configuration`.
pub open spec fn occupies(session: SessionInfo, configuration: Seq<char>) -> bool {
    &&& session.status matches Some(status) && is_active(status@)
    &&& session.configuration matches Some(name) && name@ == configuration
}

/// The nodes that a session is limited to; none where it names no limit.
pub open spec fn limited_to(session: SessionInfo) -> Seq<Seq<char>> {
    match session.limit {
        Some(limit) => trimmed_fields(limit@, ','),
        None => Seq::<Seq<char>>::empty(),
    }
}

/// The nodes of the active sessions that apply `configuration`, in the order
/// of the sessions.
pub open spec fn busy_in(sessions: Seq<SessionInfo>, configuration: Seq<char>) -> Seq<Seq<char>>
    decreases sessions.len(),
{
    if sessions.len() == 0 {
        Seq::<Seq<char>>::empty()
    } else {
        let before = busy_in(sessions.drop_last(), configuration);
        if occupies(sessions.last(), configuration) {
            before + limited_to(sessions.last())
        } else {
            before
        }
    }
}

/// The nodes of the active sessions that apply `configuration`.
pub fn busy_nodes(sessions: &Vec<SessionInfo>, configuration: &str) -> (busy: Vec<String>)
    ensures
        texts(busy@) == busy_in(sessions@, configuration@),
{
    let mut busy: Vec<String> = Vec::new();
    proof {
        assert(sessions@.take(0) =~= Seq::<SessionInfo>::empty());
        assert(texts(busy@) =~= Seq::<Seq<char>>::empty());
    }
    for i in 0..sessions.len()
        invariant
            texts(busy@) == busy_in(sessions@.take(i as int), configuration@),
    {
        proof {
            assert(sessions@.take(i + 1).drop_last() =~= sessions@.take(i as int));
            assert(sessions@.take(i + 1).last() == sessions@[i as int]);
        }
        let session = &sessions[i];
        let active = match &session.status {
            Some(status) => same_text(status.as_str(), "running") || same_text(
                status.as_str(),
                "pending",
            ),
            None => false,
        };
        let applies = match &session.configuration {
            Some(name) => same_text(name.as_str(), configuration),
            None => false,
        };
        if active && applies {
            match &session.limit {
                Some(limit) => {
                    let nodes = split_trimmed(limit.as_str(), ',');
                    busy = followed_by(&busy, &nodes);
                },
                None => {
                    assert(texts(busy@) + limited_to(sessions@[i as int]) =~= texts(busy@));
                },
            }
        }
    }
    proof {
        assert(sessions@.take(sessions.len() as int) =~= sessions@);
    }
    busy
}

/// The node at `i` of `nodes` is the first that is among `busy`.
pub open spec fn is_first_busy(nodes: Seq<Seq<char>>, busy: Seq<Seq<char>>, i: int) -> bool {
    &&& 0 <= i < nodes.len()
    &&& busy.contains(nodes[i])
    &&& forall|k: int| 0 <= k < i ==> !busy.contains(#[trigger] nodes[k])
}

/// The first node of the comma-separated `limit` that a running session
/// holds already, if there is one: with it the new session cannot start.
pub fn first_busy(limit: &str, busy: &Vec<String>) -> (r: Option<String>)
    ensures
        match r {
            Some(node) => exists|i: int|
                is_first_busy(trimmed_fields(limit@, ','), texts(busy@), i) && node@
                    == #[trigger] trimmed_fields(limit@, ',')[i],
            None => forall|k: int|
                0 <= k < trimmed_fields(limit@, ',').len() ==> !texts(busy@).contains(
                    #[trigger] trimmed_fields(limit@, ',')[k],
                ),
        },
{
    let nodes = split_trimmed(limit, ',');
    let ghost all = trimmed_fields(limit@, ',');
    for i in 0..nodes.len()
        invariant
            texts(nodes@) == all,
            all == trimmed_fields(limit@, ','),
            forall|k: int| 0 <= k < i ==> !texts(busy@).contains(#[trigger] all[k]),
    {
        assert(all[i as int] == nodes@[i as int]@);
        if contains_text(busy, nodes[i].as_str()) {
            assert(is_first_busy(all, texts(busy@), i as int));
            return Some(nodes[i].clone());
        }
    }
    None
}

/// Whether a node in this state keeps a session from starting.
pub open spec fn is_blocking(state: Seq<char>) -> bool {
    state == "On"@ || state == "Standby"@
}

/// Whether a node in the state `state` keeps a session from starting.
pub fn blocks_session(state: &str) -> (b: bool)
    ensures
        b == is_blocking(state@),
{
    same_text(state, "On") || same_text(state, "Standby")
}

/// `name` with `-` in place of each `_`.
pub open spec fn hyphenated(name: Seq<char>) -> Seq<char> {
    Seq::new(
        name.len(),
        |i: int|
            if name[i] == '_' {
                '-'
            } else {
                name[i]
            },
    )
}

/// The name of a configuration as a session carries it: with `-` in place of
/// each `_`.
pub fn configuration_name(name: &str) -> (r: String)
    ensures
        r@ == hyphenated(name@),
{
    let v = chars_of(name);
    let mut r = String::new();
    proof {
        reveal_strlit("-");
        assert(r@ =~= hyphenated(v@.take(0)));
    }
    for i in 0..v.len()
        invariant
            v@ == name@,
            "-"@ == seq!['-'],
            r@ == hyphenated(v@.take(i as int)),
    {
        if v[i] == '_' {
            r.append("-");
        } else {
            r.append(name.substring_char(i, i + 1));
        }
        proof {
            assert(r@ =~= hyphenated(v@.take(i + 1)));
        }
    }
    proof {
        assert(v@.take(v.len() as int) =~= v@);
    }
    r
}

/// The name of a session: that of its configuration, `-`, and the time stamp.
pub fn session_name(configuration: &str, stamp: &str) -> (r: String)
    ensures
        r@ == configuration@ + "-"@ + stamp@,
{
    let mut r = configuration.to_owned();
    r.append("-");
    r.append(stamp);
    r
}

/// The verbosity that a session runs with: 3 where none is asked for, the
/// number asked for where it is a numeral up to 255, else 0.
pub open spec fn verbosity_of(asked: Option<Seq<char>>) -> nat {
    match asked {
        None => 3,
        Some(text) => match numeral_value(text) {
            Some(v) => if v <= 255 {
                v
            } else {
                0
            },
            None => 0,
        },
    }
}

/// The verbosity that a session runs with.
pub fn verbosity(asked: Option<&str>) -> (v: u8)
    ensures
        v == verbosity_of(
            match asked {
                Some(text) => Some(text@),
                None => None,
            },
        ),
{
    match asked {
        None => 3,
        Some(text) => match parse_number(text) {
            Some(n) => if n <= 255 {
                n as u8
            } else {
                0
            },
            None => 0,
        },
    }
}

} // verus!
