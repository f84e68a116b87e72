//! Kernel parameters: a line of words, each a key or a key and a value with
//! `=` between them, read as a map and written back as a line.

use vstd::prelude::*;
use crate::text::{chars_of, is_whitespace, same_text, texts, whitespace};

verus! {

/// The words of `s` up to its end: those that are complete, and the one that
/// a further character would go on with.
pub open spec fn words_open(s: Seq<char>) -> (Seq<Seq<char>>, Seq<char>)
    decreases s.len(),
{
    if s.len() == 0 {
        (Seq::<Seq<char>>::empty(), Seq::<char>::empty())
    } else {
        let (done, word) = words_open(s.drop_last());
        if is_whitespace(s.last()) {
            if word.len() > 0 {
                (done.push(word), Seq::<char>::empty())
            } else {
                (done, word)
            }
        } else {
            (done, word.push(s.last()))
        }
    }
}

/// The words of `s`: its longest runs of characters that are no whitespace.
pub open spec fn words(s: Seq<char>) -> Seq<Seq<char>> {
    let (done, word) = words_open(s);
    if word.len() > 0 {
        done.push(word)
    } else {
        done
    }
}

/// The place of the first `c` in `s`, or the length of `s` if it has none.
pub open spec fn position(s: Seq<char>, c: char) -> int
    decreases s.len(),
{
    if s.len() == 0 || s[0] == c {
        0
    } else {
        1 + position(s.drop_first(), c)
    }
}

/// The key of a word: what stands before its first `=`.
pub open spec fn key_of(word: Seq<char>) -> Seq<char> {
    word.take(position(word, '='))
}

/// The value of a word: what stands behind its first `=`, or nothing.
pub open spec fn value_of(word: Seq<char>) -> Seq<char> {
    if position(word, '=') < word.len() {
        word.skip(position(word, '=') + 1)
    } else {
        Seq::<char>::empty()
    }
}

/// The place of the entry with the key `key`, or the length of `m` if it has
/// none.
pub open spec fn key_index(m: Seq<(Seq<char>, Seq<char>)>, key: Seq<char>) -> int
    decreases m.len(),
{
    if m.len() == 0 || m[0].0 == key {
        0
    } else {
        1 + key_index(m.drop_first(), key)
    }
}

/// `m` with `value` under `key`: in place of the value that the key had, or
/// as a new entry at the end.
pub open spec fn put(m: Seq<(Seq<char>, Seq<char>)>, key: Seq<char>, value: Seq<char>) -> Seq<
    (Seq<char>, Seq<char>),
> {
    if key_index(m, key) < m.len() {
        m.update(key_index(m, key), (key, value))
    } else {
        m.push((key, value))
    }
}

/// The map that a list of words stands for: each key once, at the place of
/// its first word, with the value of its last word.
pub open spec fn params_of(list: Seq<Seq<char>>) -> Seq<(Seq<char>, Seq<char>)>
    decreases list.len(),
{
    if list.len() == 0 {
        Seq::<(Seq<char>, Seq<char>)>::empty()
    } else {
        put(params_of(list.drop_last()), key_of(list.last()), value_of(list.last()))
    }
}

/// The map that a line of kernel parameters stands for.
pub open spec fn params_in(line: Seq<char>) -> Seq<(Seq<char>, Seq<char>)> {
    params_of(words(line))
}

/// The word of an entry: the key alone where the value is empty, else key,
/// `=` and value.
pub open spec fn word_of(entry: (Seq<char>, Seq<char>)) -> Seq<char> {
    if entry.1.len() == 0 {
        entry.0
    } else {
        entry.0 + seq!['='] + entry.1
    }
}

/// The line of the entries: their words with a space between them.
pub open spec fn line_of(m: Seq<(Seq<char>, Seq<char>)>) -> Seq<char>
    decreases m.len(),
{
    if m.len() == 0 {
        Seq::<char>::empty()
    } else if m.len() == 1 {
        word_of(m[0])
    } else {
        line_of(m.drop_last()) + seq![' '] + word_of(m.last())
    }
}

/// The entries as pairs of texts.
pub open spec fn pair_texts(v: Seq<(String, String)>) -> Seq<(Seq<char>, Seq<char>)> {
    Seq::new(v.len(), |i: int| (v[i].0@, v[i].1@))
}

proof fn lemma_key_index_bounds(m: Seq<(Seq<char>, Seq<char>)>, key: Seq<char>)
    ensures
        0 <= key_index(m, key) <= m.len(),
        key_index(m, key) < m.len() ==> m[key_index(m, key)].0 == key,
        forall|i: int| 0 <= i < key_index(m, key) ==> (#[trigger] m[i]).0 != key,
    decreases m.len(),
{
    if m.len() > 0 && m[0].0 != key {
        let t = m.drop_first();
        lemma_key_index_bounds(t, key);
        assert forall|i: int| 0 <= i < key_index(m, key) implies (#[trigger] m[i]).0 != key by {
            if i > 0 {
                assert(t[i - 1] == m[i]);
            }
        }
    }
}

/// The index of a key is the first place where it stands.
proof fn lemma_key_index_is(m: Seq<(Seq<char>, Seq<char>)>, key: Seq<char>, k: int)
    requires
        0 <= k <= m.len(),
        forall|i: int| 0 <= i < k ==> (#[trigger] m[i]).0 != key,
        k < m.len() ==> m[k].0 == key,
    ensures
        key_index(m, key) == k,
{
    lemma_key_index_bounds(m, key);
    let j = key_index(m, key);
    if j < k {
        assert(m[j].0 != key);
    } else if j > k {
        assert(m[k].0 != key);
    }
}

/// No key stands in two entries.
pub open spec fn distinct_keys(m: Seq<(Seq<char>, Seq<char>)>) -> bool {
    forall|i: int, j: int|
        0 <= i < m.len() && 0 <= j < m.len() && i != j ==> (#[trigger] m[i]).0 != (
        #[trigger] m[j]).0
}

/// Putting a value under a key keeps the keys distinct.
pub proof fn lemma_put_distinct(m: Seq<(Seq<char>, Seq<char>)>, key: Seq<char>, value: Seq<char>)
    requires
        distinct_keys(m),
    ensures
        distinct_keys(put(m, key, value)),
{
    lemma_key_index_bounds(m, key);
    let k = key_index(m, key);
    let after = put(m, key, value);
    assert forall|i: int, j: int|
        0 <= i < after.len() && 0 <= j < after.len() && i != j implies (#[trigger] after[i]).0 != (
    #[trigger] after[j]).0 by {
        if k < m.len() {
            assert(after[i].0 == m[i].0);
            assert(after[j].0 == m[j].0);
        } else {
            if i < m.len() && j < m.len() {
                assert(m[i].0 != m[j].0);
            } else if i < m.len() {
                assert(m[i].0 != key);
            } else {
                assert(m[j].0 != key);
            }
        }
    }
}

/// The map of a list of words holds each key once.
pub proof fn lemma_params_distinct(list: Seq<Seq<char>>)
    ensures
        distinct_keys(params_of(list)),
    decreases list.len(),
{
    if list.len() > 0 {
        lemma_params_distinct(list.drop_last());
        lemma_put_distinct(
            params_of(list.drop_last()),
            key_of(list.last()),
            value_of(list.last()),
        );
    }
}

/// Splits a line into its words.
pub fn split_words(line: &str) -> (list: Vec<String>)
    ensures
        texts(list@) == words(line@),
{
    let v = chars_of(line);
    let n = v.len();
    let mut list: Vec<String> = Vec::new();
    let mut start: usize = 0;
    proof {
        assert(v@.take(0) =~= Seq::<char>::empty());
        assert(texts(list@) =~= Seq::<Seq<char>>::empty());
        assert(v@.subrange(0, 0) =~= Seq::<char>::empty());
    }
    for i in 0..n
        invariant
            n == v.len(),
            v@ == line@,
            start <= i,
            words_open(v@.take(i as int)) == (
                texts(list@),
                v@.subrange(start as int, i as int),
            ),
    {
        proof {
            assert(v@.take(i + 1).drop_last() =~= v@.take(i as int));
            assert(v@.take(i + 1).last() == v@[i as int]);
        }
        if whitespace(v[i]) {
            if start < i {
                let word = line.substring_char(start, i).to_owned();
                let ghost before = list@;
                list.push(word);
                proof {
                    assert(texts(list@) =~= texts(before).push(word@));
                }
            }
            start = i + 1;
            proof {
                assert(v@.subrange(start as int, i + 1) =~= Seq::<char>::empty());
                assert(v@.subrange(i as int, i as int) =~= Seq::<char>::empty());
            }
        } else {
            proof {
                assert(v@.subrange(start as int, i as int).push(v@[i as int]) =~= v@.subrange(
                    start as int,
                    i + 1,
                ));
            }
        }
    }
    proof {
        assert(v@.take(n as int) =~= v@);
    }
    if start < n {
        let word = line.substring_char(start, n).to_owned();
        let ghost before = list@;
        list.push(word);
        proof {
            assert(texts(list@) =~= texts(before).push(word@));
        }
    }
    list
}

/// Splits a word into its key and its value.
pub fn split_word(word: &str) -> (r: (String, String))
    ensures
        r.0@ == key_of(word@),
        r.1@ == value_of(word@),
{
    let v = chars_of(word);
    let n = v.len();
    let mut i: usize = 0;
    proof {
        assert(v@.skip(0) =~= v@);
    }
    while i < n && v[i] != '='
        invariant
            n == v.len(),
            i <= n,
            position(v@, '=') == i + position(v@.skip(i as int), '='),
        decreases n - i,
    {
        proof {
            assert(v@.skip(i as int)[0] == v@[i as int]);
            assert(v@.skip(i as int).drop_first() =~= v@.skip(i + 1));
        }
        i += 1;
    }
    proof {
        if i < n {
            assert(v@.skip(i as int)[0] == v@[i as int]);
        }
        assert(position(v@, '=') == i);
        assert(v@.take(i as int) =~= v@.subrange(0, i as int));
    }
    let key = word.substring_char(0, i).to_owned();
    let value = if i < n {
        proof {
            assert(v@.skip(i + 1) =~= v@.subrange(i + 1, n as int));
        }
        word.substring_char(i + 1, n).to_owned()
    } else {
        String::new()
    };
    (key, value)
}

/// The place of the entry with the key `key`, or the number of entries if
/// there is none.
pub fn find_key(m: &Vec<(String, String)>, key: &str) -> (k: usize)
    ensures
        k == key_index(pair_texts(m@), key@),
        k <= m.len(),
{
    let ghost all = pair_texts(m@);
    let mut i: usize = 0;
    while i < m.len()
        invariant
            all == pair_texts(m@),
            i <= m.len(),
            forall|j: int| 0 <= j < i ==> (#[trigger] all[j]).0 != key@,
        decreases m.len() - i,
    {
        assert(all[i as int].0 == m@[i as int].0@);
        if same_text(m[i].0.as_str(), key) {
            proof {
                lemma_key_index_is(all, key@, i as int);
            }
            return i;
        }
        i += 1;
    }
    proof {
        lemma_key_index_is(all, key@, i as int);
    }
    i
}

/// Puts `value` under `key`: in place of the value that the key had, or as a
/// new entry at the end.
pub fn put_param(m: &mut Vec<(String, String)>, key: String, value: String)
    ensures
        pair_texts(final(m)@) == put(pair_texts(old(m)@), key@, value@),
{
    let k = find_key(m, key.as_str());
    let ghost before = pair_texts(m@);
    if k < m.len() {
        m.set(k, (key, value));
        assert(pair_texts(m@) =~= before.update(k as int, (key@, value@)));
    } else {
        m.push((key, value));
        assert(pair_texts(m@) =~= before.push((key@, value@)));
    }
}

/// Reads a line of kernel parameters as a map.
pub fn convert_kernel_params_to_map(kernel_params: &str) -> (map: Vec<(String, String)>)
    ensures
        pair_texts(map@) == params_in(kernel_params@),
{
    let list = split_words(kernel_params);
    let mut map: Vec<(String, String)> = Vec::new();
    let ghost all = texts(list@);
    proof {
        assert(all.take(0) =~= Seq::<Seq<char>>::empty());
        assert(pair_texts(map@) =~= Seq::<(Seq<char>, Seq<char>)>::empty());
    }
    for i in 0..list.len()
        invariant
            all == texts(list@),
            pair_texts(map@) == params_of(all.take(i as int)),
    {
        proof {
            assert(all.take(i + 1).drop_last() =~= all.take(i as int));
            assert(all.take(i + 1).last() == list@[i as int]@);
        }
        let (key, value) = split_word(list[i].as_str());
        put_param(&mut map, key, value);
    }
    proof {
        assert(all.take(list.len() as int) =~= all);
    }
    map
}

/// Writes the entries as a line of kernel parameters.
pub fn render(m: &Vec<(String, String)>) -> (line: String)
    ensures
        line@ == line_of(pair_texts(m@)),
{
    let mut line = String::new();
    let ghost all = pair_texts(m@);
    proof {
        reveal_strlit(" ");
        reveal_strlit("=");
        assert(all.take(0) =~= Seq::<(Seq<char>, Seq<char>)>::empty());
    }
    for i in 0..m.len()
        invariant
            all == pair_texts(m@),
            " "@ == seq![' '],
            "="@ == seq!['='],
            line@ == line_of(all.take(i as int)),
    {
        proof {
            assert(all.take(i + 1).drop_last() =~= all.take(i as int));
            assert(all.take(i + 1).last() == (m@[i as int].0@, m@[i as int].1@));
        }
        if i > 0 {
            line.append(" ");
        }
        line.append(m[i].0.as_str());
        if m[i].1.as_str().unicode_len() > 0 {
            line.append("=");
            line.append(m[i].1.as_str());
        }
        proof {
            let e = (m@[i as int].0@, m@[i as int].1@);
            if i == 0 {
                assert(all.take(1)[0] == e);
                assert(line@ =~= word_of(e));
            } else {
                assert(line@ =~= line_of(all.take(i as int)) + seq![' '] + word_of(e));
            }
        }
    }
    proof {
        assert(all.take(m.len() as int) =~= all);
    }
    line
}

} // verus!
