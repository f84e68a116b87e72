//! Boot parameters of nodes: the kernel, the initial ram disk and the kernel
//! parameters that a node boots with.

use vstd::prelude::*;
use crate::error::Error;
use crate::kernel_params::{
    convert_kernel_params_to_map, find_key, key_index, key_of, line_of, pair_texts, params_in,
    render, split_word, split_words, value_of, words,
};
use crate::text::{
    join_by, joined_by, numeral_value, parse_number, same_text, slice_texts, split, split_at, texts,
    to_strings,
};

verus! {

#[verifier::external_type_specification]
#[verifier::external_body]
pub struct ExJsonValue(serde_json::Value);

/// `serde_json::to_value` of a string: the JSON value that holds the string.
/// It cannot fail for a string.
#[verifier::external_body]
fn json_text(text: &str) -> serde_json::Value {
    serde_json::to_value(text).unwrap()
}

/// Whether the uuid crate reads `text` as a UUID.
pub uninterp spec fn is_uuid(text: Seq<char>) -> bool;

/// `uuid::Uuid::try_parse`: whether `text` is a UUID in one of the forms
/// that the crate reads, which depends on the text alone.
#[verifier::external_body]
fn reads_as_uuid(text: &str) -> (b: bool)
    ensures
        b == is_uuid(text@),
{
    uuid::Uuid::try_parse(text).is_ok()
}

/// What a set of nodes boots with.
#[derive(Clone, Debug)]
pub struct BootParameters {
    pub hosts: Vec<String>,
    pub macs: Option<Vec<String>>,
    pub nids: Option<Vec<u32>>,
    pub params: String,
    pub kernel: String,
    pub initrd: String,
    pub cloud_init: Option<serde_json::Value>,
}

/// Whether `m` has an entry with the key `key`.
pub open spec fn has_key(m: Seq<(Seq<char>, Seq<char>)>, key: Seq<char>) -> bool {
    key_index(m, key) < m.len()
}

/// The value under `key`, where `m` has the key.
pub open spec fn value_at(m: Seq<(Seq<char>, Seq<char>)>, key: Seq<char>) -> Option<Seq<char>> {
    if has_key(m, key) {
        Some(m[key_index(m, key)].1)
    } else {
        None
    }
}

/// `m` with `value` under `key` where it has the key, else `m`.
pub open spec fn set_existing(
    m: Seq<(Seq<char>, Seq<char>)>,
    key: Seq<char>,
    value: Seq<char>,
) -> Seq<(Seq<char>, Seq<char>)> {
    if has_key(m, key) {
        m.update(key_index(m, key), (key, value))
    } else {
        m
    }
}

/// `m` without the entry of `key`.
pub open spec fn without_key(m: Seq<(Seq<char>, Seq<char>)>, key: Seq<char>) -> Seq<
    (Seq<char>, Seq<char>),
> {
    if has_key(m, key) {
        m.remove(key_index(m, key))
    } else {
        m
    }
}

/// The entries of a list of words, one for each word.
pub open spec fn entries_of(list: Seq<Seq<char>>) -> Seq<(Seq<char>, Seq<char>)> {
    Seq::new(list.len(), |i: int| (key_of(list[i]), value_of(list[i])))
}

/// Whether one of the first `n` of `given` changes `m`, each applied in
/// turn: an entry changes the map where the map has its key with another
/// value, which it then takes.
pub open spec fn changes(
    m: Seq<(Seq<char>, Seq<char>)>,
    given: Seq<(Seq<char>, Seq<char>)>,
    n: int,
) -> (Seq<(Seq<char>, Seq<char>)>, bool)
    decreases n,
{
    if n <= 0 {
        (m, false)
    } else {
        let (before, changed) = changes(m, given, n - 1);
        let (key, value) = given[n - 1];
        if has_key(before, key) && before[key_index(before, key)].1 != value {
            (before.update(key_index(before, key), (key, value)), true)
        } else {
            (before, changed)
        }
    }
}

/// What follows the first element of an image path: each further element
/// up to the one named `kernel`, with `/` before it.
pub open spec fn image_tail(parts: Seq<Seq<char>>) -> Seq<char>
    decreases parts.len(),
{
    if parts.len() == 0 || parts[0] == "kernel"@ {
        Seq::<char>::empty()
    } else {
        seq!['/'] + parts[0] + image_tail(parts.drop_first())
    }
}

/// The image that a kernel path names: what stands between the third `/`
/// and the element `kernel`.
pub open spec fn image_of(kernel: Seq<char>) -> Seq<char> {
    let parts = split_at(kernel, '/');
    if parts.len() <= 3 {
        Seq::<char>::empty()
    } else {
        parts[3] + image_tail(parts.skip(4))
    }
}

/// `parts` with `id` in place of each marked part. A part without a mark
/// counts as unmarked.
pub open spec fn with_image(parts: Seq<Seq<char>>, marked: Seq<bool>, id: Seq<char>) -> Seq<
    Seq<char>,
> {
    Seq::new(
        parts.len(),
        |i: int|
            if i < marked.len() && marked[i] {
                id
            } else {
                parts[i]
            },
    )
}

/// For each part, whether it reads as a UUID.
pub open spec fn uuid_marks(parts: Seq<Seq<char>>) -> Seq<bool> {
    Seq::new(parts.len(), |i: int| is_uuid(parts[i]))
}

/// `value` with `id` in place of each of its elements between `/` that
/// reads as a UUID.
pub open spec fn with_image_id(value: Seq<char>, id: Seq<char>) -> Seq<char> {
    joined_by(with_image(split_at(value, '/'), uuid_marks(split_at(value, '/')), id), "/"@)
}

/// Whether an element of `value` between `/` reads as a UUID.
pub open spec fn names_image(value: Seq<char>) -> bool {
    exists|i: int|
        0 <= i < split_at(value, '/').len() && is_uuid(#[trigger] split_at(value, '/')[i])
}

/// Whether an element of `value` between `/` reads as a UUID and is not `id`.
pub open spec fn names_other_image(value: Seq<char>, id: Seq<char>) -> bool {
    exists|i: int|
        0 <= i < split_at(value, '/').len() && is_uuid(#[trigger] split_at(value, '/')[i])
            && split_at(value, '/')[i] != id
}

/// The line with the image `id` in the value of `key`, where the line has
/// the key.
pub open spec fn image_step(line: Seq<char>, key: Seq<char>, id: Seq<char>) -> Seq<char> {
    match value_at(params_in(line), key) {
        Some(v) => line_of(set_existing(params_in(line), key, with_image_id(v, id))),
        None => line,
    }
}

/// The line with the image `id` in the values of `root`, `metal.server` and
/// `nmd_data`, one after the other, and whether that changes the image: not
/// where the line has no `root`.
pub open spec fn image_update(line: Seq<char>, id: Seq<char>) -> Option<(Seq<char>, bool)> {
    match value_at(params_in(line), "root"@) {
        None => None,
        Some(root) => {
            let first = image_step(line, "root"@, id);
            let second = image_step(first, "metal.server"@, id);
            let third = image_step(second, "nmd_data"@, id);
            let changed = names_other_image(root, id) || (value_at(
                params_in(first),
                "metal.server"@,
            ) matches Some(v) && names_image(v)) || (value_at(params_in(second), "nmd_data"@) matches Some(
                v,
            ) && names_image(v));
            Some((third, changed))
        },
    }
}

/// Puts `id` in place of each marked part. Returns the parts, whether a part
/// was marked, and whether a marked part was not `id` already.
pub fn replace_marked(parts: &Vec<String>, marked: &Vec<bool>, id: &str) -> (r: (
    Vec<String>,
    bool,
    bool,
))
    ensures
        texts(r.0@) == with_image(texts(parts@), marked@, id@),
        r.1 == exists|i: int| 0 <= i < parts.len() && i < marked.len() && #[trigger] marked@[i],
        r.2 == exists|i: int|
            0 <= i < parts.len() && i < marked.len() && #[trigger] marked@[i] && parts@[i]@ != id@,
{
    let mut out: Vec<String> = Vec::new();
    let mut any = false;
    let mut other = false;
    for i in 0..parts.len()
        invariant
            out.len() == i,
            forall|k: int|
                0 <= k < i ==> (#[trigger] out@[k])@ == with_image(texts(parts@), marked@, id@)[k],
            any == exists|k: int| 0 <= k < i && k < marked.len() && #[trigger] marked@[k],
            other == exists|k: int|
                0 <= k < i && k < marked.len() && #[trigger] marked@[k] && parts@[k]@ != id@,
    {
        if i < marked.len() && marked[i] {
            if !same_text(parts[i].as_str(), id) {
                other = true;
            }
            any = true;
            out.push(id.to_owned());
        } else {
            out.push(parts[i].clone());
        }
    }
    assert(texts(out@) =~= with_image(texts(parts@), marked@, id@));
    (out, any, other)
}

fn swap_image(value: &str, id: &str) -> (r: (String, bool, bool))
    ensures
        r.0@ == with_image_id(value@, id@),
        r.1 == names_image(value@),
        r.2 == names_other_image(value@, id@),
{
    let parts = split(value, '/');
    let mut marked: Vec<bool> = Vec::new();
    for i in 0..parts.len()
        invariant
            marked.len() == i,
            forall|k: int| 0 <= k < i ==> #[trigger] marked@[k] == is_uuid(parts@[k]@),
    {
        marked.push(reads_as_uuid(parts[i].as_str()));
    }
    let ghost all = split_at(value@, '/');
    proof {
        assert forall|k: int| 0 <= k < marked.len() implies marked@[k] == uuid_marks(all)[k] by {
            assert(texts(parts@)[k] == parts@[k]@);
        }
        assert(marked@ =~= uuid_marks(all));
    }
    let (swapped, any, other) = replace_marked(&parts, &marked, id);
    proof {
        if any {
            let k = choose|k: int| 0 <= k < parts.len() && k < marked.len() && #[trigger] marked@[k];
            assert(is_uuid(all[k]));
        }
        if names_image(value@) {
            let k = choose|k: int| 0 <= k < all.len() && is_uuid(#[trigger] all[k]);
            assert(marked@[k]);
        }
        if other {
            let k = choose|k: int|
                0 <= k < parts.len() && k < marked.len() && #[trigger] marked@[k] && parts@[k]@
                    != id@;
            assert(texts(parts@)[k] == parts@[k]@);
            assert(is_uuid(all[k]) && all[k] != id@);
        }
        if names_other_image(value@, id@) {
            let k = choose|k: int|
                0 <= k < all.len() && is_uuid(#[trigger] all[k]) && all[k] != id@;
            assert(texts(parts@)[k] == parts@[k]@);
            assert(marked@[k] && parts@[k]@ != id@);
        }
    }
    (join_by(&swapped, "/"), any, other)
}

/// The number that `s` denotes, where it is a numeral of a number that fits
/// 32 bits.
pub open spec fn nid_value(s: Seq<char>) -> Option<nat> {
    match numeral_value(s) {
        Some(v) => if v <= u32::MAX {
            Some(v)
        } else {
            None
        },
        None => None,
    }
}

fn parse_nids(nids: &Vec<&str>) -> (r: Option<Vec<u32>>)
    ensures
        match r {
            Some(v) => v.len() == nids.len() && forall|i: int|
                0 <= i < v.len() ==> nid_value(nids@[i]@) == Some(#[trigger] v@[i] as nat),
            None => exists|i: int| 0 <= i < nids.len() && nid_value(#[trigger] nids@[i]@) is None,
        },
{
    let mut v: Vec<u32> = Vec::new();
    for i in 0..nids.len()
        invariant
            v.len() == i,
            forall|k: int| 0 <= k < i ==> nid_value(nids@[k]@) == Some(#[trigger] v@[k] as nat),
    {
        match parse_number(nids[i]) {
            Some(n) => {
                if n > u32::MAX as u64 {
                    assert(nid_value(nids@[i as int]@) is None);
                    return None;
                }
                v.push(n as u32);
            },
            None => {
                assert(nid_value(nids@[i as int]@) is None);
                return None;
            },
        }
    }
    Some(v)
}

impl BootParameters {
    /// The boot parameters of `hosts`. Fails with `InputError` exactly when
    /// one of `nids` is no numeral of a number that fits 32 bits.
    pub fn new(
        hosts: Vec<&str>,
        macs: Option<Vec<&str>>,
        nids: Option<Vec<&str>>,
        params: &str,
        kernel: &str,
        initrd: &str,
        cloud_init_opt: Option<&str>,
    ) -> (r: Result<BootParameters, Error>)
        ensures
            match r {
                Ok(b) => {
                    &&& texts(b.hosts@) == slice_texts(hosts@)
                    &&& match macs {
                        Some(m) => b.macs matches Some(bm) && texts(bm@)
                            == slice_texts(m@),
                        None => b.macs is None,
                    }
                    &&& match nids {
                        Some(n) => b.nids matches Some(bn) && bn.len() == n.len() && forall|i: int|
                            0 <= i < bn.len() ==> nid_value(n@[i]@) == Some(
                                #[trigger] bn@[i] as nat,
                            ),
                        None => b.nids is None,
                    }
                    &&& b.params@ == params@
                    &&& b.kernel@ == kernel@
                    &&& b.initrd@ == initrd@
                    &&& (b.cloud_init is Some) == (cloud_init_opt is Some)
                },
                Err(e) => e is InputError && e.text() == "a NID is not a number"@ && (nids matches Some(
                    n,
                ) && exists|i: int| 0 <= i < n.len() && nid_value(#[trigger] n@[i]@) is None),
            },
    {
        let nids = match &nids {
            Some(n) => match parse_nids(n) {
                Some(v) => Some(v),
                None => {
                    return Err(Error::InputError("a NID is not a number".to_owned()));
                },
            },
            None => None,
        };
        let macs = match &macs {
            Some(m) => Some(to_strings(m)),
            None => None,
        };
        let cloud_init = match cloud_init_opt {
            Some(c) => Some(json_text(c)),
            None => None,
        };
        Ok(
            BootParameters {
                hosts: to_strings(&hosts),
                macs,
                nids,
                params: params.to_owned(),
                kernel: kernel.to_owned(),
                initrd: initrd.to_owned(),
                cloud_init,
            },
        )
    }

    /// The image of the kernel path: what stands between its third `/` and
    /// its element `kernel`. For `s3://boot-images/<image>/kernel` that is
    /// the image.
    pub fn get_boot_image(&self) -> (image: String)
        ensures
            image@ == image_of(self.kernel@),
    {
        let parts = split(self.kernel.as_str(), '/');
        let mut image = String::new();
        if parts.len() <= 3 {
            return image;
        }
        let ghost all = texts(parts@);
        image.append(parts[3].as_str());
        proof {
            assert(all[3] == parts@[3]@);
            assert(image@ =~= all[3]);
            reveal_strlit("/");
        }
        let mut i: usize = 4;
        while i < parts.len() && !same_text(parts[i].as_str(), "kernel")
            invariant
                all == texts(parts@),
                all == split_at(self.kernel@, '/'),
                4 <= i <= parts.len(),
                "/"@ == seq!['/'],
                image@ + image_tail(all.skip(i as int)) == all[3] + image_tail(all.skip(4)),
            decreases parts.len() - i,
        {
            proof {
                assert(all.skip(i as int)[0] == parts@[i as int]@);
                assert(all.skip(i as int).drop_first() =~= all.skip(i + 1));
            }
            let ghost before = image@;
            image.append("/");
            image.append(parts[i].as_str());
            proof {
                assert(image@ + image_tail(all.skip(i + 1)) =~= before + image_tail(
                    all.skip(i as int),
                ));
            }
            i += 1;
        }
        proof {
            if i < parts.len() {
                assert(all.skip(i as int)[0] == parts@[i as int]@);
            }
            assert(image_tail(all.skip(i as int)) =~= Seq::<char>::empty());
            assert(image@ =~= image@ + image_tail(all.skip(i as int)));
        }
        image
    }

    /// The value of the kernel parameter `key`, where the line has the key.
    pub fn get_kernel_param_value(&self, key: &str) -> (r: Option<String>)
        ensures
            match r {
                Some(v) => value_at(params_in(self.params@), key@) == Some(v@),
                None => value_at(params_in(self.params@), key@) is None,
            },
    {
        let map = convert_kernel_params_to_map(self.params.as_str());
        let k = find_key(&map, key);
        if k < map.len() {
            assert(pair_texts(map@)[k as int].1 == map@[k as int].1@);
            Some(map[k].1.clone())
        } else {
            None
        }
    }

    /// The number of kernel parameters, each key counted once.
    pub fn get_num_kernel_params(&self) -> (n: usize)
        ensures
            n == params_in(self.params@).len(),
    {
        let map = convert_kernel_params_to_map(self.params.as_str());
        map.len()
    }

    /// Gives the kernel parameter `key` the value `new_value`, where the
    /// line has the key, and writes the line anew. Returns whether the line
    /// has the key.
    pub fn update_kernel_param(&mut self, key: &str, new_value: &str) -> (changed: bool)
        ensures
            changed == has_key(params_in(old(self).params@), key@),
            final(self).params@ == line_of(
                set_existing(params_in(old(self).params@), key@, new_value@),
            ),
            final(self).hosts == old(self).hosts,
            final(self).macs == old(self).macs,
            final(self).nids == old(self).nids,
            final(self).kernel == old(self).kernel,
            final(self).initrd == old(self).initrd,
            final(self).cloud_init == old(self).cloud_init,
    {
        let mut map = convert_kernel_params_to_map(self.params.as_str());
        let k = find_key(&map, key);
        let changed = k < map.len();
        if changed {
            let ghost before = pair_texts(map@);
            map.set(k, (key.to_owned(), new_value.to_owned()));
            assert(pair_texts(map@) =~= before.update(k as int, (key@, new_value@)));
        }
        self.params = render(&map);
        changed
    }

    /// Adds the kernel parameter `key` with the value `new_value` at the end
    /// and writes the line anew, unless the line has the key: then nothing
    /// changes. Returns whether the parameter was added.
    pub fn add_kernel_param(&mut self, key: &str, new_value: &str) -> (changed: bool)
        ensures
            changed == !has_key(params_in(old(self).params@), key@),
            final(self).params@ == if changed {
                line_of(params_in(old(self).params@).push((key@, new_value@)))
            } else {
                old(self).params@
            },
            final(self).hosts == old(self).hosts,
            final(self).macs == old(self).macs,
            final(self).nids == old(self).nids,
            final(self).kernel == old(self).kernel,
            final(self).initrd == old(self).initrd,
            final(self).cloud_init == old(self).cloud_init,
    {
        let mut map = convert_kernel_params_to_map(self.params.as_str());
        let k = find_key(&map, key);
        if k < map.len() {
            return false;
        }
        let ghost before = pair_texts(map@);
        map.push((key.to_owned(), new_value.to_owned()));
        assert(pair_texts(map@) =~= before.push((key@, new_value@)));
        self.params = render(&map);
        true
    }

    /// Removes the kernel parameter `key` and writes the line anew. Returns
    /// whether the line had the key.
    pub fn delete_kernel_param(&mut self, key: &str) -> (changed: bool)
        ensures
            changed == has_key(params_in(old(self).params@), key@),
            final(self).params@ == line_of(without_key(params_in(old(self).params@), key@)),
            final(self).hosts == old(self).hosts,
            final(self).macs == old(self).macs,
            final(self).nids == old(self).nids,
            final(self).kernel == old(self).kernel,
            final(self).initrd == old(self).initrd,
            final(self).cloud_init == old(self).cloud_init,
    {
        let mut map = convert_kernel_params_to_map(self.params.as_str());
        let k = find_key(&map, key);
        let changed = k < map.len();
        if changed {
            let ghost before = pair_texts(map@);
            map.remove(k);
            assert(pair_texts(map@) =~= before.remove(k as int));
        }
        self.params = render(&map);
        changed
    }

    /// Replaces the kernel parameters by those of `new_params`, word for
    /// word. Returns whether that changes anything that the old line says:
    /// the value of a key that both lines have, or else the number of
    /// parameters.
    pub fn apply_kernel_params(&mut self, new_params: &str) -> (change: bool)
        ensures
            final(self).params@ == line_of(entries_of(words(new_params@))),
            change == (changes(
                params_in(old(self).params@),
                entries_of(words(new_params@)),
                words(new_params@).len() as int,
            ).1 || words(new_params@).len() != params_in(old(self).params@).len()),
            final(self).hosts == old(self).hosts,
            final(self).macs == old(self).macs,
            final(self).nids == old(self).nids,
            final(self).kernel == old(self).kernel,
            final(self).initrd == old(self).initrd,
            final(self).cloud_init == old(self).cloud_init,
    {
        let list = split_words(new_params);
        let mut given: Vec<(String, String)> = Vec::new();
        for i in 0..list.len()
            invariant
                texts(list@) == words(new_params@),
                given.len() == i,
                forall|k: int|
                    0 <= k < i ==> (#[trigger] given@[k]).0@ == key_of(list@[k]@) && given@[k].1@
                        == value_of(list@[k]@),
        {
            given.push(split_word(list[i].as_str()));
        }
        proof {
            assert forall|k: int| 0 <= k < given.len() implies pair_texts(given@)[k] == entries_of(
                words(new_params@),
            )[k] by {
                assert(texts(list@)[k] == list@[k]@);
            }
            assert(pair_texts(given@) =~= entries_of(words(new_params@)));
        }
        let mut map = convert_kernel_params_to_map(self.params.as_str());
        let ghost start = pair_texts(map@);
        let ghost want = pair_texts(given@);
        let mut change = false;
        for i in 0..given.len()
            invariant
                want == pair_texts(given@),
                map.len() == start.len(),
                (pair_texts(map@), change) == changes(start, want, i as int),
        {
            let k = find_key(&map, given[i].0.as_str());
            assert(want[i as int] == (given@[i as int].0@, given@[i as int].1@));
            if k < map.len() {
                assert(pair_texts(map@)[k as int].1 == map@[k as int].1@);
                if !same_text(map[k].1.as_str(), given[i].1.as_str()) {
                    let ghost before = pair_texts(map@);
                    map.set(k, (given[i].0.clone(), given[i].1.clone()));
                    assert(pair_texts(map@) =~= before.update(k as int, want[i as int]));
                    change = true;
                }
            }
        }
        if !change {
            if given.len() != map.len() {
                change = true;
            }
        }
        self.params = render(&given);
        change
    }

    /// Puts the image `new_image_id` in place of the image that the boot
    /// parameters name: in the kernel parameters `root`, `metal.server` and
    /// `nmd_data`, where each element between `/` that reads as a UUID is an
    /// image, and in the paths of kernel and initial ram disk. Returns
    /// whether the kernel parameters named an image to replace: another one
    /// in `root`, or any in the other two. Fails with `InputError`, and
    /// changes nothing, exactly when the line has no `root`.
    pub fn update_boot_image(&mut self, new_image_id: &str) -> (r: Result<bool, Error>)
        ensures
            match r {
                Ok(changed) => {
                    &&& image_update(old(self).params@, new_image_id@) == Some(
                        (final(self).params@, changed),
                    )
                    &&& final(self).kernel@ == "s3://boot-images/"@ + new_image_id@ + "/kernel"@
                    &&& final(self).initrd@ == "s3://boot-images/"@ + new_image_id@ + "/initrd"@
                },
                Err(e) => {
                    &&& e is InputError
                    &&& e.text() == "ERROR - The 'root' kernel param is missing from user input"@
                    &&& image_update(old(self).params@, new_image_id@) is None
                    &&& final(self).params == old(self).params
                    &&& final(self).kernel == old(self).kernel
                    &&& final(self).initrd == old(self).initrd
                },
            },
            final(self).hosts == old(self).hosts,
            final(self).macs == old(self).macs,
            final(self).nids == old(self).nids,
            final(self).cloud_init == old(self).cloud_init,
    {
        let mut changed = false;
        let root = match self.get_kernel_param_value("root") {
            Some(root) => root,
            None => {
                return Err(
                    Error::InputError(
                        "ERROR - The 'root' kernel param is missing from user input".to_owned(),
                    ),
                );
            },
        };
        let (new_root, _, other) = swap_image(root.as_str(), new_image_id);
        if other {
            changed = true;
        }
        self.update_kernel_param("root", new_root.as_str());
        if let Some(metal_server) = self.get_kernel_param_value("metal.server") {
            let (new_metal_server, any, _) = swap_image(metal_server.as_str(), new_image_id);
            if any {
                changed = true;
            }
            self.update_kernel_param("metal.server", new_metal_server.as_str());
        }
        if let Some(nmd_data) = self.get_kernel_param_value("nmd_data") {
            let (new_nmd_data, any, _) = swap_image(nmd_data.as_str(), new_image_id);
            if any {
                changed = true;
            }
            self.update_kernel_param("nmd_data", new_nmd_data.as_str());
        }
        let mut kernel = "s3://boot-images/".to_owned();
        kernel.append(new_image_id);
        kernel.append("/kernel");
        self.kernel = kernel;
        let mut initrd = "s3://boot-images/".to_owned();
        initrd.append(new_image_id);
        initrd.append("/initrd");
        self.initrd = initrd;
        Ok(changed)
    }
}

/// Whether the boot parameters are those of the host `node`.
pub open spec fn boots(params: BootParameters, node: Seq<char>) -> bool {
    texts(params.hosts@).contains(node)
}

/// The first boot parameters of the list that are those of the host `node`.
pub fn find_boot_params_related_to_node<'a>(
    node_boot_params_list: &'a [BootParameters],
    node: &String,
) -> (r: Option<&'a BootParameters>)
    ensures
        match r {
            Some(found) => exists|i: int|
                0 <= i < node_boot_params_list.len() && *found == #[trigger] node_boot_params_list@[i]
                    && boots(*found, node@) && forall|k: int|
                    0 <= k < i ==> !boots(#[trigger] node_boot_params_list@[k], node@),
            None => forall|k: int|
                0 <= k < node_boot_params_list.len() ==> !boots(
                    #[trigger] node_boot_params_list@[k],
                    node@,
                ),
        },
{
    for i in 0..node_boot_params_list.len()
        invariant
            forall|k: int| 0 <= k < i ==> !boots(#[trigger] node_boot_params_list@[k], node@),
    {
        if crate::node_set::contains_text(&node_boot_params_list[i].hosts, node.as_str()) {
            return Some(&node_boot_params_list[i]);
        }
    }
    None
}

} // verus!
