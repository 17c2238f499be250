//! Reading a nested entry of a parsed JSON document (a compiler artifact)
//! along a dotted key path such as `deployedBytecode.object`.

use crate::genesis::{chars_of, string_of};
use vstd::prelude::*;
use vstd::string::StringExecFns;

verus! {

/// A parsed JSON value. Numbers keep the text they were written with;
/// an object lists its members in order, each key once.
#[derive(Debug)]
pub enum JsonValue {
    Null,
    Bool(bool),
    Number(String),
    Str(String),
    Array(Vec<JsonValue>),
    Object(Vec<(String, JsonValue)>),
}

/// The value of the first member of `entries` named `key`.
pub open spec fn first_member(entries: Seq<(String, JsonValue)>, key: Seq<char>) -> Option<JsonValue>
    decreases entries.len(),
{
    if entries.len() == 0 {
        None
    } else if entries[0].0@ == key {
        Some(entries[0].1)
    } else {
        first_member(entries.drop_first(), key)
    }
}

/// The member `key` of `v`: `None` when `v` is no object or has no such
/// member.
pub open spec fn json_get(v: JsonValue, key: Seq<char>) -> Option<JsonValue> {
    match v {
        JsonValue::Object(entries) => first_member(entries@, key),
        _ => None,
    }
}

/// The pieces of `s` between the dots, in order: one more piece than `s`
/// has dots, empty pieces included.
pub open spec fn split_dots(s: Seq<char>) -> Seq<Seq<char>>
    decreases s.len(),
{
    if s.len() == 0 {
        seq![Seq::<char>::empty()]
    } else {
        let p = split_dots(s.drop_last());
        if s.last() == '.' {
            p.push(Seq::<char>::empty())
        } else {
            p.update(p.len() - 1, p.last().push(s.last()))
        }
    }
}

/// The message for a key that the document lacks.
pub open spec fn key_not_found(key: Seq<char>) -> Seq<char> {
    "key '"@ + key + "' not found"@
}

/// Follows `keys` from `v`, member by member; the first missing key stops
/// the walk with its message.
pub open spec fn walk_keys(v: JsonValue, keys: Seq<Seq<char>>) -> Result<JsonValue, Seq<char>>
    decreases keys.len(),
{
    if keys.len() == 0 {
        Ok(v)
    } else {
        match json_get(v, keys[0]) {
            Some(child) => walk_keys(child, keys.drop_first()),
            None => Err(key_not_found(keys[0])),
        }
    }
}

/// The entry of `json` at the dotted path `key`, or the whole document when
/// no path is given.
pub open spec fn fetch_spec(json: JsonValue, key: Option<Seq<char>>) -> Result<JsonValue, Seq<char>> {
    match key {
        None => Ok(json),
        Some(path) => walk_keys(json, split_dots(path)),
    }
}

proof fn lemma_split_dots_nonempty(s: Seq<char>)
    ensures
        split_dots(s).len() >= 1,
    decreases s.len(),
{
    if s.len() > 0 {
        lemma_split_dots_nonempty(s.drop_last());
    }
}

proof fn lemma_split_dots_concat(p: Seq<char>, q: Seq<char>)
    ensures
        split_dots(p + seq!['.'] + q) == split_dots(p) + split_dots(q),
    decreases q.len(),
{
    let pq = p + seq!['.'] + q;
    lemma_split_dots_nonempty(p);
    lemma_split_dots_nonempty(q);
    if q.len() == 0 {
        assert(pq.drop_last() =~= p);
        assert(split_dots(pq) =~= split_dots(p) + split_dots(q));
    } else {
        let q0 = q.drop_last();
        lemma_split_dots_concat(p, q0);
        lemma_split_dots_nonempty(q0);
        assert(pq.drop_last() =~= p + seq!['.'] + q0);
        assert(pq.last() == q.last());
        let a = split_dots(p);
        let b = split_dots(q0);
        if q.last() == '.' {
            assert(split_dots(pq) =~= a + b.push(Seq::<char>::empty()));
        } else {
            assert((a + b).last() == b.last());
            assert((a + b).update((a + b).len() - 1, (a + b).last().push(q.last())) =~= a + b.update(
                b.len() - 1,
                b.last().push(q.last()),
            ));
        }
        assert(split_dots(pq) =~= split_dots(p) + split_dots(q));
    }
}

proof fn lemma_walk_keys_concat(v: JsonValue, a: Seq<Seq<char>>, b: Seq<Seq<char>>)
    ensures
        walk_keys(v, a + b) == match walk_keys(v, a) {
            Ok(x) => walk_keys(x, b),
            Err(e) => Err(e),
        },
    decreases a.len(),
{
    if a.len() == 0 {
        assert(a + b =~= b);
    } else {
        assert((a + b)[0] == a[0]);
        assert((a + b).drop_first() =~= a.drop_first() + b);
        match json_get(v, a[0]) {
            Some(child) => lemma_walk_keys_concat(child, a.drop_first(), b),
            None => {},
        }
    }
}

/// Fetching a dotted path in two steps gives what fetching it at once
/// gives: the entry at `p.q` is the entry at `q` within the entry at `p`,
/// and a key missing along `p` stops both with the same message.
pub proof fn law_nested_paths_compose(json: JsonValue, p: Seq<char>, q: Seq<char>)
    ensures
        fetch_spec(json, Some(p + seq!['.'] + q)) == match fetch_spec(json, Some(p)) {
            Ok(v) => fetch_spec(v, Some(q)),
            Err(e) => Err(e),
        },
{
    lemma_split_dots_concat(p, q);
    lemma_walk_keys_concat(json, split_dots(p), split_dots(q));
}

/// The views of the pieces in `done`, followed by `cur`.
spec fn pieces(done: Seq<Vec<char>>, cur: Seq<char>) -> Seq<Seq<char>> {
    Seq::new(done.len(), |j: int| done[j]@).push(cur)
}

/// Splits `path` at its dots.
fn split_path(path: &[char]) -> (r: Vec<Vec<char>>)
    ensures
        r@.len() == split_dots(path@).len(),
        forall|j: int| 0 <= j < r@.len() ==> #[trigger] r@[j]@ == split_dots(path@)[j],
{
    let mut done: Vec<Vec<char>> = Vec::new();
    let mut cur: Vec<char> = Vec::new();
    let mut i: usize = 0;
    assert(path@.take(0) =~= Seq::<char>::empty());
    assert(pieces(done@, cur@) =~= split_dots(path@.take(0)));
    while i < path.len()
        invariant
            i <= path@.len(),
            pieces(done@, cur@) == split_dots(path@.take(i as int)),
        decreases path@.len() - i,
    {
        let c = path[i];
        let ghost before = pieces(done@, cur@);
        proof {
            assert(path@.take(i as int + 1).drop_last() =~= path@.take(i as int));
            assert(path@.take(i as int + 1).last() == c);
            lemma_split_dots_nonempty(path@.take(i as int));
        }
        if c == '.' {
            let piece = cur;
            cur = Vec::new();
            done.push(piece);
            assert(pieces(done@, cur@) =~= before.push(Seq::<char>::empty()));
        } else {
            cur.push(c);
            assert(pieces(done@, cur@) =~= before.update(before.len() - 1, before.last().push(c)));
        }
        i = i + 1;
    }
    assert(path@.take(path@.len() as int) =~= path@);
    done.push(cur);
    assert(Seq::new(done@.len(), |j: int| done@[j]@) =~= split_dots(path@));
    done
}

/// True if `s` is the character sequence `c`.
fn chars_match(s: &String, c: &[char]) -> (r: bool)
    ensures
        r == (s@ == c@),
{
    let sc = chars_of(s.as_str());
    if sc.len() != c.len() {
        return false;
    }
    let mut i: usize = 0;
    while i < c.len()
        invariant
            i <= c@.len(),
            sc@.len() == c@.len(),
            sc@ == s@,
            forall|j: int| 0 <= j < i ==> sc@[j] == c@[j],
        decreases c@.len() - i,
    {
        if sc[i] != c[i] {
            return false;
        }
        i = i + 1;
    }
    assert(sc@ =~= c@);
    true
}

/// The position of the first member of `entries` named `key`.
fn find_member(entries: &Vec<(String, JsonValue)>, key: &[char]) -> (r: Option<usize>)
    ensures
        match r {
            Some(i) => i < entries@.len() && first_member(entries@, key@) == Some(entries@[i as int].1),
            None => first_member(entries@, key@) is None,
        },
{
    let mut i: usize = 0;
    assert(entries@.skip(0) =~= entries@);
    while i < entries.len()
        invariant
            i <= entries@.len(),
            first_member(entries@, key@) == first_member(entries@.skip(i as int), key@),
        decreases entries@.len() - i,
    {
        assert(entries@.skip(i as int)[0] == entries@[i as int]);
        assert(entries@.skip(i as int).drop_first() =~= entries@.skip(i as int + 1));
        if chars_match(&entries[i].0, key) {
            return Some(i);
        }
        i = i + 1;
    }
    assert(entries@.skip(i as int) =~= Seq::<(String, JsonValue)>::empty());
    None
}

/// The message for the missing key `key`.
fn key_not_found_message(key: &[char]) -> (r: String)
    ensures
        r@ == key_not_found(key@),
{
    let mut m = String::from_str("key '");
    let k = string_of(key);
    m.append(k.as_str());
    m.append("' not found");
    m
}

/// Fetches the entry of `json` at the dotted path `key` (`a.b.c` names
/// member `c` of member `b` of member `a`); without a path, the whole
/// document.
pub fn fetch_value_from_json(json: JsonValue, key: Option<&str>) -> (r: Result<JsonValue, String>)
    ensures
        match r {
            Ok(v) => fetch_spec(json, match key { None => None, Some(k) => Some(k@) }) == Ok::<JsonValue, Seq<char>>(v),
            Err(e) => fetch_spec(json, match key { None => None, Some(k) => Some(k@) }) == Err::<JsonValue, Seq<char>>(e@),
        },
{
    let path = match key {
        None => return Ok(json),
        Some(p) => p,
    };
    let chars = chars_of(path);
    let keys = split_path(chars.as_slice());
    let ghost views = split_dots(path@);
    let mut cur = json;
    let mut i: usize = 0;
    assert(views.skip(0) =~= views);
    while i < keys.len()
        invariant
            i <= keys@.len(),
            key == Some(path),
            views == split_dots(path@),
            keys@.len() == views.len(),
            forall|j: int| 0 <= j < keys@.len() ==> #[trigger] keys@[j]@ == views[j],
            walk_keys(json, views) == walk_keys(cur, views.skip(i as int)),
        decreases keys@.len() - i,
    {
        let k = &keys[i];
        proof {
            assert(views.skip(i as int)[0] == views[i as int]);
            assert(views.skip(i as int).drop_first() =~= views.skip(i as int + 1));
            assert(keys@[i as int]@ == views[i as int]);
        }
        match cur {
            JsonValue::Object(mut entries) => {
                match find_member(&entries, k.as_slice()) {
                    Some(idx) => {
                        let member = entries.remove(idx);
                        cur = member.1;
                    },
                    None => {
                        return Err(key_not_found_message(k.as_slice()));
                    },
                }
            },
            _ => {
                return Err(key_not_found_message(k.as_slice()));
            },
        }
        i = i + 1;
    }
    assert(views.skip(i as int) =~= Seq::<Seq<char>>::empty());
    Ok(cur)
}

} // verus!
