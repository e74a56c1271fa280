//! A plain model of the JSON documents that the API exchanges, with the
//! lookups that the request logic performs on them.
use vstd::prelude::*;

verus! {

/// A JSON document.
///
/// Numbers are kept in their textual form, since the logic never computes
/// with them. An object is a list of entries; a lookup by key takes the first
/// entry with that key (documents built from parsed JSON hold each key once).
#[derive(Debug, PartialEq, Eq)]
pub enum JsonValue {
    Null,
    Bool(bool),
    Number(String),
    Str(String),
    Array(Vec<JsonValue>),
    Object(Vec<(String, JsonValue)>),
}

/// The value of the first entry whose key is `key`.
pub open spec fn entry_lookup(entries: Seq<(String, JsonValue)>, key: Seq<char>) -> Option<
    JsonValue,
>
    decreases entries.len(),
{
    if entries.len() == 0 {
        None
    } else if entries[0].0@ == key {
        Some(entries[0].1)
    } else {
        entry_lookup(entries.drop_first(), key)
    }
}

/// The member `key` of `v`; `None` when `v` is no object or has no such member.
pub open spec fn obj_get(v: JsonValue, key: Seq<char>) -> Option<JsonValue> {
    match v {
        JsonValue::Object(entries) => entry_lookup(entries@, key),
        _ => None,
    }
}

/// Follows a path of member names from `v`, one lookup per name.
pub open spec fn pointer_get(v: JsonValue, path: Seq<Seq<char>>) -> Option<JsonValue>
    decreases path.len(),
{
    if path.len() == 0 {
        Some(v)
    } else {
        match obj_get(v, path[0]) {
            Some(child) => pointer_get(child, path.drop_first()),
            None => None,
        }
    }
}

/// The text of a string value, or `default` when there is no value or it is
/// not a string.
pub open spec fn str_or(v: Option<JsonValue>, default: Seq<char>) -> Seq<char> {
    match v {
        Some(JsonValue::Str(s)) => s@,
        _ => default,
    }
}

/// A path of length one is a single member lookup.
pub proof fn lemma_pointer_one(v: JsonValue, a: Seq<char>)
    ensures
        pointer_get(v, seq![a]) == obj_get(v, a),
{
    assert(seq![a].drop_first() =~= Seq::<Seq<char>>::empty());
    match obj_get(v, a) {
        Some(c) => {
            assert(pointer_get(c, Seq::<Seq<char>>::empty()) == Some(c));
        },
        None => {},
    }
}

/// A longer path is a member lookup followed by the rest of the path.
pub proof fn lemma_pointer_cons(v: JsonValue, a: Seq<char>, rest: Seq<Seq<char>>)
    ensures
        pointer_get(v, seq![a] + rest) == match obj_get(v, a) {
            Some(c) => pointer_get(c, rest),
            None => None,
        },
{
    assert((seq![a] + rest).drop_first() =~= rest);
    assert((seq![a] + rest)[0] == a);
}

/// A lookup finds the first entry whose key matches.
pub proof fn lemma_lookup_at(entries: Seq<(String, JsonValue)>, key: Seq<char>, i: int)
    requires
        0 <= i < entries.len(),
        entries[i].0@ == key,
        forall|j: int| 0 <= j < i ==> #[trigger] entries[j].0@ != key,
    ensures
        entry_lookup(entries, key) == Some(entries[i].1),
    decreases i,
{
    if i > 0 {
        let rest = entries.drop_first();
        assert forall|j: int| 0 <= j < i - 1 implies #[trigger] rest[j].0@ != key by {
            assert(rest[j] == entries[j + 1]);
        }
        assert(entries[0].0@ != key);
        lemma_lookup_at(rest, key, i - 1);
    }
}

/// Skipping entries whose key differs does not change a lookup.
proof fn lemma_lookup_skip(entries: Seq<(String, JsonValue)>, key: Seq<char>, i: int)
    requires
        0 <= i < entries.len(),
        entries[i].0@ != key,
    ensures
        entry_lookup(entries.skip(i), key) == entry_lookup(entries.skip(i + 1), key),
{
    assert(entries.skip(i).drop_first() =~= entries.skip(i + 1));
}

impl JsonValue {
    /// Index of the first entry of `entries` whose key is `key`.
    fn find_key(entries: &Vec<(String, JsonValue)>, key: &str) -> (res: Option<usize>)
        ensures
            match res {
                Some(i) => i < entries@.len() && entry_lookup(entries@, key@) == Some(
                    entries@[i as int].1,
                ),
                None => entry_lookup(entries@, key@) is None,
            },
    {
        let wanted = String::from_str(key);
        let mut i: usize = 0;
        assert(entries@.skip(0) =~= entries@);
        while i < entries.len()
            invariant
                i <= entries@.len(),
                wanted@ == key@,
                entry_lookup(entries@, key@) == entry_lookup(entries@.skip(i as int), key@),
            decreases entries@.len() - i,
        {
            if entries[i].0 == wanted {
                assert(entries@.skip(i as int)[0] == entries@[i as int]);
                return Some(i);
            }
            proof {
                lemma_lookup_skip(entries@, key@, i as int);
            }
            i = i + 1;
        }
        assert(entries@.skip(i as int) =~= Seq::<(String, JsonValue)>::empty());
        None
    }

    /// The member `key` of this value, if it is an object that has one.
    pub fn get(&self, key: &str) -> (res: Option<&JsonValue>)
        ensures
            match res {
                Some(r) => obj_get(*self, key@) == Some(*r),
                None => obj_get(*self, key@) is None,
            },
    {
        match self {
            JsonValue::Object(entries) => match Self::find_key(entries, key) {
                Some(i) => Some(&entries[i].1),
                None => None,
            },
            _ => None,
        }
    }

    /// Moves the member `key` out of this value, if it is an object that has one.
    pub fn take(self, key: &str) -> (res: Option<JsonValue>)
        ensures
            res == obj_get(self, key@),
    {
        match self {
            JsonValue::Object(mut entries) => match Self::find_key(&entries, key) {
                Some(i) => {
                    let entry = entries.remove(i);
                    Some(entry.1)
                },
                None => None,
            },
            _ => None,
        }
    }

    /// The text of this value, if it is a string.
    pub fn as_str(&self) -> (res: Option<&String>)
        ensures
            match res {
                Some(s) => *self == JsonValue::Str(*s),
                None => !(*self is Str),
            },
    {
        match self {
            JsonValue::Str(s) => Some(s),
            _ => None,
        }
    }
}

/// Two-step path in terms of single lookups.
proof fn lemma_pointer_two(v: JsonValue, a: Seq<char>, b: Seq<char>)
    ensures
        pointer_get(v, seq![a, b]) == match obj_get(v, a) {
            Some(c) => obj_get(c, b),
            None => None,
        },
{
    assert(seq![a, b] =~= seq![a] + seq![b]);
    lemma_pointer_cons(v, a, seq![b]);
    match obj_get(v, a) {
        Some(c) => lemma_pointer_one(c, b),
        None => {},
    }
}

/// Three-step path in terms of a lookup and a two-step path.
proof fn lemma_pointer_three(v: JsonValue, a: Seq<char>, b: Seq<char>, c: Seq<char>)
    ensures
        pointer_get(v, seq![a, b, c]) == match obj_get(v, a) {
            Some(x) => pointer_get(x, seq![b, c]),
            None => None,
        },
{
    assert(seq![a, b, c] =~= seq![a] + seq![b, c]);
    lemma_pointer_cons(v, a, seq![b, c]);
}

/// Four-step path in terms of a lookup and a three-step path.
proof fn lemma_pointer_four(v: JsonValue, a: Seq<char>, b: Seq<char>, c: Seq<char>, d: Seq<char>)
    ensures
        pointer_get(v, seq![a, b, c, d]) == match obj_get(v, a) {
            Some(x) => pointer_get(x, seq![b, c, d]),
            None => None,
        },
{
    assert(seq![a, b, c, d] =~= seq![a] + seq![b, c, d]);
    lemma_pointer_cons(v, a, seq![b, c, d]);
}

impl JsonValue {
    /// The value at the path `a/b`, if there is one.
    pub fn get_path2(&self, a: &str, b: &str) -> (res: Option<&JsonValue>)
        ensures
            match res {
                Some(r) => pointer_get(*self, seq![a@, b@]) == Some(*r),
                None => pointer_get(*self, seq![a@, b@]) is None,
            },
    {
        proof {
            lemma_pointer_two(*self, a@, b@);
        }
        match self.get(a) {
            Some(x) => x.get(b),
            None => None,
        }
    }

    /// The value at the path `a/b/c`, if there is one.
    pub fn get_path3(&self, a: &str, b: &str, c: &str) -> (res: Option<&JsonValue>)
        ensures
            match res {
                Some(r) => pointer_get(*self, seq![a@, b@, c@]) == Some(*r),
                None => pointer_get(*self, seq![a@, b@, c@]) is None,
            },
    {
        proof {
            lemma_pointer_three(*self, a@, b@, c@);
        }
        match self.get(a) {
            Some(x) => x.get_path2(b, c),
            None => None,
        }
    }

    /// Moves out the value at the path `a/b`, if there is one.
    pub fn take_path2(self, a: &str, b: &str) -> (res: Option<JsonValue>)
        ensures
            res == pointer_get(self, seq![a@, b@]),
    {
        proof {
            lemma_pointer_two(self, a@, b@);
        }
        match self.take(a) {
            Some(x) => x.take(b),
            None => None,
        }
    }

    /// Moves out the value at the path `a/b/c`, if there is one.
    pub fn take_path3(self, a: &str, b: &str, c: &str) -> (res: Option<JsonValue>)
        ensures
            res == pointer_get(self, seq![a@, b@, c@]),
    {
        proof {
            lemma_pointer_three(self, a@, b@, c@);
        }
        match self.take(a) {
            Some(x) => x.take_path2(b, c),
            None => None,
        }
    }

    /// Moves out the value at the path `a/b/c/d`, if there is one.
    pub fn take_path4(self, a: &str, b: &str, c: &str, d: &str) -> (res: Option<JsonValue>)
        ensures
            res == pointer_get(self, seq![a@, b@, c@, d@]),
    {
        proof {
            lemma_pointer_four(self, a@, b@, c@, d@);
        }
        match self.take(a) {
            Some(x) => x.take_path3(b, c, d),
            None => None,
        }
    }
}

} // verus!
