//! The JSON values that the settings store keeps, and the object (a map from
//! keys to values) that holds them.
//!
//! Scalars are held as plain values. Arrays and objects stored under a key
//! are never looked into by the library: they are held as their compact JSON
//! text, which is produced and read back where the store meets the disk.
use vstd::prelude::*;

verus! {

/// A JSON number, as the JSON reader classifies it.
#[derive(Debug, PartialEq, Eq)]
pub enum JsonNumber {
    /// A non-negative integer that fits in `u64`.
    Unsigned(u64),
    /// A negative integer that fits in `i64`.
    Signed(i64),
    /// Any other number, held as its decimal text.
    Decimal(String),
}

/// A JSON value stored under one key of the settings store.
#[derive(Debug, PartialEq, Eq)]
pub enum JsonValue {
    Null,
    Bool(bool),
    Number(JsonNumber),
    Str(String),
    /// An array, held as its compact JSON text.
    Array(String),
    /// An object, held as its compact JSON text.
    Object(String),
}

/// The mathematical model of a [`JsonValue`].
pub enum JsonView {
    Null,
    Bool(bool),
    Unsigned(u64),
    Signed(i64),
    Decimal(Seq<char>),
    Str(Seq<char>),
    Array(Seq<char>),
    Object(Seq<char>),
}

impl View for JsonValue {
    type V = JsonView;

    open spec fn view(&self) -> JsonView {
        match self {
            JsonValue::Null => JsonView::Null,
            JsonValue::Bool(b) => JsonView::Bool(*b),
            JsonValue::Number(JsonNumber::Unsigned(n)) => JsonView::Unsigned(*n),
            JsonValue::Number(JsonNumber::Signed(n)) => JsonView::Signed(*n),
            JsonValue::Number(JsonNumber::Decimal(t)) => JsonView::Decimal(t@),
            JsonValue::Str(s) => JsonView::Str(s@),
            JsonValue::Array(t) => JsonView::Array(t@),
            JsonValue::Object(t) => JsonView::Object(t@),
        }
    }
}

impl Clone for JsonNumber {
    fn clone(&self) -> (r: Self)
        ensures
            r == *self,
    {
        match self {
            JsonNumber::Unsigned(n) => JsonNumber::Unsigned(*n),
            JsonNumber::Signed(n) => JsonNumber::Signed(*n),
            JsonNumber::Decimal(t) => JsonNumber::Decimal(t.clone()),
        }
    }
}

impl Clone for JsonValue {
    fn clone(&self) -> (r: Self)
        ensures
            r == *self,
    {
        match self {
            JsonValue::Null => JsonValue::Null,
            JsonValue::Bool(b) => JsonValue::Bool(*b),
            JsonValue::Number(n) => JsonValue::Number(n.clone()),
            JsonValue::Str(s) => JsonValue::Str(s.clone()),
            JsonValue::Array(t) => JsonValue::Array(t.clone()),
            JsonValue::Object(t) => JsonValue::Object(t.clone()),
        }
    }
}

/// What `Value::as_u64` gives on a value with this model.
pub open spec fn view_as_u64(v: JsonView) -> Option<u64> {
    match v {
        JsonView::Unsigned(n) => Some(n),
        _ => None,
    }
}

/// What `Value::as_str` gives on a value with this model.
pub open spec fn view_as_str(v: JsonView) -> Option<Seq<char>> {
    match v {
        JsonView::Str(s) => Some(s),
        _ => None,
    }
}

/// What `Value::as_bool` gives on a value with this model.
pub open spec fn view_as_bool(v: JsonView) -> Option<bool> {
    match v {
        JsonView::Bool(b) => Some(b),
        _ => None,
    }
}

impl JsonValue {
    /// The number, when it is a non-negative integer that fits in `u64`.
    pub fn as_u64(&self) -> (r: Option<u64>)
        ensures
            r == view_as_u64(self@),
    {
        match self {
            JsonValue::Number(JsonNumber::Unsigned(n)) => Some(*n),
            _ => None,
        }
    }

    /// A copy of the string, when the value is a string.
    pub fn as_string(&self) -> (r: Option<String>)
        ensures
            r is Some == view_as_str(self@) is Some,
            r matches Some(s) ==> Some(s@) == view_as_str(self@),
    {
        match self {
            JsonValue::Str(s) => Some(s.clone()),
            _ => None,
        }
    }

    /// The boolean, when the value is one.
    pub fn as_bool(&self) -> (r: Option<bool>)
        ensures
            r == view_as_bool(self@),
    {
        match self {
            JsonValue::Bool(b) => Some(*b),
            _ => None,
        }
    }
}

/// The model of a sequence of key/value entries: later entries win.
pub open spec fn entries_map(s: Seq<(String, JsonValue)>) -> Map<Seq<char>, JsonView>
    decreases s.len(),
{
    if s.len() == 0 {
        Map::empty()
    } else {
        entries_map(s.drop_last()).insert(s.last().0@, s.last().1@)
    }
}

/// No key occurs twice among the entries.
pub open spec fn keys_distinct(s: Seq<(String, JsonValue)>) -> bool {
    forall|i: int, j: int|
        0 <= i < s.len() && 0 <= j < s.len() && i != j ==> #[trigger] s[i].0@ != #[trigger] s[j].0@
}

/// A key is in the model of the entries exactly when some entry has it.
pub proof fn lemma_entries_map_dom(s: Seq<(String, JsonValue)>, k: Seq<char>)
    ensures
        entries_map(s).contains_key(k) <==> exists|i: int| 0 <= i < s.len() && #[trigger] s[i].0@ == k,
    decreases s.len(),
{
    if s.len() > 0 {
        lemma_entries_map_dom(s.drop_last(), k);
        if entries_map(s).contains_key(k) && s.last().0@ != k {
            let i = choose|i: int| 0 <= i < s.len() - 1 && #[trigger] s.drop_last()[i].0@ == k;
            assert(s[i].0@ == k);
        }
        if exists|i: int| 0 <= i < s.len() && #[trigger] s[i].0@ == k {
            let i = choose|i: int| 0 <= i < s.len() && #[trigger] s[i].0@ == k;
            if i < s.len() - 1 {
                assert(s.drop_last()[i].0@ == k);
            }
        }
    }
}

/// With distinct keys, the model maps each entry's key to that entry's value.
pub proof fn lemma_entries_map_index(s: Seq<(String, JsonValue)>, i: int)
    requires
        keys_distinct(s),
        0 <= i < s.len(),
    ensures
        entries_map(s).contains_key(s[i].0@),
        entries_map(s)[s[i].0@] == s[i].1@,
    decreases s.len(),
{
    if i < s.len() - 1 {
        let t = s.drop_last();
        assert(keys_distinct(t)) by {
            assert forall|a: int, b: int|
                0 <= a < t.len() && 0 <= b < t.len() && a != b implies #[trigger] t[a].0@
                != #[trigger] t[b].0@ by {
                assert(t[a] == s[a] && t[b] == s[b]);
            }
        }
        lemma_entries_map_index(t, i);
        assert(t[i] == s[i]);
        assert(s[i].0@ != s[s.len() - 1].0@);
    }
}

/// A JSON object: keys mapped to values, each key once.
#[derive(Debug)]
pub struct JsonMap {
    entries: Vec<(String, JsonValue)>,
}

impl View for JsonMap {
    type V = Map<Seq<char>, JsonView>;

    closed spec fn view(&self) -> Map<Seq<char>, JsonView> {
        entries_map(self.entries@)
    }
}

impl JsonMap {
    #[verifier::type_invariant]
    spec fn keys_are_distinct(&self) -> bool {
        keys_distinct(self.entries@)
    }

    /// The entries, in the order in which their keys were first inserted.
    pub closed spec fn pairs(&self) -> Seq<(String, JsonValue)> {
        self.entries@
    }

    /// An empty object.
    pub fn new() -> (r: Self)
        ensures
            r@ == Map::<Seq<char>, JsonView>::empty(),
    {
        JsonMap { entries: Vec::new() }
    }

    /// The entries, to walk the object in order.
    pub fn as_pairs(&self) -> (r: &Vec<(String, JsonValue)>)
        ensures
            r@ == self.pairs(),
            keys_distinct(r@),
            self@ == entries_map(r@),
    {
        proof {
            use_type_invariant(self);
        }
        &self.entries
    }

    fn position(&self, key: &String) -> (r: Option<usize>)
        ensures
            r matches Some(i) ==> i < self.entries@.len() && self.entries@[i as int].0@ == key@,
            r is None ==> forall|i: int|
                0 <= i < self.entries@.len() ==> #[trigger] self.entries@[i].0@ != key@,
    {
        let mut i: usize = 0;
        while i < self.entries.len()
            invariant
                i <= self.entries@.len(),
                forall|j: int| 0 <= j < i ==> #[trigger] self.entries@[j].0@ != key@,
            decreases self.entries@.len() - i,
        {
            if self.entries[i].0 == *key {
                return Some(i);
            }
            i = i + 1;
        }
        None
    }

    /// The value stored under `key`, if any.
    pub fn get(&self, key: &str) -> (r: Option<JsonValue>)
        ensures
            r is Some == self@.contains_key(key@),
            r matches Some(v) ==> v@ == self@[key@],
    {
        proof {
            use_type_invariant(self);
        }
        let k = key.to_owned();
        match self.position(&k) {
            Some(i) => {
                proof {
                    lemma_entries_map_index(self.entries@, i as int);
                }
                Some(self.entries[i].1.clone())
            },
            None => {
                proof {
                    lemma_entries_map_dom(self.entries@, key@);
                }
                None
            },
        }
    }

    /// Whether a value is stored under `key`.
    pub fn contains_key(&self, key: &str) -> (r: bool)
        ensures
            r == self@.contains_key(key@),
    {
        let k = key.to_owned();
        proof {
            lemma_entries_map_dom(self.entries@, key@);
        }
        self.position(&k).is_some()
    }

    /// Stores `value` under `key`, replacing what was there.
    pub fn insert(&mut self, key: String, value: JsonValue)
        ensures
            final(self)@ == old(self)@.insert(key@, value@),
    {
        proof {
            use_type_invariant(&*self);
        }
        let ghost old_entries = self.entries@;
        match self.position(&key) {
            Some(i) => {
                let mut entries: Vec<(String, JsonValue)> = Vec::new();
                std::mem::swap(&mut entries, &mut self.entries);
                entries.set(i, (key, value));
                proof {
                    lemma_set_entry(old_entries, i as int, entries@);
                }
                self.entries = entries;
            },
            None => {
                proof {
                    assert(keys_distinct(old_entries.push((key, value)))) by {
                        let s = old_entries.push((key, value));
                        assert forall|a: int, b: int|
                            0 <= a < s.len() && 0 <= b < s.len() && a != b implies #[trigger] s[a].0@
                            != #[trigger] s[b].0@ by {
                            if a < old_entries.len() && b < old_entries.len() {
                                assert(s[a] == old_entries[a] && s[b] == old_entries[b]);
                            } else if a < old_entries.len() {
                                assert(s[a] == old_entries[a]);
                            } else {
                                assert(s[b] == old_entries[b]);
                            }
                        }
                    }
                    assert(old_entries.push((key, value)).drop_last() =~= old_entries);
                }
                let mut entries: Vec<(String, JsonValue)> = Vec::new();
                std::mem::swap(&mut entries, &mut self.entries);
                entries.push((key, value));
                self.entries = entries;
            },
        }
    }

    /// Removes the value stored under `key` and hands it back.
    pub fn remove(&mut self, key: &str) -> (r: Option<JsonValue>)
        ensures
            r is Some == old(self)@.contains_key(key@),
            r matches Some(v) ==> v@ == old(self)@[key@],
            final(self)@ == old(self)@.remove(key@),
    {
        proof {
            use_type_invariant(&*self);
        }
        let k = key.to_owned();
        let ghost old_entries = self.entries@;
        match self.position(&k) {
            Some(i) => {
                proof {
                    lemma_entries_map_index(old_entries, i as int);
                }
                let mut entries: Vec<(String, JsonValue)> = Vec::new();
                std::mem::swap(&mut entries, &mut self.entries);
                let (_, v) = entries.remove(i);
                proof {
                    lemma_remove_entry(old_entries, i as int, entries@);
                }
                self.entries = entries;
                Some(v)
            },
            None => {
                proof {
                    lemma_entries_map_dom(old_entries, key@);
                    assert(entries_map(old_entries).remove(key@) =~= entries_map(old_entries));
                }
                None
            },
        }
    }
}

impl Clone for JsonMap {
    fn clone(&self) -> (r: Self)
        ensures
            r@ == self@,
            r.pairs() == self.pairs(),
    {
        proof {
            use_type_invariant(self);
        }
        let mut out: Vec<(String, JsonValue)> = Vec::new();
        let mut i: usize = 0;
        while i < self.entries.len()
            invariant
                i <= self.entries@.len(),
                out@ =~= self.entries@.take(i as int),
            decreases self.entries@.len() - i,
        {
            let k = self.entries[i].0.clone();
            let v = self.entries[i].1.clone();
            out.push((k, v));
            i = i + 1;
        }
        assert(self.entries@.take(self.entries@.len() as int) =~= self.entries@);
        JsonMap { entries: out }
    }
}

pub proof fn lemma_entries_map_finite(s: Seq<(String, JsonValue)>)
    ensures
        entries_map(s).dom().finite(),
    decreases s.len(),
{
    if s.len() > 0 {
        lemma_entries_map_finite(s.drop_last());
    }
}

/// Two distinct-keyed entry sequences with the same keys and values have the
/// same model.
proof fn lemma_same_model(s: Seq<(String, JsonValue)>, m: Map<Seq<char>, JsonView>)
    requires
        keys_distinct(s),
        forall|k: Seq<char>| m.contains_key(k) <==> exists|i: int| 0 <= i < s.len() && #[trigger] s[i].0@ == k,
        forall|i: int| 0 <= i < s.len() ==> m[#[trigger] s[i].0@] == s[i].1@,
    ensures
        entries_map(s) == m,
{
    assert forall|k: Seq<char>| #[trigger] entries_map(s).contains_key(k) <==> m.contains_key(k) by {
        lemma_entries_map_dom(s, k);
    }
    assert forall|k: Seq<char>| #[trigger] entries_map(s).contains_key(k) implies entries_map(s)[k] == m[k] by {
        lemma_entries_map_dom(s, k);
        let i = choose|i: int| 0 <= i < s.len() && #[trigger] s[i].0@ == k;
        lemma_entries_map_index(s, i);
    }
    assert(entries_map(s) =~= m);
}

proof fn lemma_set_entry(s: Seq<(String, JsonValue)>, i: int, t: Seq<(String, JsonValue)>)
    requires
        keys_distinct(s),
        0 <= i < s.len(),
        t.len() == s.len(),
        t[i].0@ == s[i].0@,
        forall|j: int| 0 <= j < s.len() && j != i ==> #[trigger] t[j] == s[j],
    ensures
        keys_distinct(t),
        entries_map(t) == entries_map(s).insert(t[i].0@, t[i].1@),
{
    let m = entries_map(s).insert(t[i].0@, t[i].1@);
    assert(keys_distinct(t)) by {
        assert forall|a: int, b: int|
            0 <= a < t.len() && 0 <= b < t.len() && a != b implies #[trigger] t[a].0@ != #[trigger] t[b].0@ by {
            if a != i {
                assert(t[a] == s[a]);
            }
            if b != i {
                assert(t[b] == s[b]);
            }
            assert(s[a].0@ != s[b].0@);
        }
    }
    assert forall|k: Seq<char>| m.contains_key(k) <==> exists|j: int| 0 <= j < t.len() && #[trigger] t[j].0@ == k by {
        lemma_entries_map_dom(s, k);
        if m.contains_key(k) && k != t[i].0@ {
            let j = choose|j: int| 0 <= j < s.len() && #[trigger] s[j].0@ == k;
            assert(t[j] == s[j]);
        }
        if exists|j: int| 0 <= j < t.len() && #[trigger] t[j].0@ == k {
            let j = choose|j: int| 0 <= j < t.len() && #[trigger] t[j].0@ == k;
            if j != i {
                assert(t[j] == s[j]);
                assert(s[j].0@ == k);
            }
        }
    }
    assert forall|j: int| 0 <= j < t.len() implies m[#[trigger] t[j].0@] == t[j].1@ by {
        if j != i {
            assert(t[j] == s[j]);
            lemma_entries_map_index(s, j);
            assert(s[j].0@ != s[i].0@);
        }
    }
    lemma_same_model(t, m);
}

proof fn lemma_remove_entry(s: Seq<(String, JsonValue)>, i: int, t: Seq<(String, JsonValue)>)
    requires
        keys_distinct(s),
        0 <= i < s.len(),
        t == s.remove(i),
    ensures
        keys_distinct(t),
        entries_map(t) == entries_map(s).remove(s[i].0@),
{
    let m = entries_map(s).remove(s[i].0@);
    assert forall|j: int| 0 <= j < t.len() implies #[trigger] t[j] == (if j < i {
        s[j]
    } else {
        s[j + 1]
    }) by {}
    assert(keys_distinct(t)) by {
        assert forall|a: int, b: int|
            0 <= a < t.len() && 0 <= b < t.len() && a != b implies #[trigger] t[a].0@ != #[trigger] t[b].0@ by {
            let a2 = if a < i { a } else { a + 1 };
            let b2 = if b < i { b } else { b + 1 };
            assert(t[a] == s[a2] && t[b] == s[b2]);
            assert(s[a2].0@ != s[b2].0@);
        }
    }
    assert forall|k: Seq<char>| m.contains_key(k) <==> exists|j: int| 0 <= j < t.len() && #[trigger] t[j].0@ == k by {
        lemma_entries_map_dom(s, k);
        if m.contains_key(k) {
            let j = choose|j: int| 0 <= j < s.len() && #[trigger] s[j].0@ == k;
            assert(j != i);
            if j < i {
                assert(t[j] == s[j]);
            } else {
                assert(t[j - 1] == s[j]);
            }
        }
        if exists|j: int| 0 <= j < t.len() && #[trigger] t[j].0@ == k {
            let j = choose|j: int| 0 <= j < t.len() && #[trigger] t[j].0@ == k;
            let j2 = if j < i { j } else { j + 1 };
            assert(t[j] == s[j2]);
            assert(s[j2].0@ != s[i].0@);
        }
    }
    assert forall|j: int| 0 <= j < t.len() implies m[#[trigger] t[j].0@] == t[j].1@ by {
        let j2 = if j < i { j } else { j + 1 };
        assert(t[j] == s[j2]);
        lemma_entries_map_index(s, j2);
        assert(s[j2].0@ != s[i].0@);
    }
    lemma_same_model(t, m);
}

} // verus!
