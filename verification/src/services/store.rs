//! The application's settings store: a JSON object of named settings with
//! defaults, and the history of mirrors the user has worked with.
//!
//! Reading the store file and writing it back stay with the caller: this
//! module decides what the store holds.
use vstd::prelude::*;
use crate::json::{JsonMap, JsonNumber, JsonValue, JsonView};
use crate::text::{trim_spec, trim_whitespace};

verus! {

/// How many mirrors the history keeps.
pub const MIRROR_HISTORY_LIMIT: usize = 8;

/// The settings a fresh installation starts with.
pub open spec fn default_store_spec() -> Map<Seq<char>, JsonView> {
    Map::empty()
        .insert("prismaUrl"@, JsonView::Str("http://prisma.ws"@))
        .insert("mirrorConfirmed"@, JsonView::Bool(false))
        .insert("mirrorHistory"@, JsonView::Array("[]"@))
        .insert("fullscreen"@, JsonView::Bool(false))
        .insert("autoUpdate"@, JsonView::Bool(true))
        .insert("windowState"@, JsonView::Object("{}"@))
        .insert("tsVersion"@, JsonView::Null)
        .insert("tsPath"@, JsonView::Null)
        .insert("tsAutoStart"@, JsonView::Bool(false))
        .insert("tsPort"@, JsonView::Unsigned(8090))
}

/// What a store holds after loading: the defaults, overridden by every
/// setting found in the store file. A file written before mirrors had to
/// be confirmed counts as confirmed.
pub open spec fn loaded_store_spec(existing: Option<Map<Seq<char>, JsonView>>) -> Map<
    Seq<char>,
    JsonView,
> {
    match existing {
        None => default_store_spec(),
        Some(file) => {
            let merged = default_store_spec().union_prefer_right(file);
            if file.contains_key("mirrorConfirmed"@) {
                merged
            } else {
                merged.insert("mirrorConfirmed"@, JsonView::Bool(true))
            }
        },
    }
}

/// What looking a key up in a store with model `m` gives.
pub open spec fn lookup_spec(m: Map<Seq<char>, JsonView>, key: Seq<char>) -> Option<JsonView> {
    if m.contains_key(key) {
        Some(m[key])
    } else {
        None
    }
}

fn default_store() -> (r: JsonMap)
    ensures
        r@ == default_store_spec(),
{
    let mut map = JsonMap::new();
    map.insert("prismaUrl".to_owned(), JsonValue::Str("http://prisma.ws".to_owned()));
    map.insert("mirrorConfirmed".to_owned(), JsonValue::Bool(false));
    map.insert("mirrorHistory".to_owned(), JsonValue::Array("[]".to_owned()));
    map.insert("fullscreen".to_owned(), JsonValue::Bool(false));
    map.insert("autoUpdate".to_owned(), JsonValue::Bool(true));
    map.insert("windowState".to_owned(), JsonValue::Object("{}".to_owned()));
    map.insert("tsVersion".to_owned(), JsonValue::Null);
    map.insert("tsPath".to_owned(), JsonValue::Null);
    map.insert("tsAutoStart".to_owned(), JsonValue::Bool(false));
    map.insert("tsPort".to_owned(), JsonValue::Number(JsonNumber::Unsigned(8090)));
    map
}

/// The application's settings.
#[derive(Debug)]
pub struct AppStore {
    data: JsonMap,
}

impl View for AppStore {
    type V = Map<Seq<char>, JsonView>;

    closed spec fn view(&self) -> Map<Seq<char>, JsonView> {
        self.data@
    }
}

impl AppStore {
    /// The store for a file whose contents were `existing`: the JSON object
    /// it held, or `None` when it could not be read or held no object.
    pub fn load(existing: Option<JsonMap>) -> (r: Self)
        ensures
            r@ == loaded_store_spec(
                match existing {
                    Some(m) => Some(m@),
                    None => None,
                },
            ),
    {
        let mut data = default_store();
        if let Some(file) = existing {
            let migrated = !file.contains_key("mirrorConfirmed");
            let ghost merged = default_store_spec().union_prefer_right(file@);
            let pairs = file.as_pairs();
            let mut i: usize = 0;
            while i < pairs.len()
                invariant
                    i <= pairs@.len(),
                    crate::json::keys_distinct(pairs@),
                    file@ == crate::json::entries_map(pairs@),
                    data@ == default_store_spec().union_prefer_right(
                        crate::json::entries_map(pairs@.take(i as int)),
                    ),
                decreases pairs@.len() - i,
            {
                let k = pairs[i].0.clone();
                let v = pairs[i].1.clone();
                proof {
                    let t = pairs@.take(i as int + 1);
                    assert(t.drop_last() =~= pairs@.take(i as int));
                    assert(t.last() == pairs@[i as int]);
                }
                data.insert(k, v);
                proof {
                    let a = crate::json::entries_map(pairs@.take(i as int));
                    assert(default_store_spec().union_prefer_right(a).insert(pairs@[i as int].0@, pairs@[i as int].1@)
                        =~= default_store_spec().union_prefer_right(a.insert(pairs@[i as int].0@, pairs@[i as int].1@)));
                }
                i = i + 1;
            }
            proof {
                assert(pairs@.take(pairs@.len() as int) =~= pairs@);
            }
            if migrated {
                data.insert("mirrorConfirmed".to_owned(), JsonValue::Bool(true));
            }
        }
        AppStore { data }
    }

    /// The value stored under `key`, if any.
    pub fn get(&self, key: &str) -> (r: Option<JsonValue>)
        ensures
            match r {
                Some(v) => lookup_spec(self@, key@) == Some(v@),
                None => lookup_spec(self@, key@) is None,
            },
    {
        self.data.get(key)
    }

    /// Whether a value is stored under `key`.
    pub fn has(&self, key: &str) -> (r: bool)
        ensures
            r == self@.contains_key(key@),
    {
        self.data.contains_key(key)
    }

    /// Stores `value` under `key`; the caller then writes the store back.
    pub fn set(&mut self, key: String, value: JsonValue)
        ensures
            final(self)@ == old(self)@.insert(key@, value@),
    {
        self.data.insert(key, value);
    }

    /// All settings, as one JSON object.
    pub fn snapshot(&self) -> (r: JsonMap)
        ensures
            r@ == self@,
    {
        self.data.clone()
    }

    /// Removes the value stored under `key`. Returns whether there was one:
    /// only then has the store changed and needs writing back.
    pub fn delete(&mut self, key: &str) -> (r: bool)
        ensures
            r == old(self)@.contains_key(key@),
            final(self)@ == old(self)@.remove(key@),
    {
        self.data.remove(key).is_some()
    }
}

/// The views of a sequence of strings.
pub open spec fn string_views(s: Seq<String>) -> Seq<Seq<char>> {
    s.map_values(|x: String| x@)
}

/// `h` without the entries equal to `u`, in the same order.
pub open spec fn without(h: Seq<Seq<char>>, u: Seq<char>) -> Seq<Seq<char>>
    decreases h.len(),
{
    if h.len() == 0 {
        h
    } else if h.last() == u {
        without(h.drop_last(), u)
    } else {
        without(h.drop_last(), u).push(h.last())
    }
}

/// The length the history is cut to: `limit`, but at least one.
pub open spec fn history_cap(limit: nat) -> nat {
    if limit == 0 {
        1
    } else {
        limit
    }
}

/// The history after the user has worked with mirror `url`: the trimmed
/// address goes first, its earlier occurrences are dropped, and the list
/// is cut to the limit. A blank address leaves the history as it is.
pub open spec fn mirror_history_spec(history: Seq<Seq<char>>, url: Seq<char>, limit: nat) -> Seq<Seq<char>> {
    let u = trim_spec(url);
    if u.len() == 0 {
        history
    } else {
        let all = seq![u] + without(history, u);
        if all.len() <= history_cap(limit) {
            all
        } else {
            all.take(history_cap(limit) as int)
        }
    }
}

/// Puts the mirror `url` at the front of `history`, drops its earlier
/// occurrences, and keeps at most `limit` entries (at least one).
pub fn push_mirror_history(history: &[String], url: &str, limit: usize) -> (r: Vec<String>)
    ensures
        string_views(r@) == mirror_history_spec(string_views(history@), url@, limit as nat),
{
    let u = trim_whitespace(url);
    if u.is_empty() {
        let mut copy: Vec<String> = Vec::new();
        let mut i: usize = 0;
        while i < history.len()
            invariant
                i <= history@.len(),
                copy@ =~= history@.take(i as int),
            decreases history@.len() - i,
        {
            copy.push(history[i].clone());
            i = i + 1;
        }
        assert(history@.take(history@.len() as int) =~= history@);
        return copy;
    }
    let first = u.to_owned();
    let ghost hv = string_views(history@);
    let mut result: Vec<String> = Vec::new();
    result.push(first.clone());
    let mut i: usize = 0;
    while i < history.len()
        invariant
            i <= history@.len(),
            hv == string_views(history@),
            first@ == trim_spec(url@),
            string_views(result@) =~= seq![first@] + without(hv.take(i as int), first@),
        decreases history@.len() - i,
    {
        proof {
            assert(hv.take(i as int + 1).drop_last() =~= hv.take(i as int));
            assert(hv.take(i as int + 1).last() == history@[i as int]@);
        }
        let ghost prev = result@;
        if !(history[i] == first) {
            result.push(history[i].clone());
            proof {
                assert(string_views(result@) =~= string_views(prev).push(history@[i as int]@));
            }
        }
        i = i + 1;
    }
    proof {
        assert(hv.take(history@.len() as int) =~= hv);
    }
    let cap = if limit == 0 {
        1
    } else {
        limit
    };
    let ghost before = result@;
    result.truncate(cap);
    proof {
        if cap < before.len() {
            assert(string_views(result@) =~= string_views(before).take(cap as int));
        }
    }
    result
}

} // verus!

verus! {

/// No entry occurs twice.
pub open spec fn no_duplicates(s: Seq<Seq<char>>) -> bool {
    forall|i: int, j: int| 0 <= i < s.len() && 0 <= j < s.len() && i != j ==> s[i] != s[j]
}

/// Every entry left by `without` comes from `h` and differs from `u`.
pub proof fn lemma_without_members(h: Seq<Seq<char>>, u: Seq<char>)
    ensures
        without(h, u).len() <= h.len(),
        forall|k: int| 0 <= k < without(h, u).len() ==> #[trigger] without(h, u)[k] != u && h.contains(without(h, u)[k]),
    decreases h.len(),
{
    if h.len() > 0 {
        let t = h.drop_last();
        lemma_without_members(t, u);
        assert forall|k: int| 0 <= k < without(h, u).len() implies #[trigger] without(h, u)[k] != u && h.contains(without(h, u)[k]) by {
            if k < without(t, u).len() {
                assert(without(h, u)[k] == without(t, u)[k]);
                let j = choose|j: int| 0 <= j < t.len() && t[j] == without(t, u)[k];
                assert(h[j] == t[j]);
            } else {
                assert(without(h, u)[k] == h.last());
                assert(h[h.len() - 1] == h.last());
            }
        }
    }
}

/// Dropping entries keeps a list free of duplicates.
pub proof fn lemma_without_no_duplicates(h: Seq<Seq<char>>, u: Seq<char>)
    requires
        no_duplicates(h),
    ensures
        no_duplicates(without(h, u)),
    decreases h.len(),
{
    if h.len() > 0 {
        let t = h.drop_last();
        assert(no_duplicates(t)) by {
            assert forall|i: int, j: int| 0 <= i < t.len() && 0 <= j < t.len() && i != j implies t[i] != t[j] by {
                assert(t[i] == h[i] && t[j] == h[j]);
            }
        }
        lemma_without_no_duplicates(t, u);
        lemma_without_members(t, u);
        if h.last() != u {
            let w = without(t, u);
            assert forall|i: int, j: int| 0 <= i < w.push(h.last()).len() && 0 <= j < w.push(h.last()).len() && i != j
                implies w.push(h.last())[i] != w.push(h.last())[j] by {
                if i == w.len() || j == w.len() {
                    let k = if i == w.len() { j } else { i };
                    assert(t.contains(w[k]));
                    let m = choose|m: int| 0 <= m < t.len() && t[m] == w[k];
                    assert(h[m] == t[m]);
                    assert(h[h.len() - 1] == h.last());
                }
            }
        }
    }
}

/// Removing `u` from a concatenation removes it from both parts.
pub proof fn lemma_without_append(a: Seq<Seq<char>>, b: Seq<Seq<char>>, u: Seq<char>)
    ensures
        without(a + b, u) == without(a, u) + without(b, u),
    decreases b.len(),
{
    if b.len() == 0 {
        assert(a + b =~= a);
        assert(without(a, u) + without(b, u) =~= without(a, u));
    } else {
        lemma_without_append(a, b.drop_last(), u);
        assert((a + b).drop_last() =~= a + b.drop_last());
        assert((a + b).last() == b.last());
        if b.last() != u {
            assert(without(a, u) + without(b.drop_last(), u).push(b.last())
                =~= (without(a, u) + without(b.drop_last(), u)).push(b.last()));
        }
    }
}

/// A list without `u` is left as it is.
pub proof fn lemma_without_absent(h: Seq<Seq<char>>, u: Seq<char>)
    requires
        !h.contains(u),
    ensures
        without(h, u) == h,
    decreases h.len(),
{
    if h.len() > 0 {
        assert(h[h.len() - 1] == h.last());
        assert(!h.drop_last().contains(u)) by {
            if h.drop_last().contains(u) {
                let j = choose|j: int| 0 <= j < h.drop_last().len() && h.drop_last()[j] == u;
                assert(h[j] == u);
            }
        }
        lemma_without_absent(h.drop_last(), u);
        assert(h.drop_last().push(h.last()) =~= h);
    }
}

/// Looking up a key right after storing a value under it gives that value,
/// and the other keys keep theirs.
pub proof fn law_get_after_set(m: Map<Seq<char>, JsonView>, key: Seq<char>, value: JsonView, other: Seq<char>)
    requires
        other != key,
    ensures
        lookup_spec(m.insert(key, value), key) == Some(value),
        lookup_spec(m.insert(key, value), other) == lookup_spec(m, other),
{
}

/// After a key is deleted nothing is stored under it, and the other keys
/// keep their values.
pub proof fn law_get_after_delete(m: Map<Seq<char>, JsonView>, key: Seq<char>, other: Seq<char>)
    requires
        other != key,
    ensures
        lookup_spec(m.remove(key), key) is None,
        lookup_spec(m.remove(key), other) == lookup_spec(m, other),
{
}

/// Loading a store file keeps every setting the file holds; the defaults
/// fill in the settings it lacks.
pub proof fn law_load_keeps_file_settings(file: Map<Seq<char>, JsonView>, key: Seq<char>)
    ensures
        file.contains_key(key) ==> lookup_spec(loaded_store_spec(Some(file)), key) == Some(file[key]),
        !file.contains_key(key) && key != "mirrorConfirmed"@ ==> lookup_spec(loaded_store_spec(Some(file)), key)
            == lookup_spec(default_store_spec(), key),
{
}

/// A fresh installation (no readable store file) starts with the mirror
/// unconfirmed; a store file written before mirrors had to be confirmed
/// loads as confirmed.
pub proof fn law_mirror_confirmation_on_load(file: Map<Seq<char>, JsonView>)
    ensures
        lookup_spec(loaded_store_spec(None), "mirrorConfirmed"@) == Some(JsonView::Bool(false)),
        !file.contains_key("mirrorConfirmed"@) ==> lookup_spec(loaded_store_spec(Some(file)), "mirrorConfirmed"@)
            == Some(JsonView::Bool(true)),
{
    reveal_strlit("mirrorConfirmed");
    reveal_strlit("mirrorHistory");
    reveal_strlit("fullscreen");
    reveal_strlit("autoUpdate");
    reveal_strlit("windowState");
    reveal_strlit("tsVersion");
    reveal_strlit("tsPath");
    reveal_strlit("tsAutoStart");
    reveal_strlit("tsPort");
    assert("mirrorHistory"@.len() != "mirrorConfirmed"@.len());
    assert("fullscreen"@.len() != "mirrorConfirmed"@.len());
    assert("autoUpdate"@.len() != "mirrorConfirmed"@.len());
    assert("windowState"@.len() != "mirrorConfirmed"@.len());
    assert("tsVersion"@.len() != "mirrorConfirmed"@.len());
    assert("tsPath"@.len() != "mirrorConfirmed"@.len());
    assert("tsAutoStart"@.len() != "mirrorConfirmed"@.len());
    assert("tsPort"@.len() != "mirrorConfirmed"@.len());
}

/// The mirror just used is the first entry of the new history, and the
/// history never grows beyond its limit (at least one entry).
pub proof fn law_history_fresh_first_and_bounded(history: Seq<Seq<char>>, url: Seq<char>, limit: nat)
    requires
        trim_spec(url).len() > 0,
    ensures
        mirror_history_spec(history, url, limit).len() > 0,
        mirror_history_spec(history, url, limit)[0] == trim_spec(url),
        mirror_history_spec(history, url, limit).len() <= history_cap(limit),
{
}

/// A blank address leaves the history unchanged.
pub proof fn law_history_blank_unchanged(history: Seq<Seq<char>>, url: Seq<char>, limit: nat)
    requires
        trim_spec(url).len() == 0,
    ensures
        mirror_history_spec(history, url, limit) == history,
{
}

/// A history free of duplicates stays free of them, and every entry of the
/// new history is the new mirror or was in the old history.
pub proof fn law_history_no_duplicates(history: Seq<Seq<char>>, url: Seq<char>, limit: nat)
    requires
        no_duplicates(history),
    ensures
        no_duplicates(mirror_history_spec(history, url, limit)),
        forall|k: int| 0 <= k < mirror_history_spec(history, url, limit).len() ==> {
            let e = #[trigger] mirror_history_spec(history, url, limit)[k];
            e == trim_spec(url) || history.contains(e)
        },
{
    let u = trim_spec(url);
    if u.len() > 0 {
        let w = without(history, u);
        lemma_without_no_duplicates(history, u);
        lemma_without_members(history, u);
        let all = seq![u] + w;
        assert(no_duplicates(all)) by {
            assert forall|i: int, j: int| 0 <= i < all.len() && 0 <= j < all.len() && i != j implies all[i] != all[j] by {
                if i > 0 && j > 0 {
                    assert(all[i] == w[i - 1] && all[j] == w[j - 1]);
                } else if i == 0 {
                    assert(all[j] == w[j - 1]);
                } else {
                    assert(all[i] == w[i - 1]);
                }
            }
        }
        let r = mirror_history_spec(history, url, limit);
        assert forall|k: int| 0 <= k < r.len() implies {
            let e = #[trigger] r[k];
            e == u || history.contains(e)
        } by {
            assert(r[k] == all[k]);
            if k > 0 {
                assert(all[k] == w[k - 1]);
            }
        }
        assert forall|i: int, j: int| 0 <= i < r.len() && 0 <= j < r.len() && i != j implies r[i] != r[j] by {
            assert(r[i] == all[i] && r[j] == all[j]);
        }
    }
}

/// Using the same mirror twice in a row gives the same history as using it
/// once.
pub proof fn law_history_idempotent(history: Seq<Seq<char>>, url: Seq<char>, limit: nat)
    ensures
        mirror_history_spec(mirror_history_spec(history, url, limit), url, limit)
            == mirror_history_spec(history, url, limit),
{
    let u = trim_spec(url);
    if u.len() > 0 {
        let w = without(history, u);
        let c = history_cap(limit);
        let r = mirror_history_spec(history, url, limit);
        lemma_without_members(history, u);
        let rest = r.drop_first();
        assert(r =~= seq![u] + rest);
        assert(!rest.contains(u)) by {
            if rest.contains(u) {
                let j = choose|j: int| 0 <= j < rest.len() && rest[j] == u;
                assert(rest[j] == (seq![u] + w)[j + 1]);
                assert(w[j] == u);
            }
        }
        lemma_without_append(seq![u], rest, u);
        lemma_without_absent(rest, u);
        assert(without(seq![u], u) =~= seq![]) by {
            assert(seq![u].drop_last() =~= Seq::<Seq<char>>::empty());
            assert(without(Seq::<Seq<char>>::empty(), u) == Seq::<Seq<char>>::empty());
        }
        assert(without(r, u) =~= rest);
        assert(seq![u] + without(r, u) =~= r);
    }
}

} // verus!

verus! {

/// A loaded store holds every default setting.
pub proof fn law_load_has_defaults(existing: Option<Map<Seq<char>, JsonView>>, key: Seq<char>)
    ensures
        default_store_spec().contains_key(key) ==> loaded_store_spec(existing).contains_key(key),
{
}

/// Writing a store's settings out and loading them back gives the same
/// settings, as long as none of the default settings was deleted.
pub proof fn law_reload_round_trip(saved: Map<Seq<char>, JsonView>)
    requires
        default_store_spec().dom().subset_of(saved.dom()),
    ensures
        loaded_store_spec(Some(saved)) == saved,
{
    reveal_strlit("mirrorConfirmed");
    assert(default_store_spec().contains_key("mirrorConfirmed"@));
    assert(default_store_spec().union_prefer_right(saved) =~= saved);
}

} // verus!
