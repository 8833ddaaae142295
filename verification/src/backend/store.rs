//! The settings store that the TorrServer manager reads: a JSON object of
//! named settings over a set of defaults.
//!
//! Reading the store file and writing it back stay with the caller: this
//! module decides what the store holds.
use vstd::prelude::*;
use crate::json::{JsonMap, JsonNumber, JsonValue, JsonView};
use crate::services::store::lookup_spec;

verus! {

/// The settings this store starts with.
pub open spec fn default_store_spec() -> Map<Seq<char>, JsonView> {
    Map::empty()
        .insert("prismaUrl"@, JsonView::Str("http://prisma.ws"@))
        .insert("fullscreen"@, JsonView::Bool(false))
        .insert("autoUpdate"@, JsonView::Bool(true))
        .insert("windowState"@, JsonView::Object("{}"@))
        .insert("tsVersion"@, JsonView::Null)
        .insert("tsPath"@, JsonView::Null)
        .insert("tsAutoStart"@, JsonView::Bool(false))
        .insert("tsPort"@, JsonView::Unsigned(8090))
}

/// What the store holds after loading: the defaults, overridden by every
/// setting found in the store file.
pub open spec fn loaded_store_spec(existing: Option<Map<Seq<char>, JsonView>>) -> Map<
    Seq<char>,
    JsonView,
> {
    match existing {
        None => default_store_spec(),
        Some(file) => default_store_spec().union_prefer_right(file),
    }
}

fn default_store() -> (r: JsonMap)
    ensures
        r@ == default_store_spec(),
{
    let mut map = JsonMap::new();
    map.insert("prismaUrl".to_owned(), JsonValue::Str("http://prisma.ws".to_owned()));
    map.insert("fullscreen".to_owned(), JsonValue::Bool(false));
    map.insert("autoUpdate".to_owned(), JsonValue::Bool(true));
    map.insert("windowState".to_owned(), JsonValue::Object("{}".to_owned()));
    map.insert("tsVersion".to_owned(), JsonValue::Null);
    map.insert("tsPath".to_owned(), JsonValue::Null);
    map.insert("tsAutoStart".to_owned(), JsonValue::Bool(false));
    map.insert("tsPort".to_owned(), JsonValue::Number(JsonNumber::Unsigned(8090)));
    map
}

/// The settings the TorrServer manager reads and writes.
#[derive(Debug)]
pub struct AppStore {
    data: JsonMap,
}

impl View for AppStore {
    type V = Map<Seq<char>, JsonView>;

    closed spec fn view(&self) -> Map<Seq<char>, JsonView> {
        self.data@
    }
}

impl AppStore {
    /// The store for a file whose contents were `existing`: the JSON object
    /// it held, or `None` when it could not be read or held no object.
    pub fn load(existing: Option<JsonMap>) -> (r: Self)
        ensures
            r@ == loaded_store_spec(
                match existing {
                    Some(m) => Some(m@),
                    None => None,
                },
            ),
    {
        let mut data = default_store();
        if let Some(file) = existing {
            let pairs = file.as_pairs();
            let mut i: usize = 0;
            while i < pairs.len()
                invariant
                    i <= pairs@.len(),
                    file@ == crate::json::entries_map(pairs@),
                    data@ == default_store_spec().union_prefer_right(
                        crate::json::entries_map(pairs@.take(i as int)),
                    ),
                decreases pairs@.len() - i,
            {
                let k = pairs[i].0.clone();
                let v = pairs[i].1.clone();
                proof {
                    let t = pairs@.take(i as int + 1);
                    assert(t.drop_last() =~= pairs@.take(i as int));
                    assert(t.last() == pairs@[i as int]);
                }
                data.insert(k, v);
                proof {
                    let a = crate::json::entries_map(pairs@.take(i as int));
                    assert(default_store_spec().union_prefer_right(a).insert(pairs@[i as int].0@, pairs@[i as int].1@)
                        =~= default_store_spec().union_prefer_right(a.insert(pairs@[i as int].0@, pairs@[i as int].1@)));
                }
                i = i + 1;
            }
            proof {
                assert(pairs@.take(pairs@.len() as int) =~= pairs@);
            }
        }
        AppStore { data }
    }

    /// The value stored under `key`, if any.
    pub fn get(&self, key: &str) -> (r: Option<JsonValue>)
        ensures
            match r {
                Some(v) => lookup_spec(self@, key@) == Some(v@),
                None => lookup_spec(self@, key@) is None,
            },
    {
        self.data.get(key)
    }

    /// Whether a value is stored under `key`.
    pub fn has(&self, key: &str) -> (r: bool)
        ensures
            r == self@.contains_key(key@),
    {
        self.data.contains_key(key)
    }

    /// Stores `value` under `key`; the caller then writes the store back.
    pub fn set(&mut self, key: String, value: JsonValue)
        ensures
            final(self)@ == old(self)@.insert(key@, value@),
    {
        self.data.insert(key, value);
    }

    /// All settings, as one JSON object.
    pub fn snapshot(&self) -> (r: JsonMap)
        ensures
            r@ == self@,
    {
        self.data.clone()
    }

    /// Removes the value stored under `key`. Returns whether there was one:
    /// only then has the store changed and needs writing back.
    pub fn delete(&mut self, key: &str) -> (r: bool)
        ensures
            r == old(self)@.contains_key(key@),
            final(self)@ == old(self)@.remove(key@),
    {
        self.data.remove(key).is_some()
    }
}

/// Loading keeps every setting the file holds; the defaults fill in the
/// rest.
pub proof fn law_load_keeps_file_settings(file: Map<Seq<char>, JsonView>, key: Seq<char>)
    ensures
        file.contains_key(key) ==> lookup_spec(loaded_store_spec(Some(file)), key) == Some(file[key]),
        !file.contains_key(key) ==> lookup_spec(loaded_store_spec(Some(file)), key)
            == lookup_spec(default_store_spec(), key),
{
}

} // verus!

verus! {

/// Writing the settings out and loading them back gives the same settings,
/// as long as none of the default settings was deleted.
pub proof fn law_reload_round_trip(saved: Map<Seq<char>, JsonView>)
    requires
        default_store_spec().dom().subset_of(saved.dom()),
    ensures
        loaded_store_spec(Some(saved)) == saved,
{
    assert(default_store_spec().union_prefer_right(saved) =~= saved);
}

} // verus!
