use prisma_desktop::json::{JsonMap, JsonNumber, JsonValue};
use prisma_desktop::services::store::{push_mirror_history, AppStore, MIRROR_HISTORY_LIMIT};

#[test]
fn history_keeps_latest_first_without_duplicates() {
    let history = vec!["http://a".to_string(), "http://b".to_string()];

    assert_eq!(
        push_mirror_history(&history, "http://b", 8),
        vec!["http://b", "http://a"]
    );
    assert_eq!(
        push_mirror_history(&history, "  ", 8),
        history,
        "пустой адрес не должен попадать в историю"
    );
    assert_eq!(push_mirror_history(&history, "http://c", 2).len(), 2);
}

#[test]
fn history_respects_the_limit() {
    let mut history: Vec<String> = Vec::new();
    for i in 0..20 {
        history = push_mirror_history(&history, &format!("http://{i}"), MIRROR_HISTORY_LIMIT);
    }

    assert_eq!(history.len(), MIRROR_HISTORY_LIMIT);
    assert_eq!(history[0], "http://19");
}

#[test]
fn existing_installs_are_migrated_as_confirmed() {
    let mut file = JsonMap::new();
    file.insert("prismaUrl".to_string(), JsonValue::Str("http://mirror.tld".to_string()));

    let store = AppStore::load(Some(file));
    assert_eq!(store.get("mirrorConfirmed"), Some(JsonValue::Bool(true)));
    assert_eq!(
        store.get("prismaUrl"),
        Some(JsonValue::Str("http://mirror.tld".to_string()))
    );
}

#[test]
fn fresh_install_starts_unconfirmed() {
    let store = AppStore::load(None);
    assert_eq!(store.get("mirrorConfirmed"), Some(JsonValue::Bool(false)));
}

#[test]
fn history_trims_the_address() {
    let history = vec!["http://a".to_string()];
    assert_eq!(
        push_mirror_history(&history, "\t http://b \n", 8),
        vec!["http://b", "http://a"]
    );
    assert_eq!(
        push_mirror_history(&history, "\u{3000}http://a\u{a0}", 8),
        vec!["http://a"]
    );
}

#[test]
fn history_limit_zero_keeps_one() {
    let history = vec!["http://a".to_string(), "http://b".to_string()];
    assert_eq!(push_mirror_history(&history, "http://c", 0), vec!["http://c"]);
}

#[test]
fn history_same_mirror_twice_is_same_as_once() {
    let history = vec!["http://a".to_string(), "http://b".to_string(), "http://c".to_string()];
    let once = push_mirror_history(&history, "http://b", 2);
    let twice = push_mirror_history(&once, "http://b", 2);
    assert_eq!(once, vec!["http://b", "http://a"]);
    assert_eq!(twice, once);
}

#[test]
fn history_without_duplicates_stays_so() {
    let mut history: Vec<String> = Vec::new();
    for url in ["http://a", "http://b", "http://a", "http://c", "http://b", "http://b"] {
        history = push_mirror_history(&history, url, 8);
    }
    assert_eq!(history, vec!["http://b", "http://c", "http://a"]);
}

#[test]
fn store_defaults() {
    let store = AppStore::load(None);
    assert_eq!(store.get("prismaUrl"), Some(JsonValue::Str("http://prisma.ws".to_string())));
    assert_eq!(store.get("mirrorHistory"), Some(JsonValue::Array("[]".to_string())));
    assert_eq!(store.get("windowState"), Some(JsonValue::Object("{}".to_string())));
    assert_eq!(store.get("tsVersion"), Some(JsonValue::Null));
    assert_eq!(store.get("tsPort"), Some(JsonValue::Number(JsonNumber::Unsigned(8090))));
    assert_eq!(store.get("autoUpdate"), Some(JsonValue::Bool(true)));
    assert_eq!(store.get("missing"), None);
    assert_eq!(store.snapshot().as_pairs().len(), 10);
}

#[test]
fn file_settings_win_and_confirmation_is_kept() {
    let mut file = JsonMap::new();
    file.insert("mirrorConfirmed".to_string(), JsonValue::Bool(false));
    file.insert("tsPort".to_string(), JsonValue::Number(JsonNumber::Unsigned(9000)));
    file.insert("extra".to_string(), JsonValue::Str("x".to_string()));
    let store = AppStore::load(Some(file));
    assert_eq!(store.get("mirrorConfirmed"), Some(JsonValue::Bool(false)));
    assert_eq!(store.get("tsPort"), Some(JsonValue::Number(JsonNumber::Unsigned(9000))));
    assert_eq!(store.get("extra"), Some(JsonValue::Str("x".to_string())));
    assert_eq!(store.get("fullscreen"), Some(JsonValue::Bool(false)));
}

#[test]
fn get_after_set_and_delete() {
    let mut store = AppStore::load(None);
    store.set("prismaUrl".to_string(), JsonValue::Str("http://mirror.tld".to_string()));
    assert_eq!(store.get("prismaUrl"), Some(JsonValue::Str("http://mirror.tld".to_string())));
    assert!(store.has("prismaUrl"));
    assert!(store.delete("prismaUrl"));
    assert!(!store.has("prismaUrl"));
    assert_eq!(store.get("prismaUrl"), None);
    assert!(!store.delete("prismaUrl"));
    assert_eq!(store.get("fullscreen"), Some(JsonValue::Bool(false)));
}

#[test]
fn json_map_keeps_one_entry_per_key() {
    let mut m = JsonMap::new();
    m.insert("a".to_string(), JsonValue::Bool(true));
    m.insert("b".to_string(), JsonValue::Null);
    m.insert("a".to_string(), JsonValue::Bool(false));
    assert_eq!(m.as_pairs().len(), 2);
    assert_eq!(m.get("a"), Some(JsonValue::Bool(false)));
    assert_eq!(m.remove("a"), Some(JsonValue::Bool(false)));
    assert_eq!(m.remove("a"), None);
    assert!(m.contains_key("b"));
    let copy = m.clone();
    assert_eq!(copy.get("b"), Some(JsonValue::Null));
}

#[test]
fn json_value_accessors() {
    assert_eq!(JsonValue::Number(JsonNumber::Unsigned(5)).as_u64(), Some(5));
    assert_eq!(JsonValue::Number(JsonNumber::Signed(-5)).as_u64(), None);
    assert_eq!(JsonValue::Str("s".to_string()).as_string(), Some("s".to_string()));
    assert_eq!(JsonValue::Null.as_string(), None);
    assert_eq!(JsonValue::Bool(true).as_bool(), Some(true));
    assert_eq!(JsonValue::Array("[]".to_string()).as_bool(), None);
}

#[test]
fn settings_survive_a_reload() {
    let mut store = AppStore::load(None);
    store.set("prismaUrl".to_string(), JsonValue::Str("http://mirror.tld".to_string()));
    let reloaded = AppStore::load(Some(store.snapshot()));
    assert_eq!(reloaded.get("prismaUrl"), Some(JsonValue::Str("http://mirror.tld".to_string())));
    assert_eq!(reloaded.get("mirrorConfirmed"), Some(JsonValue::Bool(false)));
    assert_eq!(reloaded.snapshot().as_pairs().len(), 10);
}
