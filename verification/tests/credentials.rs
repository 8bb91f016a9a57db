use translator_backend::credentials::CredentialStore;

fn s(text: &str) -> String {
    text.to_string()
}

#[test]
fn store_then_get_returns_the_value() {
    let mut store = CredentialStore::new();
    store.store_credential(s("deepl"), s("primary"), s("secret-1"));
    assert_eq!(store.get_credential(s("deepl"), s("primary")), Some(s("secret-1")));
}

#[test]
fn delete_then_get_returns_none() {
    let mut store = CredentialStore::new();
    store.store_credential(s("deepl"), s("primary"), s("secret-1"));
    store.delete_credential(s("deepl"), s("primary"));
    assert_eq!(store.get_credential(s("deepl"), s("primary")), None);
}

#[test]
fn get_on_empty_store_returns_none() {
    let store = CredentialStore::new();
    assert_eq!(store.get_credential(s("openai"), s("default")), None);
}

#[test]
fn overwrite_replaces_the_whole_value() {
    let mut store = CredentialStore::new();
    store.store_credential(s("google"), s("default"), s("a-long-first-value"));
    store.store_credential(s("google"), s("default"), s("second"));
    assert_eq!(store.get_credential(s("google"), s("default")), Some(s("second")));
}

#[test]
fn services_with_one_key_do_not_collide() {
    let mut store = CredentialStore::new();
    store.store_credential(s("openai"), s("default"), s("sk-openai"));
    store.store_credential(s("deepl"), s("default"), s("dl-key"));
    assert_eq!(store.get_credential(s("openai"), s("default")), Some(s("sk-openai")));
    assert_eq!(store.get_credential(s("deepl"), s("default")), Some(s("dl-key")));
    store.delete_credential(s("openai"), s("default"));
    assert_eq!(store.get_credential(s("openai"), s("default")), None);
    assert_eq!(store.get_credential(s("deepl"), s("default")), Some(s("dl-key")));
}

#[test]
fn keys_of_one_service_do_not_collide() {
    let mut store = CredentialStore::new();
    store.store_credential(s("openai"), s("work"), s("sk-work"));
    store.store_credential(s("openai"), s("home"), s("sk-home"));
    assert_eq!(store.get_credential(s("openai"), s("work")), Some(s("sk-work")));
    assert_eq!(store.get_credential(s("openai"), s("home")), Some(s("sk-home")));
}

#[test]
fn deleting_a_missing_entry_changes_nothing() {
    let mut store = CredentialStore::new();
    store.store_credential(s("openai"), s("default"), s("sk-test"));
    store.delete_credential(s("openai"), s("other"));
    store.delete_credential(s("nobody"), s("default"));
    assert_eq!(store.get_credential(s("openai"), s("default")), Some(s("sk-test")));
}

#[test]
fn store_get_delete_scenario() {
    let mut store = CredentialStore::new();
    store.store_credential(s("openai"), s("default"), s("sk-test"));
    assert_eq!(store.get_credential(s("openai"), s("default")), Some(s("sk-test")));
    store.delete_credential(s("openai"), s("default"));
    assert_eq!(store.get_credential(s("openai"), s("default")), None);
}

#[test]
fn empty_service_key_and_value_are_stored() {
    let mut store = CredentialStore::new();
    store.store_credential(s(""), s(""), s(""));
    assert_eq!(store.get_credential(s(""), s("")), Some(s("")));
    assert_eq!(store.get_credential(s(""), s("x")), None);
}

#[test]
fn a_colon_in_a_name_does_not_merge_entries() {
    let mut store = CredentialStore::new();
    store.store_credential(s("a"), s("b:c"), s("v1"));
    store.store_credential(s("a:b"), s("c"), s("v2"));
    assert_eq!(store.get_credential(s("a"), s("b:c")), Some(s("v1")));
    assert_eq!(store.get_credential(s("a:b"), s("c")), Some(s("v2")));
    assert_eq!(store.get_credential(s("a:b:c"), s("")), None);
    assert_eq!(store.get_credential(s(""), s("a:b:c")), None);
}

#[test]
fn deleting_a_pair_never_stored_leaves_a_similar_pair() {
    let mut store = CredentialStore::new();
    store.store_credential(s("a"), s("b:c"), s("v1"));
    store.delete_credential(s("a:b"), s("c"));
    assert_eq!(store.get_credential(s("a"), s("b:c")), Some(s("v1")));
}

#[test]
fn deleting_one_pair_leaves_a_similar_pair() {
    let mut store = CredentialStore::new();
    store.store_credential(s("a"), s("b:c"), s("v1"));
    store.store_credential(s("a:b"), s("c"), s("v2"));
    store.delete_credential(s("a"), s("b:c"));
    assert_eq!(store.get_credential(s("a"), s("b:c")), None);
    assert_eq!(store.get_credential(s("a:b"), s("c")), Some(s("v2")));
}

#[test]
fn service_and_key_are_not_interchangeable() {
    let mut store = CredentialStore::new();
    store.store_credential(s("openai"), s("default"), s("v"));
    assert_eq!(store.get_credential(s("default"), s("openai")), None);
    assert_eq!(store.get_credential(s("openai"), s("")), None);
    assert_eq!(store.get_credential(s(""), s("default")), None);
}

#[test]
fn many_entries_are_kept_apart() {
    let mut store = CredentialStore::new();
    let services: Vec<&str> = vec!["openai", "deepl", "google"];
    let keys: Vec<&str> = vec!["default", "work", "home"];
    for service in &services {
        for key in &keys {
            store.store_credential(s(service), s(key), format!("{}/{}", service, key));
        }
    }
    store.delete_credential(s("deepl"), s("work"));
    store.store_credential(s("google"), s("home"), s("replaced"));
    for service in &services {
        for key in &keys {
            let expected: Option<String> = if *service == "deepl" && *key == "work" {
                None
            } else if *service == "google" && *key == "home" {
                Some(s("replaced"))
            } else {
                Some(format!("{}/{}", service, key))
            };
            assert_eq!(store.get_credential(s(service), s(key)), expected);
        }
    }
}
