use paste_store::cache::{Cache, MemoryCache};
use paste_store::content::{Content, PasteContent, HASHLEN};
use paste_store::shared::{memory_cache, SharedCache};

#[test]
fn memory_cache_setget_pastecontent_text_using_hash_key() {
    let mut cache = MemoryCache::new();
    let plain_text = PasteContent::PlainText("ABCDEFG".to_string());
    let plain_text_hash = plain_text.hash();
    cache.set(plain_text);
    assert_eq!(
        Some(&PasteContent::PlainText("ABCDEFG".to_string())),
        cache.get(plain_text_hash)
    );
}

#[test]
fn memory_cache_setget_pastecontent_text_non_existing() {
    let mut cache = MemoryCache::new();
    let plain_text = PasteContent::PlainText("ABCDEFG".to_string());
    cache.set(plain_text);
    assert_eq!(None, cache.get("Non-existing value".to_string()));
}

#[test]
fn paste_content_hash_has_size_hashlen() {
    assert_eq!(
        HASHLEN,
        PasteContent::PlainText("ABCDEFGHIKLMNOP".to_string())
            .hash()
            .len()
    );
    assert_eq!(
        HASHLEN,
        PasteContent::PlainText("A".to_string()).hash().len()
    );
    assert_eq!(
        HASHLEN,
        PasteContent::PlainText("123456".to_string()).hash().len()
    );
    assert_eq!(
        HASHLEN,
        PasteContent::PlainText("1234567".to_string()).hash().len()
    );
    assert_eq!(
        HASHLEN,
        PasteContent::PlainText("12345678".to_string()).hash().len()
    );
    assert_eq!(
        HASHLEN,
        PasteContent::PlainText("".to_string()).hash().len()
    );
}

#[test]
fn hash_is_deterministic() {
    let a = PasteContent::PlainText("Some paste".to_string());
    let b = PasteContent::PlainText("Some paste".to_string());
    assert_eq!(a.hash(), b.hash());
    assert_eq!(a.hash(), a.hash());
}

#[test]
fn store_then_retrieve_round_trip() {
    let store = memory_cache();
    let key = store.store(PasteContent::PlainText("ABCDEFG".to_string()));
    assert_eq!(key.chars().count(), HASHLEN);
    assert_eq!(
        Some(PasteContent::PlainText("ABCDEFG".to_string())),
        store.retrieve(key)
    );
}

#[test]
fn retrieve_on_empty_store_is_not_found() {
    let store = memory_cache();
    assert_eq!(None, store.retrieve("Non-existing value".to_string()));
}

#[test]
fn empty_content_gets_a_seven_char_key() {
    let store = memory_cache();
    let key = store.store(PasteContent::PlainText("".to_string()));
    assert_eq!(key.chars().count(), HASHLEN);
    assert_eq!(
        Some(PasteContent::PlainText("".to_string())),
        store.retrieve(key)
    );
}

#[test]
fn known_fixture_key() {
    let store = memory_cache();
    let key = store.store(PasteContent::PlainText("Test of Content".to_string()));
    assert_eq!("YTA0NzY", key);
    assert_eq!(
        Some(PasteContent::PlainText("Test of Content".to_string())),
        store.retrieve("YTA0NzY".to_string())
    );
}

#[test]
fn keys_are_exact_match_not_prefix_match() {
    let store = memory_cache();
    let key = store.store(PasteContent::PlainText("Test of Content".to_string()));
    assert_eq!(None, store.retrieve(format!("{}extra-suffix", key)));
    assert_eq!(None, store.retrieve(format!("A{}", key)));
    assert_eq!(None, store.retrieve(format!("{}B", key)));
    assert_eq!(None, store.retrieve(format!("{}/invalid", key)));
}

#[test]
fn storing_identical_content_twice_is_a_no_op() {
    let store = memory_cache();
    let key1 = store.store(PasteContent::PlainText("Duplicate".to_string()));
    let key2 = store.store(PasteContent::PlainText("Duplicate".to_string()));
    assert_eq!(key1, key2);
    assert_eq!(
        Some(PasteContent::PlainText("Duplicate".to_string())),
        store.retrieve(key1)
    );
}

#[test]
fn distinct_contents_are_all_retrievable() {
    let store: SharedCache = memory_cache();
    let contents = [
        "first paste",
        "second paste",
        "third paste",
        "fourth paste",
        "fifth paste",
    ];
    let mut keys = Vec::new();
    for text in contents.iter() {
        keys.push(store.store(PasteContent::PlainText(text.to_string())));
    }
    for (text, key) in contents.iter().zip(keys.into_iter()) {
        assert_eq!(
            Some(PasteContent::PlainText(text.to_string())),
            store.retrieve(key)
        );
    }
}
