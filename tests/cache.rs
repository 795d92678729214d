use passh_agent::cache::CacheState;
use passh_agent::cache::IdentityCache;
use passh_agent::cache::KeyLocatorPair;
use passh_agent::cache::locators_to_fetch;
use passh_agent::codec::encode_public_key;
use passh_agent::codec::CanonicalPublicKey;

fn pair(private: &str, public: &str) -> KeyLocatorPair {
    KeyLocatorPair {
        private_key_locator: private.to_string(),
        public_key_locator: public.to_string(),
    }
}

fn key(n: u8) -> CanonicalPublicKey {
    CanonicalPublicKey::from_components(&[1, 0, 1], &[0xc0, n]).unwrap()
}

fn line(k: &CanonicalPublicKey) -> String {
    format!("ssh-rsa {}", base64::encode(encode_public_key(k)))
}

#[test]
fn bad_entries_are_isolated() {
    let pairs = vec![pair("a/priv", "a/pub"), pair("b/priv", "b/pub"), pair("c/priv", "c/pub")];
    let texts = vec![Some(line(&key(1))), None, Some("not a key".to_string())];
    let cache = IdentityCache::build(&pairs, &texts);
    assert_eq!(cache.len(), 1);
    assert_eq!(cache.lookup(&key(1)), Some("a/priv".to_string()));
    assert_eq!(cache.lookup(&key(2)), None);
    assert_eq!(cache.failed_pairs(), vec![1, 2]);
}

#[test]
fn identities_keep_configuration_order() {
    let pairs = vec![pair("a/priv", "a/pub"), pair("b/priv", "b/pub")];
    let texts = vec![Some(line(&key(2))), Some(line(&key(1)))];
    let cache = IdentityCache::build(&pairs, &texts);
    let ids = cache.get_identities();
    assert_eq!(ids.len(), 2);
    assert_eq!(ids[0].public_key_blob, encode_public_key(&key(2)));
    assert_eq!(ids[1].public_key_blob, encode_public_key(&key(1)));
    assert!(ids.iter().all(|i| i.comment.is_empty()));
}

#[test]
fn repeated_key_takes_last_locator() {
    let pairs = vec![pair("first", "x"), pair("second", "y")];
    let texts = vec![Some(line(&key(3))), Some(line(&key(3)))];
    let cache = IdentityCache::build(&pairs, &texts);
    assert_eq!(cache.len(), 1);
    assert_eq!(cache.lookup(&key(3)), Some("second".to_string()));
    assert!(cache.failed_pairs().is_empty());
}

#[test]
fn building_twice_gives_same_identities() {
    let pairs = vec![pair("a/priv", "a/pub"), pair("b/priv", "b/pub")];
    let texts = vec![Some(line(&key(5))), Some(line(&key(6)))];
    let one = IdentityCache::build(&pairs, &texts).get_identities();
    let two = IdentityCache::build(&pairs, &texts).get_identities();
    assert_eq!(one.len(), two.len());
    for (a, b) in one.iter().zip(two.iter()) {
        assert_eq!(a.public_key_blob, b.public_key_blob);
    }
}

#[test]
fn only_first_caller_builds() {
    let mut state = CacheState::new();
    let builders: usize = (0..5).map(|_| state.arrive() as usize).sum();
    assert_eq!(builders, 1);
    assert!(state.built().is_none());
    state.finish(IdentityCache::new());
    assert!(!state.arrive());
    assert!(state.built().is_some());
}

#[test]
fn each_public_locator_fetched_once() {
    let pairs = vec![pair("a/priv", "a/pub"), pair("b/priv", "b/pub")];
    assert_eq!(locators_to_fetch(&pairs), vec!["a/pub".to_string(), "b/pub".to_string()]);
}
