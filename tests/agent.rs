use openssl::hash::MessageDigest;
use openssl::pkey::PKey;
use openssl::rsa::Rsa;
use openssl::sign::Verifier;

use passh_agent::agent::dispatch;
use passh_agent::agent::finish_sign;
use passh_agent::agent::handle;
use passh_agent::agent::response_of;
use passh_agent::agent::sign_fetched;
use passh_agent::agent::AgentError;
use passh_agent::agent::ProtocolMessage;
use passh_agent::agent::Step;
use passh_agent::cache::CacheState;
use passh_agent::cache::IdentityCache;
use passh_agent::cache::KeyLocatorPair;
use passh_agent::codec::decode_public_key_blob;
use passh_agent::codec::encode_public_key;
use passh_agent::codec::CanonicalPublicKey;
use passh_agent::codec::KeyError;

struct TestKey {
    private_pem: String,
    public_line: String,
    public_key: CanonicalPublicKey,
    pkey: PKey<openssl::pkey::Public>,
}

fn test_key() -> TestKey {
    let rsa = Rsa::generate(2048).unwrap();
    let private_pem = String::from_utf8(rsa.private_key_to_pem().unwrap()).unwrap();
    let public_key =
        CanonicalPublicKey::from_components(&rsa.e().to_vec(), &rsa.n().to_vec()).unwrap();
    let public_line = format!("ssh-rsa {} user@host\n", base64::encode(encode_public_key(&public_key)));
    let public_rsa = Rsa::from_public_components(
        rsa.n().to_owned().unwrap(),
        rsa.e().to_owned().unwrap(),
    )
    .unwrap();
    let pkey = PKey::from_rsa(public_rsa).unwrap();
    TestKey { private_pem, public_line, public_key, pkey }
}

fn verifies(pkey: &PKey<openssl::pkey::Public>, data: &[u8], signature: &[u8]) -> bool {
    let mut v = Verifier::new(MessageDigest::sha512(), pkey).unwrap();
    v.update(data).unwrap();
    v.verify(signature).unwrap_or(false)
}

fn pair(private: &str, public: &str) -> KeyLocatorPair {
    KeyLocatorPair {
        private_key_locator: private.to_string(),
        public_key_locator: public.to_string(),
    }
}

fn one_key_cache(key: &TestKey) -> IdentityCache {
    let pairs = vec![pair("email/private", "email/public")];
    IdentityCache::build(&pairs, &vec![Some(key.public_line.clone())])
}

#[test]
fn email_scenario() {
    let key = test_key();
    let mut state = CacheState::new();
    assert!(state.arrive());
    state.finish(one_key_cache(&key));
    assert!(!state.arrive());
    let cache = state.built().unwrap();

    let ids = match handle(cache, ProtocolMessage::RequestIdentities) {
        Step::Reply(ProtocolMessage::IdentitiesAnswer(ids)) => ids,
        other => panic!("unexpected {:?}", other),
    };
    assert_eq!(ids.len(), 1);
    assert_eq!(ids[0].comment, "");
    assert!(decode_public_key_blob(&ids[0].public_key_blob).unwrap() == key.public_key);

    let request = ProtocolMessage::SignRequest {
        public_key_blob: ids[0].public_key_blob.clone(),
        data: b"hello".to_vec(),
        flags: 0,
    };
    let (locator, data) = match handle(cache, request) {
        Step::FetchPrivateKey { locator, data } => (locator, data),
        other => panic!("unexpected {:?}", other),
    };
    assert_eq!(locator, "email/private");
    assert_eq!(data, b"hello");
    match finish_sign(Some(key.private_pem.clone()), &data) {
        ProtocolMessage::SignResponse { algorithm, signature } => {
            assert_eq!(algorithm, "rsa-sha2-512");
            assert!(verifies(&key.pkey, b"hello", &signature));
            assert!(!verifies(&key.pkey, b"hellO", &signature));
        },
        other => panic!("unexpected {:?}", other),
    }
}

#[test]
fn signature_verifies_only_for_its_message() {
    let key = test_key();
    for m in [&b""[..], &b"a"[..], &b"challenge data"[..]] {
        match sign_fetched(Some(key.private_pem.clone()), m) {
            Ok(ProtocolMessage::SignResponse { signature, .. }) => {
                assert!(verifies(&key.pkey, m, &signature));
                assert!(!verifies(&key.pkey, b"something else", &signature));
            },
            other => panic!("unexpected {:?}", other),
        }
    }
}

#[test]
fn unregistered_key_gets_failure() {
    let key = test_key();
    let cache = one_key_cache(&key);
    let other = CanonicalPublicKey::from_components(&[1, 0, 1], &[0xc1, 0x02, 0x03]).unwrap();
    let request = ProtocolMessage::SignRequest {
        public_key_blob: encode_public_key(&other),
        data: b"hello".to_vec(),
        flags: 0,
    };
    assert!(matches!(handle(&cache, request), Step::Reply(ProtocolMessage::Failure)));
    let request = ProtocolMessage::SignRequest {
        public_key_blob: encode_public_key(&other),
        data: b"hello".to_vec(),
        flags: 2,
    };
    assert!(matches!(dispatch(&cache, request), Err(AgentError::MissingIdentity)));
}

#[test]
fn malformed_blob_gets_failure() {
    let cache = IdentityCache::new();
    let request = ProtocolMessage::SignRequest {
        public_key_blob: vec![0, 0, 0, 9, 1],
        data: vec![],
        flags: 0,
    };
    assert!(matches!(handle(&cache, request), Step::Reply(ProtocolMessage::Failure)));
    let request = ProtocolMessage::SignRequest {
        public_key_blob: vec![0, 0, 0, 9, 1],
        data: vec![],
        flags: 0,
    };
    assert!(matches!(dispatch(&cache, request), Err(AgentError::Key(KeyError::MalformedKey))));
}

#[test]
fn other_messages_are_unsupported() {
    let cache = IdentityCache::new();
    assert!(matches!(dispatch(&cache, ProtocolMessage::Other), Err(AgentError::Unsupported)));
    assert!(matches!(handle(&cache, ProtocolMessage::Failure), Step::Reply(ProtocolMessage::Failure)));
}

#[test]
fn failed_fetch_gets_failure() {
    assert!(matches!(sign_fetched(None, b"x"), Err(AgentError::SecretProvider)));
    assert!(matches!(finish_sign(None, b"x"), ProtocolMessage::Failure));
    assert!(matches!(
        sign_fetched(Some("garbage".to_string()), b"x"),
        Err(AgentError::Key(KeyError::MalformedKey))
    ));
}

#[test]
fn empty_cache_lists_nothing() {
    let cache = IdentityCache::new();
    match handle(&cache, ProtocolMessage::RequestIdentities) {
        Step::Reply(ProtocolMessage::IdentitiesAnswer(ids)) => assert!(ids.is_empty()),
        other => panic!("unexpected {:?}", other),
    }
}

#[test]
fn agent_errors_describe_themselves() {
    assert_eq!(AgentError::MissingIdentity.describe(), "Public key is not in cache.");
}

#[test]
fn response_of_signature() {
    match response_of(Some(vec![1, 2, 3])) {
        Ok(ProtocolMessage::SignResponse { algorithm, signature }) => {
            assert_eq!(algorithm, "rsa-sha2-512");
            assert_eq!(signature, vec![1, 2, 3]);
        },
        other => panic!("unexpected {:?}", other),
    }
    assert!(matches!(response_of(None), Err(AgentError::Crypto)));
}
