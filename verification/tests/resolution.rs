use did_document::did::DidDocument;
use did_document::json::Json;
use did_document::keys::KeyPair;

fn bare_key(id: &str) -> KeyPair {
    KeyPair {
        id: Some(id.to_string()),
        _type: "Ed25519VerificationKey2018".to_string(),
        context: None,
        public_key_base58: Some("2QTnR7atrFu3Y7S6Xmmr4hTsMaL1KDh6Mpe9MgnJrrjM".to_string()),
        private_key_base58: None,
        public_key_multibase: None,
        private_key_multibase: None,
        revoked: None,
        controller: Some("did:example:123".to_string()),
        blockchain_account_id: None,
        public_key_hex: None,
        ethereum_address: None,
        public_key_base64: None,
        public_key_pem: None,
        public_key_jwk: None,
        private_key_hex: None,
        private_key_base64: None,
        private_key_pem: None,
        value: None,
    }
}

fn two_key_document() -> DidDocument {
    DidDocument {
        context: vec!["https://www.w3.org/ns/did/v1".to_string()],
        id: "did:example:123".to_string(),
        verification_method: Some(vec![bare_key("did:example:123#key-1")]),
        authentication: Some(vec!["did:example:123#key-1".to_string()]),
        assertion_method: None,
        capability_delegation: None,
        capability_invocation: None,
        key_agreement: Some(vec![bare_key("did:example:123#key-2")]),
        services: None,
    }
}

#[test]
fn resolves_primary_verification_key() {
    let doc = two_key_document();
    let key = doc.get_key_pair("key-1").unwrap();
    assert_eq!(key.id, Some("did:example:123#key-1".to_string()));
}

#[test]
fn unmatched_fragment_falls_back_to_agreement_key() {
    let doc = two_key_document();
    let key = doc.get_key_pair("key-2").unwrap();
    assert_eq!(key.id, Some("did:example:123#key-2".to_string()));
    let key = doc.get_key_pair("anything-else").unwrap();
    assert_eq!(key.id, Some("did:example:123#key-2".to_string()));
}

#[test]
fn empty_verification_method_list_is_document_integrity_error() {
    let mut doc = two_key_document();
    doc.verification_method = Some(Vec::new());
    let err = doc.get_key_pair("key-1").unwrap_err();
    assert!(!err.message().is_empty());
}

#[test]
fn missing_verification_method_list_is_document_integrity_error() {
    let mut doc = two_key_document();
    doc.verification_method = None;
    assert!(doc.get_key_pair("key-1").is_err());
}

#[test]
fn fallback_without_agreement_key_is_document_integrity_error() {
    let mut doc = two_key_document();
    doc.key_agreement = None;
    assert!(doc.get_key_pair("not-the-primary").is_err());
    doc.key_agreement = Some(Vec::new());
    assert!(doc.get_key_pair("not-the-primary").is_err());
}

#[test]
fn primary_match_succeeds_without_agreement_keys() {
    let mut doc = two_key_document();
    doc.key_agreement = None;
    let key = doc.get_key_pair("key-1").unwrap();
    assert_eq!(key.id, Some("did:example:123#key-1".to_string()));
}

#[test]
fn resolved_key_is_an_independent_copy() {
    let doc = two_key_document();
    let key = doc.get_key_pair("key-1").unwrap();
    assert_eq!(Some(key), doc.verification_method.map(|v| v.into_iter().next().unwrap()));
}

#[test]
fn unmatched_id_on_primary_key_falls_back() {
    let mut doc = two_key_document();
    if let Some(vm) = &mut doc.verification_method {
        vm[0].id = None;
    }
    let key = doc.get_key_pair("key-1").unwrap();
    assert_eq!(key.id, Some("did:example:123#key-2".to_string()));
}

#[test]
fn error_message_carries_its_text() {
    let err = did_document::error::Error::new("document has no verification method entries");
    assert_eq!(err.message(), "document has no verification method entries");
}

#[test]
fn did_context_url_is_the_core_context() {
    assert_eq!(did_document::did::DID_CONTEXT_URL, "https://www.w3.org/ns/did/v1");
}

#[test]
fn json_clone_is_deep_and_equal() {
    let v = Json::Obj(vec![
        ("kty".to_string(), Json::Str("OKP".to_string())),
        ("list".to_string(), Json::Arr(vec![Json::Int(1), Json::Bool(true), Json::Null])),
    ]);
    assert_eq!(v.deep_clone(), v);
    assert_eq!(v.clone(), v);
}
