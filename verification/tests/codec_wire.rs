use did_document::codec::{
    decode_document, decode_key_pair, decode_service, encode_document, encode_key_pair,
    encode_service,
};
use did_document::did::{DidDocument, Service};
use did_document::json::Json;
use did_document::keys::KeyPair;

fn empty_key(_type: &str) -> KeyPair {
    KeyPair {
        id: None,
        _type: _type.to_string(),
        context: None,
        public_key_base58: None,
        private_key_base58: None,
        public_key_multibase: None,
        private_key_multibase: None,
        revoked: None,
        controller: None,
        blockchain_account_id: None,
        public_key_hex: None,
        ethereum_address: None,
        public_key_base64: None,
        public_key_pem: None,
        public_key_jwk: None,
        private_key_hex: None,
        private_key_base64: None,
        private_key_pem: None,
        value: None,
    }
}

fn full_key() -> KeyPair {
    KeyPair {
        id: Some("did:example:123#key-1".to_string()),
        _type: "EcdsaSecp256k1VerificationKey2019".to_string(),
        context: Some(vec![
            "https://w3id.org/security/v1".to_string(),
            "https://w3id.org/security/v2".to_string(),
        ]),
        public_key_base58: Some("2QTnR7atrFu3Y7S6Xmmr4hTsMaL1KDh6Mpe9MgnJrrjM".to_string()),
        private_key_base58: Some("9s73sw3kDGkr4bQdbVDUCMvSpEABM24NnrAjqwKeh6fR".to_string()),
        public_key_multibase: None,
        private_key_multibase: None,
        revoked: Some(false),
        controller: Some("did:example:123".to_string()),
        blockchain_account_id: Some("eip155:1:0xab16a96D359eC26a11e2C2b3d8f8B8942d5Bfcdb".to_string()),
        public_key_hex: None,
        ethereum_address: Some("0xab16a96D359eC26a11e2C2b3d8f8B8942d5Bfcdb".to_string()),
        public_key_base64: None,
        public_key_pem: None,
        public_key_jwk: None,
        private_key_hex: None,
        private_key_base64: None,
        private_key_pem: None,
        value: Some("opaque".to_string()),
    }
}

fn find<'a>(j: &'a Json, name: &str) -> &'a Json {
    match j {
        Json::Obj(entries) => {
            for (k, v) in entries {
                if k == name {
                    return v;
                }
            }
            panic!("field {} not found", name);
        },
        _ => panic!("not an object"),
    }
}

#[test]
fn key_pair_round_trips_with_every_populated_field() {
    let key = full_key();
    let wire = encode_key_pair(&key);
    let back = decode_key_pair(&wire).unwrap();
    assert_eq!(back, key);
}

#[test]
fn key_pair_round_trips_with_no_optional_field() {
    let key = empty_key("Ed25519VerificationKey2018");
    let back = decode_key_pair(&encode_key_pair(&key)).unwrap();
    assert_eq!(back, key);
}

#[test]
fn jwk_only_key_round_trips_without_field_loss() {
    let mut key = empty_key("JsonWebKey2020");
    key.public_key_jwk = Some(Json::Obj(vec![
        ("kty".to_string(), Json::Str("OKP".to_string())),
        ("crv".to_string(), Json::Str("Ed25519".to_string())),
        ("x".to_string(), Json::Str("11qYAYKxCrfVS_7TyWQHOg7hcvPapiMlrwIaaPcHURo".to_string())),
    ]));
    assert!(key.public_key_base58.is_none());
    assert!(key.public_key_multibase.is_none());
    let wire = encode_key_pair(&key);
    let back = decode_key_pair(&wire).unwrap();
    assert_eq!(back, key);
    assert_eq!(back.public_key_jwk, key.public_key_jwk);
}

#[test]
fn absent_fields_encode_as_null() {
    let wire = encode_key_pair(&empty_key("Ed25519VerificationKey2018"));
    assert_eq!(find(&wire, "id"), &Json::Null);
    assert_eq!(find(&wire, "publicKeyJwk"), &Json::Null);
    assert_eq!(
        find(&wire, "type"),
        &Json::Str("Ed25519VerificationKey2018".to_string())
    );
}

#[test]
fn key_decode_rejects_missing_field() {
    let wire = encode_key_pair(&empty_key("Ed25519VerificationKey2018"));
    let trimmed = match wire {
        Json::Obj(entries) => {
            Json::Obj(entries.into_iter().filter(|(k, _)| k != "type").collect())
        },
        _ => unreachable!(),
    };
    assert!(decode_key_pair(&trimmed).is_err());
}

#[test]
fn key_decode_rejects_wrong_field_type() {
    let wire = encode_key_pair(&empty_key("Ed25519VerificationKey2018"));
    let mangled = match wire {
        Json::Obj(entries) => Json::Obj(
            entries
                .into_iter()
                .map(|(k, v)| {
                    if k == "revoked" {
                        (k, Json::Str("yes".to_string()))
                    } else {
                        (k, v)
                    }
                })
                .collect(),
        ),
        _ => unreachable!(),
    };
    assert!(decode_key_pair(&mangled).is_err());
}

#[test]
fn key_decode_rejects_non_object() {
    assert!(decode_key_pair(&Json::Null).is_err());
    assert!(decode_key_pair(&Json::Arr(Vec::new())).is_err());
}

#[test]
fn service_round_trips_with_structured_endpoint() {
    let service = Service {
        id: "did:example:123#agent".to_string(),
        _type: "AgentService".to_string(),
        service_endpoint: Json::Obj(vec![
            ("uri".to_string(), Json::Str("https://agent.example.com/8377464".to_string())),
            ("routingKeys".to_string(), Json::Arr(vec![Json::Str("did:example:somemediator#somekey".to_string())])),
        ]),
    };
    let back = decode_service(&encode_service(&service)).unwrap();
    assert_eq!(back, service);
}

#[test]
fn service_round_trips_with_null_endpoint() {
    let service = Service {
        id: "did:example:123#hub".to_string(),
        _type: "HubService".to_string(),
        service_endpoint: Json::Null,
    };
    let back = decode_service(&encode_service(&service)).unwrap();
    assert_eq!(back, service);
}

#[test]
fn service_decode_rejects_missing_endpoint() {
    let wire = Json::Obj(vec![
        ("id".to_string(), Json::Str("did:example:123#hub".to_string())),
        ("type".to_string(), Json::Str("HubService".to_string())),
    ]);
    assert!(decode_service(&wire).is_err());
}

fn sample_document() -> DidDocument {
    let mut agreement = empty_key("X25519KeyAgreementKey2019");
    agreement.id = Some("did:example:123#key-2".to_string());
    agreement.public_key_base58 = Some("JhNWeSVLMYccCk7iopQW4guaSJTojqpMEELgSLhKwRr".to_string());
    DidDocument {
        context: vec![
            "https://www.w3.org/ns/did/v1".to_string(),
            "https://w3id.org/security/suites/ed25519-2018/v1".to_string(),
        ],
        id: "did:example:123".to_string(),
        verification_method: Some(vec![full_key()]),
        authentication: Some(vec!["did:example:123#key-1".to_string()]),
        assertion_method: Some(vec!["did:example:123#key-1".to_string()]),
        capability_delegation: None,
        capability_invocation: None,
        key_agreement: Some(vec![agreement]),
        services: Some(vec![Service {
            id: "did:example:123#files".to_string(),
            _type: "FileStorage".to_string(),
            service_endpoint: Json::Str("https://files.example.com".to_string()),
        }]),
    }
}

#[test]
fn document_round_trips_equal_in_every_field() {
    let doc = sample_document();
    let wire = encode_document(&doc);
    let back = decode_document(&wire).unwrap();
    assert_eq!(back, doc);
}

#[test]
fn context_order_is_preserved_through_the_codec() {
    let mut doc = sample_document();
    doc.context = vec![
        "https://www.w3.org/ns/did/v1".to_string(),
        "https://w3id.org/security/v2".to_string(),
        "https://w3id.org/security/v1".to_string(),
    ];
    let wire = encode_document(&doc);
    match find(&wire, "@context") {
        Json::Arr(items) => {
            assert_eq!(items[0], Json::Str("https://www.w3.org/ns/did/v1".to_string()));
            assert_eq!(items[1], Json::Str("https://w3id.org/security/v2".to_string()));
            assert_eq!(items[2], Json::Str("https://w3id.org/security/v1".to_string()));
        },
        _ => panic!("@context is not a list"),
    }
    let back = decode_document(&wire).unwrap();
    assert_eq!(back.context, doc.context);
}

#[test]
fn document_decode_rejects_non_string_context_entry() {
    let wire = encode_document(&sample_document());
    let mangled = match wire {
        Json::Obj(entries) => Json::Obj(
            entries
                .into_iter()
                .map(|(k, v)| {
                    if k == "@context" {
                        (k, Json::Arr(vec![Json::Int(7)]))
                    } else {
                        (k, v)
                    }
                })
                .collect(),
        ),
        _ => unreachable!(),
    };
    assert!(decode_document(&mangled).is_err());
}

#[test]
fn document_decode_rejects_malformed_key_entry() {
    let wire = encode_document(&sample_document());
    let mangled = match wire {
        Json::Obj(entries) => Json::Obj(
            entries
                .into_iter()
                .map(|(k, v)| {
                    if k == "verificationMethod" {
                        (k, Json::Arr(vec![Json::Str("not a key".to_string())]))
                    } else {
                        (k, v)
                    }
                })
                .collect(),
        ),
        _ => unreachable!(),
    };
    assert!(decode_document(&mangled).is_err());
}

#[test]
fn document_decode_accepts_reordered_fields() {
    let wire = encode_document(&sample_document());
    let reordered = match wire {
        Json::Obj(mut entries) => {
            entries.reverse();
            Json::Obj(entries)
        },
        _ => unreachable!(),
    };
    let back = decode_document(&reordered).unwrap();
    assert_eq!(back, sample_document());
}
