use did_document::did::{DidDocument, KeyPairToDidDocument};
use did_document::error::Error;
use did_document::keys::{KeyPair, VerificationKey};

/// A stand-in signing suite: derives its key text from the fingerprint,
/// exactly as the capability contract allows a real algorithm to.
struct ExampleSuite {
    controller: Option<String>,
    public: String,
    private: Option<String>,
}

impl VerificationKey for ExampleSuite {
    // The spec items of the trait are ghost: they exist only for
    // verification and are never called at run time.
    fn spec_suite_id() -> vstd::seq::Seq<char> {
        panic!()
    }

    fn spec_suite_context() -> vstd::seq::Seq<char> {
        panic!()
    }

    fn spec_type(&self) -> vstd::seq::Seq<char> {
        panic!()
    }

    fn spec_controller(&self) -> Option<vstd::seq::Seq<char>> {
        panic!()
    }

    fn spec_public_key(&self) -> vstd::seq::Seq<char> {
        panic!()
    }

    fn spec_private_key(&self) -> Option<vstd::seq::Seq<char>> {
        panic!()
    }

    fn from_fingerprint(fingerprint: &str) -> Result<ExampleSuite, Error> {
        if fingerprint.is_empty() {
            Err(Error::new("empty fingerprint"))
        } else {
            Ok(ExampleSuite {
                controller: None,
                public: fingerprint.to_string(),
                private: Some(format!("{}-secret", fingerprint)),
            })
        }
    }

    fn get_suite_id() -> &'static str {
        "ExampleVerificationKey"
    }

    fn get_current_suite_id(&self) -> &'static str {
        "ExampleVerificationKey"
    }

    fn get_suite_context() -> &'static str {
        "https://example.com/suite/v1"
    }

    fn get_current_suite_context(&self) -> &'static str {
        "https://example.com/suite/v1"
    }

    fn get_controller(&self) -> &Option<String> {
        &self.controller
    }

    fn get_type(&self) -> String {
        "ExampleVerificationKey".to_string()
    }

    fn get_private_key_content(&self) -> &Option<String> {
        &self.private
    }

    fn get_public_key_content(&self) -> &String {
        &self.public
    }

    fn export(&self, public_key: bool, private_key: bool, include_context: bool) -> KeyPair {
        KeyPair {
            id: None,
            _type: self.get_type(),
            context: if include_context {
                Some(vec![Self::get_suite_context().to_string()])
            } else {
                None
            },
            public_key_base58: if public_key { Some(self.public.clone()) } else { None },
            private_key_base58: if private_key { self.private.clone() } else { None },
            public_key_multibase: None,
            private_key_multibase: None,
            revoked: None,
            controller: self.controller.clone(),
            blockchain_account_id: None,
            public_key_hex: None,
            ethereum_address: None,
            public_key_base64: None,
            public_key_pem: None,
            public_key_jwk: None,
            private_key_hex: None,
            private_key_base64: None,
            private_key_pem: None,
            value: None,
        }
    }
}

fn has_public(k: &KeyPair) -> bool {
    k.public_key_base58.is_some()
        || k.public_key_multibase.is_some()
        || k.public_key_hex.is_some()
        || k.public_key_base64.is_some()
        || k.public_key_pem.is_some()
        || k.public_key_jwk.is_some()
}

fn has_private(k: &KeyPair) -> bool {
    k.private_key_base58.is_some()
        || k.private_key_multibase.is_some()
        || k.private_key_hex.is_some()
        || k.private_key_base64.is_some()
        || k.private_key_pem.is_some()
}

#[test]
fn public_only_export_populates_no_private_encoding() {
    let suite = ExampleSuite::from_fingerprint("z6MkfAbc").unwrap();
    let record = suite.export(true, false, false);
    assert!(has_public(&record));
    assert!(!has_private(&record));
}

#[test]
fn full_export_populates_both_halves() {
    let suite = ExampleSuite::from_fingerprint("z6MkfAbc").unwrap();
    let record = suite.export(true, true, true);
    assert!(has_public(&record));
    assert!(has_private(&record));
    assert_eq!(record.public_key_base58, Some("z6MkfAbc".to_string()));
    assert_eq!(record.private_key_base58, Some("z6MkfAbc-secret".to_string()));
}

#[test]
fn export_without_public_half_fabricates_nothing() {
    let suite = ExampleSuite::from_fingerprint("z6MkfAbc").unwrap();
    let record = suite.export(false, false, false);
    assert!(!has_public(&record));
    assert!(!has_private(&record));
    assert!(record.context.is_none());
}

#[test]
fn suite_id_accessors_agree() {
    let suite = ExampleSuite::from_fingerprint("z6MkfAbc").unwrap();
    assert_eq!(ExampleSuite::get_suite_id(), suite.get_current_suite_id());
    assert_eq!(ExampleSuite::get_suite_context(), suite.get_current_suite_context());
}

#[test]
fn malformed_fingerprint_is_a_construction_error() {
    assert!(ExampleSuite::from_fingerprint("").is_err());
}

/// A stand-in document assembler built on the capability contract alone.
struct ExampleAssembler;

impl KeyPairToDidDocument for ExampleAssembler {
    fn key_pair_to_did_doc<K: VerificationKey>(
        key_pair: &K,
        fingerprint: &str,
    ) -> Result<DidDocument, Error> {
        let doc_id = format!("did:example:{}", fingerprint);
        let mut record = key_pair.export(true, false, true);
        record.id = Some(format!("{}#{}", doc_id, fingerprint));
        Ok(DidDocument {
            context: vec![did_document::did::DID_CONTEXT_URL.to_string()],
            id: doc_id,
            verification_method: Some(vec![record]),
            authentication: None,
            assertion_method: None,
            capability_delegation: None,
            capability_invocation: None,
            key_agreement: None,
            services: None,
        })
    }
}

#[test]
fn assembled_document_resolves_its_own_key() {
    let suite = ExampleSuite::from_fingerprint("z6MkfAbc").unwrap();
    let doc = ExampleAssembler::key_pair_to_did_doc(&suite, "z6MkfAbc").unwrap();
    let key = doc.get_key_pair("z6MkfAbc").unwrap();
    assert_eq!(key.id, Some("did:example:z6MkfAbc#z6MkfAbc".to_string()));
}
