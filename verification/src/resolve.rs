//! Key resolution: selecting the key record a fragment identifier names
//! inside a document.
//!
//! A document in this model carries at most one current verification key
//! and one current agreement key, so resolution is a binary choice: the
//! fragment either names the primary verification key, or the primary
//! agreement key is returned. A fragment that matches neither still
//! selects the agreement key; that narrow behavior is kept deliberately
//! for compatibility.

use vstd::prelude::*;

use crate::did::{DidDocument, DidDocumentView};
use crate::error::Error;
use crate::keys::{KeyPair, KeyPairView};

verus! {

/// The full key id that `fragment` names inside a document with
/// identifier `doc_id`: `{doc_id}#{fragment}`.
pub open spec fn full_key_id(doc_id: Seq<char>, fragment: Seq<char>) -> Seq<char> {
    doc_id + seq!['#'] + fragment
}

/// The key record resolution selects for `fragment`, if any.
///
/// The primary verification key is selected when its id equals the full
/// key id; otherwise the primary agreement key is selected. No further
/// entries are scanned. Resolution fails only on a document whose
/// verification-method list is missing or empty, or whose key-agreement
/// list is missing or empty when the fragment does not name the primary
/// verification key.
pub open spec fn resolved_key(doc: DidDocumentView, fragment: Seq<char>) -> Option<KeyPairView> {
    match doc.verification_method {
        None => None,
        Some(vm) => if vm.len() == 0 {
            None
        } else if vm[0].id == Some(full_key_id(doc.id, fragment)) {
            Some(vm[0])
        } else {
            match doc.key_agreement {
                None => None,
                Some(ka) => if ka.len() == 0 {
                    None
                } else {
                    Some(ka[0])
                },
            }
        },
    }
}

impl DidDocument {
    /// Resolves the key record that `fragment` names inside this
    /// document, as a fresh copy.
    ///
    /// Returns a document-integrity error instead of a record exactly
    /// when [`resolved_key`] selects none: the verification-method list
    /// is missing or empty, or the fragment does not name the primary
    /// verification key and the key-agreement list is missing or empty.
    pub fn get_key_pair(&self, fragment: &str) -> (r: Result<KeyPair, Error>)
        ensures
            match r {
                Ok(k) => resolved_key(self.deep_view(), fragment@) == Some(k.deep_view()),
                Err(_) => resolved_key(self.deep_view(), fragment@) is None,
            },
    {
        let candidate = self.id.clone().concat("#").concat(fragment);
        proof {
            reveal_strlit("#");
            assert(candidate@ =~= full_key_id(self.id@, fragment@));
        }
        match &self.verification_method {
            None => Err(Error::new("document has no verification method entries")),
            Some(vm) => {
                if vm.len() == 0 {
                    Err(Error::new("document has no verification method entries"))
                } else {
                    let named_primary = match &vm[0].id {
                        Some(id) => *id == candidate,
                        None => false,
                    };
                    if named_primary {
                        Ok(vm[0].deep_clone())
                    } else {
                        match &self.key_agreement {
                            None => Err(Error::new("document has no key agreement entries")),
                            Some(ka) => {
                                if ka.len() == 0 {
                                    Err(Error::new("document has no key agreement entries"))
                                } else {
                                    Ok(ka[0].deep_clone())
                                }
                            },
                        }
                    }
                }
            },
        }
    }
}

/// Resolution is deterministic and a binary choice: in a document whose
/// primary verification and agreement keys are both present, a fragment
/// that names the primary verification key resolves to it, and every
/// other fragment resolves to the primary agreement key.
pub proof fn lemma_resolution_determinism(doc: DidDocumentView, fragment: Seq<char>)
    requires
        doc.verification_method matches Some(vm) && vm.len() > 0,
        doc.key_agreement matches Some(ka) && ka.len() > 0,
    ensures
        doc.verification_method->Some_0[0].id == Some(full_key_id(doc.id, fragment))
            ==> resolved_key(doc, fragment) == Some(doc.verification_method->Some_0[0]),
        doc.verification_method->Some_0[0].id != Some(full_key_id(doc.id, fragment))
            ==> resolved_key(doc, fragment) == Some(doc.key_agreement->Some_0[0]),
{
}

/// Resolution on a document whose verification-method list is missing or
/// empty selects no key, whatever the fragment; the executable resolver
/// reports this as a document-integrity error.
pub proof fn lemma_resolution_needs_verification_method(doc: DidDocumentView, fragment: Seq<char>)
    requires
        doc.verification_method is None || doc.verification_method->Some_0.len() == 0,
    ensures
        resolved_key(doc, fragment) is None,
{
}

} // verus!
