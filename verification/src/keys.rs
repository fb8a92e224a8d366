//! The canonical key-material record and the capability contracts that
//! concrete cryptographic suites implement.
//!
//! A `KeyPair` carries one key, public and/or private half, in whichever
//! textual encodings the producing suite chose to populate. The record
//! itself performs no cross-field validation; the exporting suite is
//! responsible for a consistent set of encodings.

use vstd::prelude::*;

use crate::error::Error;
use crate::json::{Json, JsonView};

verus! {

/// The canonical, multi-encoding representation of one cryptographic key.
///
/// Every encoding field is optional so that any suite can populate the
/// subset it supports; a well-formed exported record populates at most
/// one public and at most one private encoding.
#[derive(Debug, PartialEq)]
pub struct KeyPair {
    pub id: Option<String>,
    pub _type: String,
    pub context: Option<Vec<String>>,
    pub public_key_base58: Option<String>,
    pub private_key_base58: Option<String>,
    pub public_key_multibase: Option<String>,
    pub private_key_multibase: Option<String>,
    pub revoked: Option<bool>,
    pub controller: Option<String>,
    pub blockchain_account_id: Option<String>,
    pub public_key_hex: Option<String>,
    pub ethereum_address: Option<String>,
    pub public_key_base64: Option<String>,
    pub public_key_pem: Option<String>,
    pub public_key_jwk: Option<Json>,
    pub private_key_hex: Option<String>,
    pub private_key_base64: Option<String>,
    pub private_key_pem: Option<String>,
    pub value: Option<String>,
}

/// The mathematical model of a key record.
pub struct KeyPairView {
    pub id: Option<Seq<char>>,
    pub _type: Seq<char>,
    pub context: Option<Seq<Seq<char>>>,
    pub public_key_base58: Option<Seq<char>>,
    pub private_key_base58: Option<Seq<char>>,
    pub public_key_multibase: Option<Seq<char>>,
    pub private_key_multibase: Option<Seq<char>>,
    pub revoked: Option<bool>,
    pub controller: Option<Seq<char>>,
    pub blockchain_account_id: Option<Seq<char>>,
    pub public_key_hex: Option<Seq<char>>,
    pub ethereum_address: Option<Seq<char>>,
    pub public_key_base64: Option<Seq<char>>,
    pub public_key_pem: Option<Seq<char>>,
    pub public_key_jwk: Option<JsonView>,
    pub private_key_hex: Option<Seq<char>>,
    pub private_key_base64: Option<Seq<char>>,
    pub private_key_pem: Option<Seq<char>>,
    pub value: Option<Seq<char>>,
}

impl DeepView for KeyPair {
    type V = KeyPairView;

    open spec fn deep_view(&self) -> KeyPairView {
        KeyPairView {
            id: self.id.deep_view(),
            _type: self._type@,
            context: self.context.deep_view(),
            public_key_base58: self.public_key_base58.deep_view(),
            private_key_base58: self.private_key_base58.deep_view(),
            public_key_multibase: self.public_key_multibase.deep_view(),
            private_key_multibase: self.private_key_multibase.deep_view(),
            revoked: self.revoked,
            controller: self.controller.deep_view(),
            blockchain_account_id: self.blockchain_account_id.deep_view(),
            public_key_hex: self.public_key_hex.deep_view(),
            ethereum_address: self.ethereum_address.deep_view(),
            public_key_base64: self.public_key_base64.deep_view(),
            public_key_pem: self.public_key_pem.deep_view(),
            public_key_jwk: self.public_key_jwk.deep_view(),
            private_key_hex: self.private_key_hex.deep_view(),
            private_key_base64: self.private_key_base64.deep_view(),
            private_key_pem: self.private_key_pem.deep_view(),
            value: self.value.deep_view(),
        }
    }
}

/// Whether some public-key encoding is populated. A key record is
/// meaningful as a verification or agreement method only when this holds.
pub open spec fn has_public_encoding(k: KeyPairView) -> bool {
    ||| k.public_key_base58 is Some
    ||| k.public_key_multibase is Some
    ||| k.public_key_hex is Some
    ||| k.public_key_base64 is Some
    ||| k.public_key_pem is Some
    ||| k.public_key_jwk is Some
}

/// Whether some private-key encoding is populated.
pub open spec fn has_private_encoding(k: KeyPairView) -> bool {
    ||| k.private_key_base58 is Some
    ||| k.private_key_multibase is Some
    ||| k.private_key_hex is Some
    ||| k.private_key_base64 is Some
    ||| k.private_key_pem is Some
}

/// A copy of an optional string, equal to the source.
pub(crate) fn clone_opt_string(s: &Option<String>) -> (r: Option<String>)
    ensures
        r == *s,
{
    match s {
        Some(x) => Some(x.clone()),
        None => None,
    }
}

/// A copy of a string list, equal to the source element for element.
pub(crate) fn clone_string_vec(v: &Vec<String>) -> (r: Vec<String>)
    ensures
        r@ == v@,
{
    let mut out: Vec<String> = Vec::new();
    let mut i: usize = 0;
    while i < v.len()
        invariant
            i <= v.len(),
            out@ =~= v@.take(i as int),
        decreases v.len() - i,
    {
        out.push(v[i].clone());
        i = i + 1;
    }
    proof {
        assert(out@ =~= v@);
    }
    out
}

/// A copy of an optional string list, equal to the source.
pub(crate) fn clone_opt_string_vec(v: &Option<Vec<String>>) -> (r: Option<Vec<String>>)
    ensures
        r.deep_view() == v.deep_view(),
        r is Some <==> *v is Some,
{
    match v {
        Some(x) => Some(clone_string_vec(x)),
        None => None,
    }
}

/// A copy of an optional structured value, equal to the source in the model.
pub(crate) fn clone_opt_json(v: &Option<Json>) -> (r: Option<Json>)
    ensures
        r.deep_view() == v.deep_view(),
{
    match v {
        Some(x) => Some(x.deep_clone()),
        None => None,
    }
}

impl KeyPair {
    /// An independent copy of the record, equal to it in the model.
    pub fn deep_clone(&self) -> (r: KeyPair)
        ensures
            r.deep_view() == self.deep_view(),
    {
        KeyPair {
            id: clone_opt_string(&self.id),
            _type: self._type.clone(),
            context: clone_opt_string_vec(&self.context),
            public_key_base58: clone_opt_string(&self.public_key_base58),
            private_key_base58: clone_opt_string(&self.private_key_base58),
            public_key_multibase: clone_opt_string(&self.public_key_multibase),
            private_key_multibase: clone_opt_string(&self.private_key_multibase),
            revoked: self.revoked,
            controller: clone_opt_string(&self.controller),
            blockchain_account_id: clone_opt_string(&self.blockchain_account_id),
            public_key_hex: clone_opt_string(&self.public_key_hex),
            ethereum_address: clone_opt_string(&self.ethereum_address),
            public_key_base64: clone_opt_string(&self.public_key_base64),
            public_key_pem: clone_opt_string(&self.public_key_pem),
            public_key_jwk: clone_opt_json(&self.public_key_jwk),
            private_key_hex: clone_opt_string(&self.private_key_hex),
            private_key_base64: clone_opt_string(&self.private_key_base64),
            private_key_pem: clone_opt_string(&self.private_key_pem),
            value: clone_opt_string(&self.value),
        }
    }

    /// The key id, if any.
    pub fn id(&self) -> (r: Option<String>)
        ensures
            r == self.id,
    {
        clone_opt_string(&self.id)
    }

    /// Replaces the key id.
    pub fn set_id(&mut self, id: Option<String>)
        ensures
            *final(self) == (KeyPair { id, ..*old(self) }),
    {
        self.id = id;
    }
    /// The base58 public encoding, if any.
    pub fn public_key_base58(&self) -> (r: Option<String>)
        ensures
            r == self.public_key_base58,
    {
        clone_opt_string(&self.public_key_base58)
    }

    /// Replaces the base58 public encoding.
    pub fn set_public_key_base58(&mut self, public_key_base58: Option<String>)
        ensures
            *final(self) == (KeyPair { public_key_base58, ..*old(self) }),
    {
        self.public_key_base58 = public_key_base58;
    }
    /// The base58 private encoding, if any.
    pub fn private_key_base58(&self) -> (r: Option<String>)
        ensures
            r == self.private_key_base58,
    {
        clone_opt_string(&self.private_key_base58)
    }

    /// Replaces the base58 private encoding.
    pub fn set_private_key_base58(&mut self, private_key_base58: Option<String>)
        ensures
            *final(self) == (KeyPair { private_key_base58, ..*old(self) }),
    {
        self.private_key_base58 = private_key_base58;
    }
    /// The multibase public encoding, if any.
    pub fn public_key_multibase(&self) -> (r: Option<String>)
        ensures
            r == self.public_key_multibase,
    {
        clone_opt_string(&self.public_key_multibase)
    }

    /// Replaces the multibase public encoding.
    pub fn set_public_key_multibase(&mut self, public_key_multibase: Option<String>)
        ensures
            *final(self) == (KeyPair { public_key_multibase, ..*old(self) }),
    {
        self.public_key_multibase = public_key_multibase;
    }
    /// The multibase private encoding, if any.
    pub fn private_key_multibase(&self) -> (r: Option<String>)
        ensures
            r == self.private_key_multibase,
    {
        clone_opt_string(&self.private_key_multibase)
    }

    /// Replaces the multibase private encoding.
    pub fn set_private_key_multibase(&mut self, private_key_multibase: Option<String>)
        ensures
            *final(self) == (KeyPair { private_key_multibase, ..*old(self) }),
    {
        self.private_key_multibase = private_key_multibase;
    }
    /// The controller identifier, if any.
    pub fn controller(&self) -> (r: Option<String>)
        ensures
            r == self.controller,
    {
        clone_opt_string(&self.controller)
    }

    /// Replaces the controller identifier.
    pub fn set_controller(&mut self, controller: Option<String>)
        ensures
            *final(self) == (KeyPair { controller, ..*old(self) }),
    {
        self.controller = controller;
    }
    /// The blockchain account identifier, if any.
    pub fn blockchain_account_id(&self) -> (r: Option<String>)
        ensures
            r == self.blockchain_account_id,
    {
        clone_opt_string(&self.blockchain_account_id)
    }

    /// Replaces the blockchain account identifier.
    pub fn set_blockchain_account_id(&mut self, blockchain_account_id: Option<String>)
        ensures
            *final(self) == (KeyPair { blockchain_account_id, ..*old(self) }),
    {
        self.blockchain_account_id = blockchain_account_id;
    }
    /// The hex public encoding, if any.
    pub fn public_key_hex(&self) -> (r: Option<String>)
        ensures
            r == self.public_key_hex,
    {
        clone_opt_string(&self.public_key_hex)
    }

    /// Replaces the hex public encoding.
    pub fn set_public_key_hex(&mut self, public_key_hex: Option<String>)
        ensures
            *final(self) == (KeyPair { public_key_hex, ..*old(self) }),
    {
        self.public_key_hex = public_key_hex;
    }
    /// The ethereum address, if any.
    pub fn ethereum_address(&self) -> (r: Option<String>)
        ensures
            r == self.ethereum_address,
    {
        clone_opt_string(&self.ethereum_address)
    }

    /// Replaces the ethereum address.
    pub fn set_ethereum_address(&mut self, ethereum_address: Option<String>)
        ensures
            *final(self) == (KeyPair { ethereum_address, ..*old(self) }),
    {
        self.ethereum_address = ethereum_address;
    }
    /// The base64 public encoding, if any.
    pub fn public_key_base64(&self) -> (r: Option<String>)
        ensures
            r == self.public_key_base64,
    {
        clone_opt_string(&self.public_key_base64)
    }

    /// Replaces the base64 public encoding.
    pub fn set_public_key_base64(&mut self, public_key_base64: Option<String>)
        ensures
            *final(self) == (KeyPair { public_key_base64, ..*old(self) }),
    {
        self.public_key_base64 = public_key_base64;
    }
    /// The PEM public encoding, if any.
    pub fn public_key_pem(&self) -> (r: Option<String>)
        ensures
            r == self.public_key_pem,
    {
        clone_opt_string(&self.public_key_pem)
    }

    /// Replaces the PEM public encoding.
    pub fn set_public_key_pem(&mut self, public_key_pem: Option<String>)
        ensures
            *final(self) == (KeyPair { public_key_pem, ..*old(self) }),
    {
        self.public_key_pem = public_key_pem;
    }
    /// The hex private encoding, if any.
    pub fn private_key_hex(&self) -> (r: Option<String>)
        ensures
            r == self.private_key_hex,
    {
        clone_opt_string(&self.private_key_hex)
    }

    /// Replaces the hex private encoding.
    pub fn set_private_key_hex(&mut self, private_key_hex: Option<String>)
        ensures
            *final(self) == (KeyPair { private_key_hex, ..*old(self) }),
    {
        self.private_key_hex = private_key_hex;
    }
    /// The base64 private encoding, if any.
    pub fn private_key_base64(&self) -> (r: Option<String>)
        ensures
            r == self.private_key_base64,
    {
        clone_opt_string(&self.private_key_base64)
    }

    /// Replaces the base64 private encoding.
    pub fn set_private_key_base64(&mut self, private_key_base64: Option<String>)
        ensures
            *final(self) == (KeyPair { private_key_base64, ..*old(self) }),
    {
        self.private_key_base64 = private_key_base64;
    }
    /// The PEM private encoding, if any.
    pub fn private_key_pem(&self) -> (r: Option<String>)
        ensures
            r == self.private_key_pem,
    {
        clone_opt_string(&self.private_key_pem)
    }

    /// Replaces the PEM private encoding.
    pub fn set_private_key_pem(&mut self, private_key_pem: Option<String>)
        ensures
            *final(self) == (KeyPair { private_key_pem, ..*old(self) }),
    {
        self.private_key_pem = private_key_pem;
    }
    /// The free-form value, if any.
    pub fn value(&self) -> (r: Option<String>)
        ensures
            r == self.value,
    {
        clone_opt_string(&self.value)
    }

    /// Replaces the free-form value.
    pub fn set_value(&mut self, value: Option<String>)
        ensures
            *final(self) == (KeyPair { value, ..*old(self) }),
    {
        self.value = value;
    }
    /// The algorithm/type string of the key.
    pub fn _type(&self) -> (r: String)
        ensures
            r == self._type,
    {
        self._type.clone()
    }

    /// Replaces the algorithm/type string.
    pub fn set_type(&mut self, _type: String)
        ensures
            *final(self) == (KeyPair { _type, ..*old(self) }),
    {
        self._type = _type;
    }

    /// The JSON-LD context list of the key, if any.
    pub fn context(&self) -> (r: Option<Vec<String>>)
        ensures
            r.deep_view() == self.context.deep_view(),
    {
        clone_opt_string_vec(&self.context)
    }

    /// Replaces the JSON-LD context list.
    pub fn set_context(&mut self, context: Option<Vec<String>>)
        ensures
            *final(self) == (KeyPair { context, ..*old(self) }),
    {
        self.context = context;
    }

    /// The public JWK, if any, as an independent copy.
    pub fn public_key_jwk(&self) -> (r: Option<Json>)
        ensures
            r.deep_view() == self.public_key_jwk.deep_view(),
    {
        clone_opt_json(&self.public_key_jwk)
    }

    /// Replaces the public JWK.
    pub fn set_public_key_jwk(&mut self, public_key_jwk: Option<Json>)
        ensures
            *final(self) == (KeyPair { public_key_jwk, ..*old(self) }),
    {
        self.public_key_jwk = public_key_jwk;
    }
}

impl Clone for KeyPair {
    /// A clone is an independent copy, equal to the source in the model.
    fn clone(&self) -> (r: KeyPair)
        ensures
            r.deep_view() == self.deep_view(),
    {
        self.deep_clone()
    }
}

/// The capability contract a concrete signing-key suite satisfies to act
/// as a verification method.
///
/// The static and instance accessors for the suite identifier and the
/// suite context must agree: both return the one identifier and the one
/// context the suite declares. `export` projects the key into a canonical
/// record and must neither include a private encoding when `private_key`
/// is false nor fabricate a public encoding when `public_key` is false.
pub trait VerificationKey: Sized {
    /// The suite's stable algorithm identifier.
    spec fn spec_suite_id() -> Seq<char>;

    /// The JSON-LD context URI associated with the suite.
    spec fn spec_suite_context() -> Seq<char>;

    /// The key type carried by exported records.
    spec fn spec_type(&self) -> Seq<char>;

    /// The controller identifier of this key, if any.
    spec fn spec_controller(&self) -> Option<Seq<char>>;

    /// The suite's textual encoding of the public half.
    spec fn spec_public_key(&self) -> Seq<char>;

    /// The suite's textual encoding of the private half, if it holds one.
    spec fn spec_private_key(&self) -> Option<Seq<char>>;

    /// Derives a full key pair from an opaque fingerprint string, or
    /// fails with a construction error when the fingerprint is malformed
    /// for this suite.
    fn from_fingerprint(fingerprint: &str) -> Result<Self, Error>;

    /// The suite's stable algorithm identifier.
    fn get_suite_id() -> (r: &'static str)
        ensures
            r@ == Self::spec_suite_id(),
    ;

    /// The algorithm identifier of this instance; agrees with
    /// [`Self::get_suite_id`].
    fn get_current_suite_id(&self) -> (r: &'static str)
        ensures
            r@ == Self::spec_suite_id(),
    ;

    /// The suite's JSON-LD context URI.
    fn get_suite_context() -> (r: &'static str)
        ensures
            r@ == Self::spec_suite_context(),
    ;

    /// The context URI of this instance; agrees with
    /// [`Self::get_suite_context`].
    fn get_current_suite_context(&self) -> (r: &'static str)
        ensures
            r@ == Self::spec_suite_context(),
    ;

    /// The controller identifier of this key, if any.
    fn get_controller(&self) -> (r: &Option<String>)
        ensures
            r.deep_view() == self.spec_controller(),
    ;

    /// The key type carried by exported records.
    fn get_type(&self) -> (r: String)
        ensures
            r@ == self.spec_type(),
    ;

    /// The suite's encoding of the private half, if it holds one.
    fn get_private_key_content(&self) -> (r: &Option<String>)
        ensures
            r.deep_view() == self.spec_private_key(),
    ;

    /// The suite's encoding of the public half.
    fn get_public_key_content(&self) -> (r: &String)
        ensures
            r@ == self.spec_public_key(),
    ;

    /// Projects the key into a canonical record, selectively omitting the
    /// public half, the private half, or the context, per flags.
    fn export(&self, public_key: bool, private_key: bool, include_context: bool) -> (r: KeyPair)
        ensures
            public_key == has_public_encoding(r.deep_view()),
            !private_key ==> !has_private_encoding(r.deep_view()),
            private_key ==> (has_private_encoding(r.deep_view()) <==> self.spec_private_key()
                is Some),
            r.deep_view()._type == self.spec_type(),
            r.deep_view().controller == self.spec_controller(),
            include_context ==> r.deep_view().context == Some(seq![Self::spec_suite_context()]),
            !include_context ==> r.deep_view().context is None,
    ;
}

/// The capability contract a concrete key-agreement suite satisfies: the
/// analogue of [`VerificationKey`] for encryption-oriented keys, which
/// are not identified by a standalone signature suite id.
pub trait AgreementKey: Sized {
    /// The JSON-LD context URI associated with the suite.
    spec fn spec_suite_context() -> Seq<char>;

    /// The key type carried by exported records.
    spec fn spec_type(&self) -> Seq<char>;

    /// The controller identifier of this key, if any.
    spec fn spec_controller(&self) -> Option<Seq<char>>;

    /// The suite's textual encoding of the public half.
    spec fn spec_public_key(&self) -> Seq<char>;

    /// The suite's textual encoding of the private half, if it holds one.
    spec fn spec_private_key(&self) -> Option<Seq<char>>;

    /// The suite's JSON-LD context URI.
    fn get_suite_context() -> (r: &'static str)
        ensures
            r@ == Self::spec_suite_context(),
    ;

    /// The context URI of this instance; agrees with
    /// [`Self::get_suite_context`].
    fn get_current_suite_context(&self) -> (r: &'static str)
        ensures
            r@ == Self::spec_suite_context(),
    ;

    /// The controller identifier of this key, if any.
    fn get_controller(&self) -> (r: &Option<String>)
        ensures
            r.deep_view() == self.spec_controller(),
    ;

    /// The suite's encoding of the private half, if it holds one.
    fn get_private_key_content(&self) -> (r: &Option<String>)
        ensures
            r.deep_view() == self.spec_private_key(),
    ;

    /// The suite's encoding of the public half.
    fn get_public_key_content(&self) -> (r: &String)
        ensures
            r@ == self.spec_public_key(),
    ;

    /// Projects the key into a canonical record, selectively omitting the
    /// public half, the private half, or the context, per flags.
    fn export(&self, public_key: bool, private_key: bool, include_context: bool) -> (r: KeyPair)
        ensures
            public_key == has_public_encoding(r.deep_view()),
            !private_key ==> !has_private_encoding(r.deep_view()),
            private_key ==> (has_private_encoding(r.deep_view()) <==> self.spec_private_key()
                is Some),
            r.deep_view()._type == self.spec_type(),
            r.deep_view().controller == self.spec_controller(),
            include_context ==> r.deep_view().context == Some(seq![Self::spec_suite_context()]),
            !include_context ==> r.deep_view().context is None,
    ;
}

} // verus!
