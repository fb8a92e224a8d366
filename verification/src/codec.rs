//! The codec between documents and their JSON wire shape.
//!
//! Field names are fixed by the identity-document standard. Every field
//! of a record is emitted, in a fixed order, with `null` standing for an
//! absent optional field; a decoder therefore requires every field name
//! to be present, looks fields up by name, and accepts entries in any
//! order.

use vstd::prelude::*;

use crate::did::{DidDocument, DidDocumentView, Service, ServiceView};
use crate::error::Error;
use crate::json::{
    arr_view, entries_view, json_view, lemma_arr_view_index, lemma_arr_view_len,
    lemma_entries_view_push, obj_get, obj_lookup, obj_lookup_from, Json, JsonView,
};
use crate::keys::{KeyPair, KeyPairView};

verus! {

/// The wire form of an optional string: the string, or null.
pub open spec fn opt_str_view(o: Option<Seq<char>>) -> JsonView {
    match o {
        Some(s) => JsonView::Str(s),
        None => JsonView::Null,
    }
}

/// The wire form of an optional boolean: the boolean, or null.
pub open spec fn opt_bool_view(o: Option<bool>) -> JsonView {
    match o {
        Some(b) => JsonView::Bool(b),
        None => JsonView::Null,
    }
}

/// The wire form of a string list: a list of strings, in order.
pub open spec fn str_list_view(l: Seq<Seq<char>>) -> JsonView {
    JsonView::Arr(Seq::new(l.len(), |i: int| JsonView::Str(l[i])))
}

/// The wire form of an optional string list: the list, or null.
pub open spec fn opt_str_list_view(o: Option<Seq<Seq<char>>>) -> JsonView {
    match o {
        Some(l) => str_list_view(l),
        None => JsonView::Null,
    }
}

/// The wire form of an optional structured value: the value, or null.
pub open spec fn opt_value_view(o: Option<JsonView>) -> JsonView {
    match o {
        Some(v) => v,
        None => JsonView::Null,
    }
}

/// The wire shape of a key record: one object holding every field, in a
/// fixed order, with null for each absent optional field.
pub open spec fn key_to_json(k: KeyPairView) -> JsonView {
    JsonView::Obj(
        seq![
            (("id")@, opt_str_view(k.id)),
            (("type")@, JsonView::Str(k._type)),
            (("@context")@, opt_str_list_view(k.context)),
            (("publicKeyBase58")@, opt_str_view(k.public_key_base58)),
            (("privateKeyBase58")@, opt_str_view(k.private_key_base58)),
            (("publicKeyMultibase")@, opt_str_view(k.public_key_multibase)),
            (("privateKeyMultibase")@, opt_str_view(k.private_key_multibase)),
            (("revoked")@, opt_bool_view(k.revoked)),
            (("controller")@, opt_str_view(k.controller)),
            (("blockchainAccountId")@, opt_str_view(k.blockchain_account_id)),
            (("publicKeyHex")@, opt_str_view(k.public_key_hex)),
            (("ethereumAddress")@, opt_str_view(k.ethereum_address)),
            (("publicKeyBase64")@, opt_str_view(k.public_key_base64)),
            (("publicKeyPem")@, opt_str_view(k.public_key_pem)),
            (("publicKeyJwk")@, opt_value_view(k.public_key_jwk)),
            (("privateKeyHex")@, opt_str_view(k.private_key_hex)),
            (("privateKeyBase64")@, opt_str_view(k.private_key_base64)),
            (("privateKeyPem")@, opt_str_view(k.private_key_pem)),
            (("value")@, opt_str_view(k.value)),
        ],
    )
}

/// The optional string under `name`: `Some(None)` for null, `Some(Some)`
/// for a string, `None` for a missing field or any other value.
pub open spec fn json_opt_str(
    entries: Seq<(Seq<char>, JsonView)>,
    name: Seq<char>,
) -> Option<Option<Seq<char>>> {
    match obj_lookup(entries, name) {
        Some(JsonView::Null) => Some(None),
        Some(JsonView::Str(s)) => Some(Some(s)),
        _ => None,
    }
}

/// The required string under `name`, or `None` where the field is
/// missing or holds any other value.
pub open spec fn json_req_str(entries: Seq<(Seq<char>, JsonView)>, name: Seq<char>) -> Option<
    Seq<char>,
> {
    match obj_lookup(entries, name) {
        Some(JsonView::Str(s)) => Some(s),
        _ => None,
    }
}

/// The optional boolean under `name`.
pub open spec fn json_opt_bool(entries: Seq<(Seq<char>, JsonView)>, name: Seq<char>) -> Option<
    Option<bool>,
> {
    match obj_lookup(entries, name) {
        Some(JsonView::Null) => Some(None),
        Some(JsonView::Bool(b)) => Some(Some(b)),
        _ => None,
    }
}

/// The string list a value holds, or `None` where the value is not a
/// list of strings.
pub open spec fn json_str_list(j: JsonView) -> Option<Seq<Seq<char>>> {
    match j {
        JsonView::Arr(items) => if forall|i: int| 0 <= i < items.len() ==> items[i] is Str {
            Some(Seq::new(items.len(), |i: int| items[i]->Str_0))
        } else {
            None
        },
        _ => None,
    }
}

/// The optional string list under `name`.
pub open spec fn json_opt_str_list(
    entries: Seq<(Seq<char>, JsonView)>,
    name: Seq<char>,
) -> Option<Option<Seq<Seq<char>>>> {
    match obj_lookup(entries, name) {
        Some(JsonView::Null) => Some(None),
        Some(v) => match json_str_list(v) {
            Some(l) => Some(Some(l)),
            None => None,
        },
        None => None,
    }
}

/// The optional structured value under `name`: null stands for absent.
pub open spec fn json_opt_value(entries: Seq<(Seq<char>, JsonView)>, name: Seq<char>) -> Option<
    Option<JsonView>,
> {
    match obj_lookup(entries, name) {
        Some(JsonView::Null) => Some(None),
        Some(v) => Some(Some(v)),
        None => None,
    }
}

/// The key record a wire value holds, or `None` where the value is not
/// an object carrying every key-record field with a value of its type.
pub open spec fn json_to_key(j: JsonView) -> Option<KeyPairView> {
    match j {
        JsonView::Obj(entries) => if {
            &&& json_opt_str(entries, ("id")@) is Some
            &&& json_req_str(entries, ("type")@) is Some
            &&& json_opt_str_list(entries, ("@context")@) is Some
            &&& json_opt_str(entries, ("publicKeyBase58")@) is Some
            &&& json_opt_str(entries, ("privateKeyBase58")@) is Some
            &&& json_opt_str(entries, ("publicKeyMultibase")@) is Some
            &&& json_opt_str(entries, ("privateKeyMultibase")@) is Some
            &&& json_opt_bool(entries, ("revoked")@) is Some
            &&& json_opt_str(entries, ("controller")@) is Some
            &&& json_opt_str(entries, ("blockchainAccountId")@) is Some
            &&& json_opt_str(entries, ("publicKeyHex")@) is Some
            &&& json_opt_str(entries, ("ethereumAddress")@) is Some
            &&& json_opt_str(entries, ("publicKeyBase64")@) is Some
            &&& json_opt_str(entries, ("publicKeyPem")@) is Some
            &&& json_opt_value(entries, ("publicKeyJwk")@) is Some
            &&& json_opt_str(entries, ("privateKeyHex")@) is Some
            &&& json_opt_str(entries, ("privateKeyBase64")@) is Some
            &&& json_opt_str(entries, ("privateKeyPem")@) is Some
            &&& json_opt_str(entries, ("value")@) is Some
        } {
            Some(
                KeyPairView {
                    id: json_opt_str(entries, ("id")@)->Some_0,
                    _type: json_req_str(entries, ("type")@)->Some_0,
                    context: json_opt_str_list(entries, ("@context")@)->Some_0,
                    public_key_base58: json_opt_str(entries, ("publicKeyBase58")@)->Some_0,
                    private_key_base58: json_opt_str(entries, ("privateKeyBase58")@)->Some_0,
                    public_key_multibase: json_opt_str(entries, ("publicKeyMultibase")@)->Some_0,
                    private_key_multibase: json_opt_str(entries, ("privateKeyMultibase")@)->Some_0,
                    revoked: json_opt_bool(entries, ("revoked")@)->Some_0,
                    controller: json_opt_str(entries, ("controller")@)->Some_0,
                    blockchain_account_id: json_opt_str(
                        entries,
                        ("blockchainAccountId")@,
                    )->Some_0,
                    public_key_hex: json_opt_str(entries, ("publicKeyHex")@)->Some_0,
                    ethereum_address: json_opt_str(entries, ("ethereumAddress")@)->Some_0,
                    public_key_base64: json_opt_str(entries, ("publicKeyBase64")@)->Some_0,
                    public_key_pem: json_opt_str(entries, ("publicKeyPem")@)->Some_0,
                    public_key_jwk: json_opt_value(entries, ("publicKeyJwk")@)->Some_0,
                    private_key_hex: json_opt_str(entries, ("privateKeyHex")@)->Some_0,
                    private_key_base64: json_opt_str(entries, ("privateKeyBase64")@)->Some_0,
                    private_key_pem: json_opt_str(entries, ("privateKeyPem")@)->Some_0,
                    value: json_opt_str(entries, ("value")@)->Some_0,
                },
            )
        } else {
            None
        },
        _ => None,
    }
}

/// Whether a key record survives the wire shape without loss: a
/// populated JWK is itself a structured object, never the null value, so
/// a record whose JWK field held null would be indistinguishable on the
/// wire from one with no JWK at all.
pub open spec fn key_lossless(k: KeyPairView) -> bool {
    k.public_key_jwk != Some(JsonView::Null)
}

/// The nineteen field names of a key record's wire shape are pairwise
/// distinct: their lengths, and one character where two lengths agree,
/// tell them apart.
proof fn lemma_key_field_names_distinct()
    ensures
        ("id")@.len() == 2,
        ("type")@.len() == 4,
        ("@context")@.len() == 8,
        ("publicKeyBase58")@.len() == 15,
        ("privateKeyBase58")@.len() == 16,
        ("publicKeyMultibase")@.len() == 18,
        ("privateKeyMultibase")@.len() == 19,
        ("revoked")@.len() == 7,
        ("controller")@.len() == 10,
        ("blockchainAccountId")@.len() == 19,
        ("publicKeyHex")@.len() == 12,
        ("ethereumAddress")@.len() == 15,
        ("publicKeyBase64")@.len() == 15,
        ("publicKeyPem")@.len() == 12,
        ("publicKeyJwk")@.len() == 12,
        ("privateKeyHex")@.len() == 13,
        ("privateKeyBase64")@.len() == 16,
        ("privateKeyPem")@.len() == 13,
        ("value")@.len() == 5,
        ("publicKeyHex")@[9] == 'H',
        ("publicKeyPem")@[9] == 'P',
        ("publicKeyJwk")@[9] == 'J',
        ("privateKeyHex")@[10] == 'H',
        ("privateKeyPem")@[10] == 'P',
        ("publicKeyBase58")@[13] == '5',
        ("publicKeyBase64")@[13] == '6',
        ("privateKeyBase58")@[14] == '5',
        ("privateKeyBase64")@[14] == '6',
        ("ethereumAddress")@[0] == 'e',
        ("publicKeyBase58")@[0] == 'p',
        ("publicKeyBase64")@[0] == 'p',
        ("privateKeyMultibase")@[0] == 'p',
        ("blockchainAccountId")@[0] == 'b',
{
    reveal_strlit("id");
    reveal_strlit("type");
    reveal_strlit("@context");
    reveal_strlit("publicKeyBase58");
    reveal_strlit("privateKeyBase58");
    reveal_strlit("publicKeyMultibase");
    reveal_strlit("privateKeyMultibase");
    reveal_strlit("revoked");
    reveal_strlit("controller");
    reveal_strlit("blockchainAccountId");
    reveal_strlit("publicKeyHex");
    reveal_strlit("ethereumAddress");
    reveal_strlit("publicKeyBase64");
    reveal_strlit("publicKeyPem");
    reveal_strlit("publicKeyJwk");
    reveal_strlit("privateKeyHex");
    reveal_strlit("privateKeyBase64");
    reveal_strlit("privateKeyPem");
    reveal_strlit("value");
}

/// Decoding the wire shape of a key record yields the record back: the
/// codec loses no populated field of any lossless key record.
pub proof fn lemma_key_round_trip(k: KeyPairView)
    requires
        key_lossless(k),
    ensures
        json_to_key(key_to_json(k)) == Some(k),
{
    reveal_with_fuel(obj_lookup_from, 21);
    lemma_key_field_names_distinct();
    let entries = key_to_json(k)->Obj_0;
    assert(json_opt_str(entries, ("id")@) == Some(k.id));
    assert(json_req_str(entries, ("type")@) == Some(k._type));
    assert(obj_lookup(entries, ("@context")@) == Some(opt_str_list_view(k.context)));
    if k.context is Some {
        let l = k.context->Some_0;
        assert(json_str_list(str_list_view(l)) == Some(l)) by {
            let items = str_list_view(l)->Arr_0;
            assert(Seq::new(items.len(), |i: int| items[i]->Str_0) =~= l);
        }
    }
    assert(json_opt_str_list(entries, ("@context")@) == Some(k.context));
    assert(json_opt_str(entries, ("publicKeyBase58")@) == Some(k.public_key_base58));
    assert(json_opt_str(entries, ("privateKeyBase58")@) == Some(k.private_key_base58));
    assert(json_opt_str(entries, ("publicKeyMultibase")@) == Some(k.public_key_multibase));
    assert(json_opt_str(entries, ("privateKeyMultibase")@) == Some(k.private_key_multibase));
    assert(json_opt_bool(entries, ("revoked")@) == Some(k.revoked));
    assert(json_opt_str(entries, ("controller")@) == Some(k.controller));
    assert(json_opt_str(entries, ("blockchainAccountId")@) == Some(k.blockchain_account_id));
    assert(json_opt_str(entries, ("publicKeyHex")@) == Some(k.public_key_hex));
    assert(json_opt_str(entries, ("ethereumAddress")@) == Some(k.ethereum_address));
    assert(json_opt_str(entries, ("publicKeyBase64")@) == Some(k.public_key_base64));
    assert(json_opt_str(entries, ("publicKeyPem")@) == Some(k.public_key_pem));
    assert(json_opt_value(entries, ("publicKeyJwk")@) == Some(k.public_key_jwk));
    assert(json_opt_str(entries, ("privateKeyHex")@) == Some(k.private_key_hex));
    assert(json_opt_str(entries, ("privateKeyBase64")@) == Some(k.private_key_base64));
    assert(json_opt_str(entries, ("privateKeyPem")@) == Some(k.private_key_pem));
    assert(json_opt_str(entries, ("value")@) == Some(k.value));
}

/// A key record that populates only its JWK public encoding, with both
/// base58 and multibase absent, still round-trips through the wire shape
/// without field loss.
pub proof fn lemma_jwk_only_key_round_trip(k: KeyPairView)
    requires
        k.public_key_base58 is None,
        k.public_key_multibase is None,
        k.public_key_jwk matches Some(v) && v != JsonView::Null,
    ensures
        json_to_key(key_to_json(k)) == Some(k),
{
    lemma_key_round_trip(k);
}

/// A string list round-trips through its wire form.
pub proof fn lemma_str_list_round_trip(l: Seq<Seq<char>>)
    ensures
        json_str_list(str_list_view(l)) == Some(l),
{
    let items = str_list_view(l)->Arr_0;
    assert(Seq::new(items.len(), |i: int| items[i]->Str_0) =~= l);
}

/// The wire shape of a service entry: one object holding the identifier,
/// the type, and the endpoint value as it stands.
pub open spec fn service_to_json(s: ServiceView) -> JsonView {
    JsonView::Obj(
        seq![
            (("id")@, JsonView::Str(s.id)),
            (("type")@, JsonView::Str(s._type)),
            (("serviceEndpoint")@, s.service_endpoint),
        ],
    )
}

/// The service entry a wire value holds, or `None` where the value is
/// not an object carrying a string id, a string type, and an endpoint.
pub open spec fn json_to_service(j: JsonView) -> Option<ServiceView> {
    match j {
        JsonView::Obj(entries) => if {
            &&& json_req_str(entries, ("id")@) is Some
            &&& json_req_str(entries, ("type")@) is Some
            &&& obj_lookup(entries, ("serviceEndpoint")@) is Some
        } {
            Some(
                ServiceView {
                    id: json_req_str(entries, ("id")@)->Some_0,
                    _type: json_req_str(entries, ("type")@)->Some_0,
                    service_endpoint: obj_lookup(entries, ("serviceEndpoint")@)->Some_0,
                },
            )
        } else {
            None
        },
        _ => None,
    }
}

/// Decoding the wire shape of a service entry yields the entry back,
/// whatever shape its endpoint value has.
pub proof fn lemma_service_round_trip(s: ServiceView)
    ensures
        json_to_service(service_to_json(s)) == Some(s),
{
    reveal_strlit("id");
    reveal_strlit("type");
    reveal_strlit("serviceEndpoint");
    assert(("id")@.len() == 2);
    assert(("type")@.len() == 4);
    assert(("serviceEndpoint")@.len() == 15);
    reveal_with_fuel(obj_lookup_from, 5);
    let entries = service_to_json(s)->Obj_0;
    assert(json_req_str(entries, ("id")@) == Some(s.id));
    assert(json_req_str(entries, ("type")@) == Some(s._type));
    assert(obj_lookup(entries, ("serviceEndpoint")@) == Some(s.service_endpoint));
}

/// The wire form of a key list: the wire shape of each record, in order.
pub open spec fn key_list_view(l: Seq<KeyPairView>) -> JsonView {
    JsonView::Arr(Seq::new(l.len(), |i: int| key_to_json(l[i])))
}

/// The wire form of an optional key list: the list, or null.
pub open spec fn opt_key_list_view(o: Option<Seq<KeyPairView>>) -> JsonView {
    match o {
        Some(l) => key_list_view(l),
        None => JsonView::Null,
    }
}

/// The wire form of a service list: the wire shape of each entry, in
/// order.
pub open spec fn service_list_view(l: Seq<ServiceView>) -> JsonView {
    JsonView::Arr(Seq::new(l.len(), |i: int| service_to_json(l[i])))
}

/// The wire form of an optional service list: the list, or null.
pub open spec fn opt_service_list_view(o: Option<Seq<ServiceView>>) -> JsonView {
    match o {
        Some(l) => service_list_view(l),
        None => JsonView::Null,
    }
}

/// The key list a wire value holds, or `None` where the value is not a
/// list of well-formed key records.
pub open spec fn json_key_list(j: JsonView) -> Option<Seq<KeyPairView>> {
    match j {
        JsonView::Arr(items) => if forall|i: int|
            0 <= i < items.len() ==> json_to_key(#[trigger] items[i]) is Some {
            Some(Seq::new(items.len(), |i: int| json_to_key(items[i])->Some_0))
        } else {
            None
        },
        _ => None,
    }
}

/// The optional key list under `name`.
pub open spec fn json_opt_key_list(
    entries: Seq<(Seq<char>, JsonView)>,
    name: Seq<char>,
) -> Option<Option<Seq<KeyPairView>>> {
    match obj_lookup(entries, name) {
        Some(JsonView::Null) => Some(None),
        Some(v) => match json_key_list(v) {
            Some(l) => Some(Some(l)),
            None => None,
        },
        None => None,
    }
}

/// The service list a wire value holds, or `None` where the value is not
/// a list of well-formed service entries.
pub open spec fn json_service_list(j: JsonView) -> Option<Seq<ServiceView>> {
    match j {
        JsonView::Arr(items) => if forall|i: int|
            0 <= i < items.len() ==> json_to_service(#[trigger] items[i]) is Some {
            Some(Seq::new(items.len(), |i: int| json_to_service(items[i])->Some_0))
        } else {
            None
        },
        _ => None,
    }
}

/// The optional service list under `name`.
pub open spec fn json_opt_service_list(
    entries: Seq<(Seq<char>, JsonView)>,
    name: Seq<char>,
) -> Option<Option<Seq<ServiceView>>> {
    match obj_lookup(entries, name) {
        Some(JsonView::Null) => Some(None),
        Some(v) => match json_service_list(v) {
            Some(l) => Some(Some(l)),
            None => None,
        },
        None => None,
    }
}

/// The required string list under `name`, or `None` where the field is
/// missing or holds anything but a list of strings.
pub open spec fn json_req_str_list(entries: Seq<(Seq<char>, JsonView)>, name: Seq<char>) -> Option<
    Seq<Seq<char>>,
> {
    match obj_lookup(entries, name) {
        Some(v) => json_str_list(v),
        None => None,
    }
}

/// The wire shape of a document: one object holding every field, in a
/// fixed order, with null for each absent optional field.
pub open spec fn doc_to_json(d: DidDocumentView) -> JsonView {
    JsonView::Obj(
        seq![
            (("@context")@, str_list_view(d.context)),
            (("id")@, JsonView::Str(d.id)),
            (("verificationMethod")@, opt_key_list_view(d.verification_method)),
            (("authentication")@, opt_str_list_view(d.authentication)),
            (("assertionMethod")@, opt_str_list_view(d.assertion_method)),
            (("capabilityDelegation")@, opt_str_list_view(d.capability_delegation)),
            (("capabilityInvocation")@, opt_str_list_view(d.capability_invocation)),
            (("keyAgreement")@, opt_key_list_view(d.key_agreement)),
            (("service")@, opt_service_list_view(d.services)),
        ],
    )
}

/// The document a wire value holds, or `None` where the value is not an
/// object carrying every document field with a value of its type.
pub open spec fn json_to_doc(j: JsonView) -> Option<DidDocumentView> {
    match j {
        JsonView::Obj(entries) => if {
            &&& json_req_str_list(entries, ("@context")@) is Some
            &&& json_req_str(entries, ("id")@) is Some
            &&& json_opt_key_list(entries, ("verificationMethod")@) is Some
            &&& json_opt_str_list(entries, ("authentication")@) is Some
            &&& json_opt_str_list(entries, ("assertionMethod")@) is Some
            &&& json_opt_str_list(entries, ("capabilityDelegation")@) is Some
            &&& json_opt_str_list(entries, ("capabilityInvocation")@) is Some
            &&& json_opt_key_list(entries, ("keyAgreement")@) is Some
            &&& json_opt_service_list(entries, ("service")@) is Some
        } {
            Some(
                DidDocumentView {
                    context: json_req_str_list(entries, ("@context")@)->Some_0,
                    id: json_req_str(entries, ("id")@)->Some_0,
                    verification_method: json_opt_key_list(
                        entries,
                        ("verificationMethod")@,
                    )->Some_0,
                    authentication: json_opt_str_list(entries, ("authentication")@)->Some_0,
                    assertion_method: json_opt_str_list(entries, ("assertionMethod")@)->Some_0,
                    capability_delegation: json_opt_str_list(
                        entries,
                        ("capabilityDelegation")@,
                    )->Some_0,
                    capability_invocation: json_opt_str_list(
                        entries,
                        ("capabilityInvocation")@,
                    )->Some_0,
                    key_agreement: json_opt_key_list(entries, ("keyAgreement")@)->Some_0,
                    services: json_opt_service_list(entries, ("service")@)->Some_0,
                },
            )
        } else {
            None
        },
        _ => None,
    }
}

/// Whether a document survives the wire shape without loss: every key
/// record it carries must itself be lossless.
pub open spec fn doc_lossless(d: DidDocumentView) -> bool {
    &&& (d.verification_method matches Some(l) ==> forall|i: int|
        0 <= i < l.len() ==> key_lossless(#[trigger] l[i]))
    &&& (d.key_agreement matches Some(l) ==> forall|i: int|
        0 <= i < l.len() ==> key_lossless(#[trigger] l[i]))
}

/// A key list whose records are all lossless round-trips through its
/// wire form.
pub proof fn lemma_key_list_round_trip(l: Seq<KeyPairView>)
    requires
        forall|i: int| 0 <= i < l.len() ==> key_lossless(#[trigger] l[i]),
    ensures
        json_key_list(key_list_view(l)) == Some(l),
{
    let items = key_list_view(l)->Arr_0;
    assert forall|i: int| 0 <= i < items.len() implies json_to_key(#[trigger] items[i]) is Some by {
        lemma_key_round_trip(l[i]);
    }
    assert forall|i: int| 0 <= i < items.len() implies json_to_key(items[i])->Some_0 == l[i] by {
        lemma_key_round_trip(l[i]);
    }
    assert(Seq::new(items.len(), |i: int| json_to_key(items[i])->Some_0) =~= l);
}

/// A service list round-trips through its wire form.
pub proof fn lemma_service_list_round_trip(l: Seq<ServiceView>)
    ensures
        json_service_list(service_list_view(l)) == Some(l),
{
    let items = service_list_view(l)->Arr_0;
    assert forall|i: int| 0 <= i < items.len() implies json_to_service(#[trigger] items[i])
        is Some by {
        lemma_service_round_trip(l[i]);
    }
    assert forall|i: int| 0 <= i < items.len() implies json_to_service(items[i])->Some_0
        == l[i] by {
        lemma_service_round_trip(l[i]);
    }
    assert(Seq::new(items.len(), |i: int| json_to_service(items[i])->Some_0) =~= l);
}

/// The nine field names of a document's wire shape are pairwise
/// distinct.
proof fn lemma_doc_field_names_distinct()
    ensures
        ("@context")@.len() == 8,
        ("id")@.len() == 2,
        ("verificationMethod")@.len() == 18,
        ("authentication")@.len() == 14,
        ("assertionMethod")@.len() == 15,
        ("capabilityDelegation")@.len() == 20,
        ("capabilityInvocation")@.len() == 20,
        ("keyAgreement")@.len() == 12,
        ("service")@.len() == 7,
        ("capabilityDelegation")@[10] == 'D',
        ("capabilityInvocation")@[10] == 'I',
{
    reveal_strlit("@context");
    reveal_strlit("id");
    reveal_strlit("verificationMethod");
    reveal_strlit("authentication");
    reveal_strlit("assertionMethod");
    reveal_strlit("capabilityDelegation");
    reveal_strlit("capabilityInvocation");
    reveal_strlit("keyAgreement");
    reveal_strlit("service");
}

/// Decoding the wire shape of a document yields the document back, equal
/// in every populated field: the codec loses nothing of any lossless
/// document.
pub proof fn lemma_doc_round_trip(d: DidDocumentView)
    requires
        doc_lossless(d),
    ensures
        json_to_doc(doc_to_json(d)) == Some(d),
{
    reveal_with_fuel(obj_lookup_from, 11);
    lemma_doc_field_names_distinct();
    let entries = doc_to_json(d)->Obj_0;
    lemma_str_list_round_trip(d.context);
    assert(json_req_str_list(entries, ("@context")@) == Some(d.context));
    assert(json_req_str(entries, ("id")@) == Some(d.id));
    match d.verification_method {
        Some(l) => lemma_key_list_round_trip(l),
        None => (),
    }
    assert(json_opt_key_list(entries, ("verificationMethod")@) == Some(d.verification_method));
    match d.authentication {
        Some(l) => lemma_str_list_round_trip(l),
        None => (),
    }
    assert(json_opt_str_list(entries, ("authentication")@) == Some(d.authentication));
    match d.assertion_method {
        Some(l) => lemma_str_list_round_trip(l),
        None => (),
    }
    assert(json_opt_str_list(entries, ("assertionMethod")@) == Some(d.assertion_method));
    match d.capability_delegation {
        Some(l) => lemma_str_list_round_trip(l),
        None => (),
    }
    assert(json_opt_str_list(entries, ("capabilityDelegation")@) == Some(d.capability_delegation));
    match d.capability_invocation {
        Some(l) => lemma_str_list_round_trip(l),
        None => (),
    }
    assert(json_opt_str_list(entries, ("capabilityInvocation")@) == Some(d.capability_invocation));
    match d.key_agreement {
        Some(l) => lemma_key_list_round_trip(l),
        None => (),
    }
    assert(json_opt_key_list(entries, ("keyAgreement")@) == Some(d.key_agreement));
    match d.services {
        Some(l) => lemma_service_list_round_trip(l),
        None => (),
    }
    assert(json_opt_service_list(entries, ("service")@) == Some(d.services));
}

/// The wire form of an optional string field.
fn opt_str_to_json(v: &Option<String>) -> (r: Json)
    ensures
        json_view(r) == opt_str_view(v.deep_view()),
{
    match v {
        Some(s) => Json::Str(s.clone()),
        None => Json::Null,
    }
}

/// The wire form of an optional boolean field.
fn opt_bool_to_json(v: &Option<bool>) -> (r: Json)
    ensures
        json_view(r) == opt_bool_view(*v),
{
    match v {
        Some(b) => Json::Bool(*b),
        None => Json::Null,
    }
}

/// The wire form of a string-list field.
fn str_vec_to_json(v: &Vec<String>) -> (r: Json)
    ensures
        json_view(r) == str_list_view(v.deep_view()),
{
    let mut items: Vec<Json> = Vec::new();
    let mut i: usize = 0;
    while i < v.len()
        invariant
            i <= v.len(),
            items@.len() == i as int,
            forall|k: int| 0 <= k < i ==> json_view(#[trigger] items@[k]) == JsonView::Str(v@[k]@),
        decreases v.len() - i,
    {
        items.push(Json::Str(v[i].clone()));
        i = i + 1;
    }
    proof {
        lemma_arr_view_len(items@);
        assert forall|k: int| 0 <= k < items@.len() implies arr_view(items@)[k] == str_list_view(
            v.deep_view(),
        )->Arr_0[k] by {
            lemma_arr_view_index(items@, k);
        }
        assert(arr_view(items@) =~= str_list_view(v.deep_view())->Arr_0);
    }
    Json::Arr(items)
}

/// The wire form of an optional string-list field.
fn opt_str_vec_to_json(v: &Option<Vec<String>>) -> (r: Json)
    ensures
        json_view(r) == opt_str_list_view(v.deep_view()),
{
    match v {
        Some(l) => str_vec_to_json(l),
        None => Json::Null,
    }
}

/// The wire form of an optional structured-value field.
fn opt_json_to_json(v: &Option<Json>) -> (r: Json)
    ensures
        json_view(r) == opt_value_view(v.deep_view()),
{
    match v {
        Some(j) => j.deep_clone(),
        None => Json::Null,
    }
}

/// Encodes a key record into its wire shape.
#[verifier::rlimit(60)]
pub fn encode_key_pair(k: &KeyPair) -> (j: Json)
    ensures
        j.deep_view() == key_to_json(k.deep_view()),
{
    broadcast use lemma_entries_view_push;

    let mut entries: Vec<(String, Json)> = Vec::new();
    entries.push(("id".to_owned(), opt_str_to_json(&k.id)));
    entries.push(("type".to_owned(), Json::Str(k._type.clone())));
    entries.push(("@context".to_owned(), opt_str_vec_to_json(&k.context)));
    entries.push(("publicKeyBase58".to_owned(), opt_str_to_json(&k.public_key_base58)));
    entries.push(("privateKeyBase58".to_owned(), opt_str_to_json(&k.private_key_base58)));
    entries.push(("publicKeyMultibase".to_owned(), opt_str_to_json(&k.public_key_multibase)));
    entries.push(("privateKeyMultibase".to_owned(), opt_str_to_json(&k.private_key_multibase)));
    entries.push(("revoked".to_owned(), opt_bool_to_json(&k.revoked)));
    entries.push(("controller".to_owned(), opt_str_to_json(&k.controller)));
    entries.push(("blockchainAccountId".to_owned(), opt_str_to_json(&k.blockchain_account_id)));
    entries.push(("publicKeyHex".to_owned(), opt_str_to_json(&k.public_key_hex)));
    entries.push(("ethereumAddress".to_owned(), opt_str_to_json(&k.ethereum_address)));
    entries.push(("publicKeyBase64".to_owned(), opt_str_to_json(&k.public_key_base64)));
    entries.push(("publicKeyPem".to_owned(), opt_str_to_json(&k.public_key_pem)));
    entries.push(("publicKeyJwk".to_owned(), opt_json_to_json(&k.public_key_jwk)));
    entries.push(("privateKeyHex".to_owned(), opt_str_to_json(&k.private_key_hex)));
    entries.push(("privateKeyBase64".to_owned(), opt_str_to_json(&k.private_key_base64)));
    entries.push(("privateKeyPem".to_owned(), opt_str_to_json(&k.private_key_pem)));
    entries.push(("value".to_owned(), opt_str_to_json(&k.value)));
    proof {
        assert(entries_view(entries@) =~= key_to_json(k.deep_view())->Obj_0);
    }
    Json::Obj(entries)
}

/// Encodes a service entry into its wire shape.
pub fn encode_service(s: &Service) -> (j: Json)
    ensures
        j.deep_view() == service_to_json(s.deep_view()),
{
    broadcast use lemma_entries_view_push;

    let mut entries: Vec<(String, Json)> = Vec::new();
    entries.push(("id".to_owned(), Json::Str(s.id.clone())));
    entries.push(("type".to_owned(), Json::Str(s._type.clone())));
    entries.push(("serviceEndpoint".to_owned(), s.service_endpoint.deep_clone()));
    proof {
        assert(entries_view(entries@) =~= service_to_json(s.deep_view())->Obj_0);
    }
    Json::Obj(entries)
}

/// The wire form of a key-list field.
fn key_vec_to_json(v: &Vec<KeyPair>) -> (r: Json)
    ensures
        json_view(r) == key_list_view(v.deep_view()),
{
    let mut items: Vec<Json> = Vec::new();
    let mut i: usize = 0;
    while i < v.len()
        invariant
            i <= v.len(),
            items@.len() == i as int,
            forall|k: int|
                0 <= k < i ==> json_view(#[trigger] items@[k]) == key_to_json(v@[k].deep_view()),
        decreases v.len() - i,
    {
        items.push(encode_key_pair(&v[i]));
        i = i + 1;
    }
    proof {
        lemma_arr_view_len(items@);
        assert forall|k: int| 0 <= k < items@.len() implies arr_view(items@)[k] == key_list_view(
            v.deep_view(),
        )->Arr_0[k] by {
            lemma_arr_view_index(items@, k);
        }
        assert(arr_view(items@) =~= key_list_view(v.deep_view())->Arr_0);
    }
    Json::Arr(items)
}

/// The wire form of an optional key-list field.
fn opt_key_vec_to_json(v: &Option<Vec<KeyPair>>) -> (r: Json)
    ensures
        json_view(r) == opt_key_list_view(v.deep_view()),
{
    match v {
        Some(l) => key_vec_to_json(l),
        None => Json::Null,
    }
}

/// The wire form of a service-list field.
fn service_vec_to_json(v: &Vec<Service>) -> (r: Json)
    ensures
        json_view(r) == service_list_view(v.deep_view()),
{
    let mut items: Vec<Json> = Vec::new();
    let mut i: usize = 0;
    while i < v.len()
        invariant
            i <= v.len(),
            items@.len() == i as int,
            forall|k: int|
                0 <= k < i ==> json_view(#[trigger] items@[k]) == service_to_json(
                    v@[k].deep_view(),
                ),
        decreases v.len() - i,
    {
        items.push(encode_service(&v[i]));
        i = i + 1;
    }
    proof {
        lemma_arr_view_len(items@);
        assert forall|k: int| 0 <= k < items@.len() implies arr_view(items@)[k]
            == service_list_view(v.deep_view())->Arr_0[k] by {
            lemma_arr_view_index(items@, k);
        }
        assert(arr_view(items@) =~= service_list_view(v.deep_view())->Arr_0);
    }
    Json::Arr(items)
}

/// The wire form of an optional service-list field.
fn opt_service_vec_to_json(v: &Option<Vec<Service>>) -> (r: Json)
    ensures
        json_view(r) == opt_service_list_view(v.deep_view()),
{
    match v {
        Some(l) => service_vec_to_json(l),
        None => Json::Null,
    }
}

/// Encodes a document into its wire shape.
pub fn encode_document(d: &DidDocument) -> (j: Json)
    ensures
        j.deep_view() == doc_to_json(d.deep_view()),
{
    broadcast use lemma_entries_view_push;

    let mut entries: Vec<(String, Json)> = Vec::new();
    entries.push(("@context".to_owned(), str_vec_to_json(&d.context)));
    entries.push(("id".to_owned(), Json::Str(d.id.clone())));
    entries.push(("verificationMethod".to_owned(), opt_key_vec_to_json(&d.verification_method)));
    entries.push(("authentication".to_owned(), opt_str_vec_to_json(&d.authentication)));
    entries.push(("assertionMethod".to_owned(), opt_str_vec_to_json(&d.assertion_method)));
    entries.push(("capabilityDelegation".to_owned(), opt_str_vec_to_json(&d.capability_delegation)));
    entries.push(("capabilityInvocation".to_owned(), opt_str_vec_to_json(&d.capability_invocation)));
    entries.push(("keyAgreement".to_owned(), opt_key_vec_to_json(&d.key_agreement)));
    entries.push(("service".to_owned(), opt_service_vec_to_json(&d.services)));
    proof {
        assert(entries_view(entries@) =~= doc_to_json(d.deep_view())->Obj_0);
    }
    Json::Obj(entries)
}

/// Reads the optional string field `name`.
fn get_opt_str(entries: &Vec<(String, Json)>, name: &str) -> (r: Option<Option<String>>)
    ensures
        r.deep_view() == json_opt_str(entries_view(entries@), name@),
{
    let key: String = name.to_owned();
    match obj_get(entries, &key) {
        None => None,
        Some(j) => match j {
            Json::Null => Some(None),
            Json::Str(s) => Some(Some(s.clone())),
            _ => None,
        },
    }
}

/// Reads the required string field `name`.
fn get_req_str(entries: &Vec<(String, Json)>, name: &str) -> (r: Option<String>)
    ensures
        r.deep_view() == json_req_str(entries_view(entries@), name@),
{
    let key: String = name.to_owned();
    match obj_get(entries, &key) {
        None => None,
        Some(j) => match j {
            Json::Str(s) => Some(s.clone()),
            _ => None,
        },
    }
}

/// Reads the optional boolean field `name`.
fn get_opt_bool(entries: &Vec<(String, Json)>, name: &str) -> (r: Option<Option<bool>>)
    ensures
        r == json_opt_bool(entries_view(entries@), name@),
{
    let key: String = name.to_owned();
    match obj_get(entries, &key) {
        None => None,
        Some(j) => match j {
            Json::Null => Some(None),
            Json::Bool(b) => Some(Some(*b)),
            _ => None,
        },
    }
}

/// Reads the optional structured-value field `name`.
fn get_opt_value(entries: &Vec<(String, Json)>, name: &str) -> (r: Option<Option<Json>>)
    ensures
        r.deep_view() == json_opt_value(entries_view(entries@), name@),
{
    let key: String = name.to_owned();
    match obj_get(entries, &key) {
        None => None,
        Some(j) => match j {
            Json::Null => Some(None),
            _ => Some(Some(j.deep_clone())),
        },
    }
}

/// Reads the string list a wire value holds, if that is what it holds.
fn json_to_str_vec(j: &Json) -> (r: Option<Vec<String>>)
    ensures
        r.deep_view() == json_str_list(j.deep_view()),
{
    match j {
        Json::Arr(items) => {
            let mut out: Vec<String> = Vec::new();
            let mut i: usize = 0;
            while i < items.len()
                invariant
                    i <= items.len(),
                    out@.len() == i as int,
                    *j == Json::Arr(*items),
                    forall|k: int|
                        0 <= k < i ==> #[trigger] arr_view(items@)[k] is Str && out@[k]@
                            == arr_view(items@)[k]->Str_0,
                decreases items.len() - i,
            {
                proof {
                    lemma_arr_view_index(items@, i as int);
                }
                match &items[i] {
                    Json::Str(s) => out.push(s.clone()),
                    _ => {
                        proof {
                            lemma_arr_view_len(items@);
                            assert(!(arr_view(items@)[i as int] is Str));
                        }
                        return None;
                    },
                }
                i = i + 1;
            }
            proof {
                lemma_arr_view_len(items@);
                assert(out.deep_view() =~= Seq::new(
                    arr_view(items@).len(),
                    |k: int| arr_view(items@)[k]->Str_0,
                ));
            }
            Some(out)
        },
        _ => None,
    }
}

/// Reads the optional string-list field `name`.
fn get_opt_str_list(entries: &Vec<(String, Json)>, name: &str) -> (r: Option<Option<Vec<String>>>)
    ensures
        r.deep_view() == json_opt_str_list(entries_view(entries@), name@),
{
    let key: String = name.to_owned();
    match obj_get(entries, &key) {
        None => None,
        Some(j) => match j {
            Json::Null => Some(None),
            _ => match json_to_str_vec(j) {
                Some(l) => Some(Some(l)),
                None => None,
            },
        },
    }
}

/// Reads the required string-list field `name`.
fn get_req_str_list(entries: &Vec<(String, Json)>, name: &str) -> (r: Option<Vec<String>>)
    ensures
        r.deep_view() == json_req_str_list(entries_view(entries@), name@),
{
    let key: String = name.to_owned();
    match obj_get(entries, &key) {
        None => None,
        Some(j) => json_to_str_vec(j),
    }
}

/// Decodes a key record from its wire shape; fails with a conversion
/// error exactly where the value is not an object carrying every
/// key-record field with a value of its type.
pub fn decode_key_pair(j: &Json) -> (r: Result<KeyPair, Error>)
    ensures
        r matches Ok(k) ==> json_to_key(j.deep_view()) == Some(k.deep_view()),
        r is Err ==> json_to_key(j.deep_view()) is None,
{
    match j {
        Json::Obj(entries) => {
            let id = match get_opt_str(entries, "id") {
                Some(v) => v,
                None => {
                    return Err(Error::new("malformed key record"));
                },
            };
            let _type = match get_req_str(entries, "type") {
                Some(v) => v,
                None => {
                    return Err(Error::new("malformed key record"));
                },
            };
            let context = match get_opt_str_list(entries, "@context") {
                Some(v) => v,
                None => {
                    return Err(Error::new("malformed key record"));
                },
            };
            let public_key_base58 = match get_opt_str(entries, "publicKeyBase58") {
                Some(v) => v,
                None => {
                    return Err(Error::new("malformed key record"));
                },
            };
            let private_key_base58 = match get_opt_str(entries, "privateKeyBase58") {
                Some(v) => v,
                None => {
                    return Err(Error::new("malformed key record"));
                },
            };
            let public_key_multibase = match get_opt_str(entries, "publicKeyMultibase") {
                Some(v) => v,
                None => {
                    return Err(Error::new("malformed key record"));
                },
            };
            let private_key_multibase = match get_opt_str(entries, "privateKeyMultibase") {
                Some(v) => v,
                None => {
                    return Err(Error::new("malformed key record"));
                },
            };
            let revoked = match get_opt_bool(entries, "revoked") {
                Some(v) => v,
                None => {
                    return Err(Error::new("malformed key record"));
                },
            };
            let controller = match get_opt_str(entries, "controller") {
                Some(v) => v,
                None => {
                    return Err(Error::new("malformed key record"));
                },
            };
            let blockchain_account_id = match get_opt_str(entries, "blockchainAccountId") {
                Some(v) => v,
                None => {
                    return Err(Error::new("malformed key record"));
                },
            };
            let public_key_hex = match get_opt_str(entries, "publicKeyHex") {
                Some(v) => v,
                None => {
                    return Err(Error::new("malformed key record"));
                },
            };
            let ethereum_address = match get_opt_str(entries, "ethereumAddress") {
                Some(v) => v,
                None => {
                    return Err(Error::new("malformed key record"));
                },
            };
            let public_key_base64 = match get_opt_str(entries, "publicKeyBase64") {
                Some(v) => v,
                None => {
                    return Err(Error::new("malformed key record"));
                },
            };
            let public_key_pem = match get_opt_str(entries, "publicKeyPem") {
                Some(v) => v,
                None => {
                    return Err(Error::new("malformed key record"));
                },
            };
            let public_key_jwk = match get_opt_value(entries, "publicKeyJwk") {
                Some(v) => v,
                None => {
                    return Err(Error::new("malformed key record"));
                },
            };
            let private_key_hex = match get_opt_str(entries, "privateKeyHex") {
                Some(v) => v,
                None => {
                    return Err(Error::new("malformed key record"));
                },
            };
            let private_key_base64 = match get_opt_str(entries, "privateKeyBase64") {
                Some(v) => v,
                None => {
                    return Err(Error::new("malformed key record"));
                },
            };
            let private_key_pem = match get_opt_str(entries, "privateKeyPem") {
                Some(v) => v,
                None => {
                    return Err(Error::new("malformed key record"));
                },
            };
            let value = match get_opt_str(entries, "value") {
                Some(v) => v,
                None => {
                    return Err(Error::new("malformed key record"));
                },
            };
            Ok(
                KeyPair {
                    id,
                    _type,
                    context,
                    public_key_base58,
                    private_key_base58,
                    public_key_multibase,
                    private_key_multibase,
                    revoked,
                    controller,
                    blockchain_account_id,
                    public_key_hex,
                    ethereum_address,
                    public_key_base64,
                    public_key_pem,
                    public_key_jwk,
                    private_key_hex,
                    private_key_base64,
                    private_key_pem,
                    value,
                },
            )
        },
        _ => Err(Error::new("key record is not an object")),
    }
}

/// Decodes a service entry from its wire shape; fails with a conversion
/// error exactly where the value is not an object carrying a string id,
/// a string type, and an endpoint value.
pub fn decode_service(j: &Json) -> (r: Result<Service, Error>)
    ensures
        r matches Ok(s) ==> json_to_service(j.deep_view()) == Some(s.deep_view()),
        r is Err ==> json_to_service(j.deep_view()) is None,
{
    match j {
        Json::Obj(entries) => {
            let id = match get_req_str(entries, "id") {
                Some(v) => v,
                None => {
                    return Err(Error::new("malformed service entry"));
                },
            };
            let _type = match get_req_str(entries, "type") {
                Some(v) => v,
                None => {
                    return Err(Error::new("malformed service entry"));
                },
            };
            let key: String = "serviceEndpoint".to_owned();
            let service_endpoint = match obj_get(entries, &key) {
                Some(v) => v.deep_clone(),
                None => {
                    return Err(Error::new("malformed service entry"));
                },
            };
            Ok(Service { id, _type, service_endpoint })
        },
        _ => Err(Error::new("service entry is not an object")),
    }
}

/// Reads the key list a wire value holds, if that is what it holds.
fn json_to_key_vec(j: &Json) -> (r: Option<Vec<KeyPair>>)
    ensures
        r.deep_view() == json_key_list(j.deep_view()),
{
    match j {
        Json::Arr(items) => {
            let mut out: Vec<KeyPair> = Vec::new();
            let mut i: usize = 0;
            while i < items.len()
                invariant
                    i <= items.len(),
                    out@.len() == i as int,
                    *j == Json::Arr(*items),
                    forall|k: int|
                        0 <= k < i ==> json_to_key(#[trigger] arr_view(items@)[k]) == Some(
                            out@[k].deep_view(),
                        ),
                decreases items.len() - i,
            {
                proof {
                    lemma_arr_view_index(items@, i as int);
                }
                match decode_key_pair(&items[i]) {
                    Ok(k) => out.push(k),
                    Err(_) => {
                        proof {
                            lemma_arr_view_len(items@);
                            assert(json_to_key(arr_view(items@)[i as int]) is None);
                        }
                        return None;
                    },
                }
                i = i + 1;
            }
            proof {
                lemma_arr_view_len(items@);
                assert(out.deep_view() =~= Seq::new(
                    arr_view(items@).len(),
                    |k: int| json_to_key(arr_view(items@)[k])->Some_0,
                ));
            }
            Some(out)
        },
        _ => None,
    }
}

/// Reads the optional key-list field `name`.
fn get_opt_key_list(entries: &Vec<(String, Json)>, name: &str) -> (r: Option<Option<Vec<KeyPair>>>)
    ensures
        r.deep_view() == json_opt_key_list(entries_view(entries@), name@),
{
    let key: String = name.to_owned();
    match obj_get(entries, &key) {
        None => None,
        Some(j) => match j {
            Json::Null => Some(None),
            _ => match json_to_key_vec(j) {
                Some(l) => Some(Some(l)),
                None => None,
            },
        },
    }
}

/// Reads the service list a wire value holds, if that is what it holds.
fn json_to_service_vec(j: &Json) -> (r: Option<Vec<Service>>)
    ensures
        r.deep_view() == json_service_list(j.deep_view()),
{
    match j {
        Json::Arr(items) => {
            let mut out: Vec<Service> = Vec::new();
            let mut i: usize = 0;
            while i < items.len()
                invariant
                    i <= items.len(),
                    out@.len() == i as int,
                    *j == Json::Arr(*items),
                    forall|k: int|
                        0 <= k < i ==> json_to_service(#[trigger] arr_view(items@)[k]) == Some(
                            out@[k].deep_view(),
                        ),
                decreases items.len() - i,
            {
                proof {
                    lemma_arr_view_index(items@, i as int);
                }
                match decode_service(&items[i]) {
                    Ok(s) => out.push(s),
                    Err(_) => {
                        proof {
                            lemma_arr_view_len(items@);
                            assert(json_to_service(arr_view(items@)[i as int]) is None);
                        }
                        return None;
                    },
                }
                i = i + 1;
            }
            proof {
                lemma_arr_view_len(items@);
                assert(out.deep_view() =~= Seq::new(
                    arr_view(items@).len(),
                    |k: int| json_to_service(arr_view(items@)[k])->Some_0,
                ));
            }
            Some(out)
        },
        _ => None,
    }
}

/// Reads the optional service-list field `name`.
fn get_opt_service_list(entries: &Vec<(String, Json)>, name: &str) -> (r: Option<
    Option<Vec<Service>>,
>)
    ensures
        r.deep_view() == json_opt_service_list(entries_view(entries@), name@),
{
    let key: String = name.to_owned();
    match obj_get(entries, &key) {
        None => None,
        Some(j) => match j {
            Json::Null => Some(None),
            _ => match json_to_service_vec(j) {
                Some(l) => Some(Some(l)),
                None => None,
            },
        },
    }
}

/// Decodes a document from its wire shape; fails with a conversion error
/// exactly where the value is not an object carrying every document
/// field with a value of its type.
pub fn decode_document(j: &Json) -> (r: Result<DidDocument, Error>)
    ensures
        r matches Ok(d) ==> json_to_doc(j.deep_view()) == Some(d.deep_view()),
        r is Err ==> json_to_doc(j.deep_view()) is None,
{
    match j {
        Json::Obj(entries) => {
            let context = match get_req_str_list(entries, "@context") {
                Some(v) => v,
                None => {
                    return Err(Error::new("malformed document"));
                },
            };
            let id = match get_req_str(entries, "id") {
                Some(v) => v,
                None => {
                    return Err(Error::new("malformed document"));
                },
            };
            let verification_method = match get_opt_key_list(entries, "verificationMethod") {
                Some(v) => v,
                None => {
                    return Err(Error::new("malformed document"));
                },
            };
            let authentication = match get_opt_str_list(entries, "authentication") {
                Some(v) => v,
                None => {
                    return Err(Error::new("malformed document"));
                },
            };
            let assertion_method = match get_opt_str_list(entries, "assertionMethod") {
                Some(v) => v,
                None => {
                    return Err(Error::new("malformed document"));
                },
            };
            let capability_delegation = match get_opt_str_list(entries, "capabilityDelegation") {
                Some(v) => v,
                None => {
                    return Err(Error::new("malformed document"));
                },
            };
            let capability_invocation = match get_opt_str_list(entries, "capabilityInvocation") {
                Some(v) => v,
                None => {
                    return Err(Error::new("malformed document"));
                },
            };
            let key_agreement = match get_opt_key_list(entries, "keyAgreement") {
                Some(v) => v,
                None => {
                    return Err(Error::new("malformed document"));
                },
            };
            let services = match get_opt_service_list(entries, "service") {
                Some(v) => v,
                None => {
                    return Err(Error::new("malformed document"));
                },
            };
            Ok(
                DidDocument {
                    context,
                    id,
                    verification_method,
                    authentication,
                    assertion_method,
                    capability_delegation,
                    capability_invocation,
                    key_agreement,
                    services,
                },
            )
        },
        _ => Err(Error::new("document is not an object")),
    }
}

/// Context-list ordering is significant, and the codec keeps it: the
/// decoded document's context list is exactly the source's, element for
/// element and in the same order.
pub proof fn lemma_context_order_preserved(d: DidDocumentView)
    requires
        doc_lossless(d),
    ensures
        json_to_doc(doc_to_json(d)) matches Some(d2) && d2.context == d.context,
{
    lemma_doc_round_trip(d);
}

} // verus!
