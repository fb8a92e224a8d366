//! The aggregate identity record: a document binding an identifier to
//! key material and service endpoints.

use vstd::prelude::*;

use crate::error::Error;
use crate::json::{Json, JsonView};
use crate::keys::{clone_opt_string_vec, clone_string_vec, KeyPair, KeyPairView, VerificationKey};

verus! {

/// The identity-document core context URI, conventionally the first
/// entry of a document's context list.
pub const DID_CONTEXT_URL: &'static str = "https://www.w3.org/ns/did/v1";

/// A named capability endpoint of a document.
///
/// The identifier is expected to be unique within a document's service
/// list; that is a caller responsibility, not enforced structurally.
#[derive(Debug, PartialEq)]
pub struct Service {
    pub id: String,
    pub _type: String,
    pub service_endpoint: Json,
}

/// The mathematical model of a service entry.
pub struct ServiceView {
    pub id: Seq<char>,
    pub _type: Seq<char>,
    pub service_endpoint: JsonView,
}

impl DeepView for Service {
    type V = ServiceView;

    open spec fn deep_view(&self) -> ServiceView {
        ServiceView {
            id: self.id@,
            _type: self._type@,
            service_endpoint: self.service_endpoint.deep_view(),
        }
    }
}

impl Service {
    /// An independent copy of the entry, equal to it in the model.
    pub fn deep_clone(&self) -> (r: Service)
        ensures
            r.deep_view() == self.deep_view(),
    {
        Service {
            id: self.id.clone(),
            _type: self._type.clone(),
            service_endpoint: self.service_endpoint.deep_clone(),
        }
    }

    /// The service identifier.
    pub fn id(&self) -> (r: String)
        ensures
            r == self.id,
    {
        self.id.clone()
    }

    /// Replaces the service identifier.
    pub fn set_id(&mut self, id: String)
        ensures
            *final(self) == (Service { id, ..*old(self) }),
    {
        self.id = id;
    }

    /// The service type string.
    pub fn _type(&self) -> (r: String)
        ensures
            r == self._type,
    {
        self._type.clone()
    }

    /// Replaces the service type string.
    pub fn set_type(&mut self, _type: String)
        ensures
            *final(self) == (Service { _type, ..*old(self) }),
    {
        self._type = _type;
    }

    /// The endpoint value, as an independent copy.
    pub fn service_endpoint(&self) -> (r: Json)
        ensures
            r.deep_view() == self.service_endpoint.deep_view(),
    {
        self.service_endpoint.deep_clone()
    }

    /// Replaces the endpoint value.
    pub fn set_service_endpoint(&mut self, service_endpoint: Json)
        ensures
            *final(self) == (Service { service_endpoint, ..*old(self) }),
    {
        self.service_endpoint = service_endpoint;
    }
}

impl Clone for Service {
    /// A clone is an independent copy, equal to the source in the model.
    fn clone(&self) -> (r: Service)
        ensures
            r.deep_view() == self.deep_view(),
    {
        self.deep_clone()
    }
}

/// The aggregate identity record.
///
/// The verification-method and key-agreement lists are order-significant:
/// index 0 is the primary key of each kind. Relationship lists reference
/// keys by full key id; a resolver tolerates references that match no
/// entry by reporting not-found rather than failing.
#[derive(Debug, PartialEq)]
pub struct DidDocument {
    pub context: Vec<String>,
    pub id: String,
    pub verification_method: Option<Vec<KeyPair>>,
    pub authentication: Option<Vec<String>>,
    pub assertion_method: Option<Vec<String>>,
    pub capability_delegation: Option<Vec<String>>,
    pub capability_invocation: Option<Vec<String>>,
    pub key_agreement: Option<Vec<KeyPair>>,
    pub services: Option<Vec<Service>>,
}

/// The mathematical model of a document.
pub struct DidDocumentView {
    pub context: Seq<Seq<char>>,
    pub id: Seq<char>,
    pub verification_method: Option<Seq<KeyPairView>>,
    pub authentication: Option<Seq<Seq<char>>>,
    pub assertion_method: Option<Seq<Seq<char>>>,
    pub capability_delegation: Option<Seq<Seq<char>>>,
    pub capability_invocation: Option<Seq<Seq<char>>>,
    pub key_agreement: Option<Seq<KeyPairView>>,
    pub services: Option<Seq<ServiceView>>,
}

impl DeepView for DidDocument {
    type V = DidDocumentView;

    open spec fn deep_view(&self) -> DidDocumentView {
        DidDocumentView {
            context: self.context.deep_view(),
            id: self.id@,
            verification_method: self.verification_method.deep_view(),
            authentication: self.authentication.deep_view(),
            assertion_method: self.assertion_method.deep_view(),
            capability_delegation: self.capability_delegation.deep_view(),
            capability_invocation: self.capability_invocation.deep_view(),
            key_agreement: self.key_agreement.deep_view(),
            services: self.services.deep_view(),
        }
    }
}

/// A copy of a key list, equal to the source in the model.
pub(crate) fn clone_key_pair_vec(v: &Vec<KeyPair>) -> (r: Vec<KeyPair>)
    ensures
        r.deep_view() == v.deep_view(),
{
    let mut out: Vec<KeyPair> = Vec::new();
    let mut i: usize = 0;
    while i < v.len()
        invariant
            i <= v.len(),
            out@.len() == i as int,
            forall|k: int| 0 <= k < i ==> out@[k].deep_view() == v@[k].deep_view(),
        decreases v.len() - i,
    {
        out.push(v[i].deep_clone());
        i = i + 1;
    }
    proof {
        assert(out.deep_view() =~= v.deep_view());
    }
    out
}

/// A copy of an optional key list, equal to the source in the model.
pub(crate) fn clone_opt_key_pair_vec(v: &Option<Vec<KeyPair>>) -> (r: Option<Vec<KeyPair>>)
    ensures
        r.deep_view() == v.deep_view(),
{
    match v {
        Some(x) => Some(clone_key_pair_vec(x)),
        None => None,
    }
}

/// A copy of a service list, equal to the source in the model.
pub(crate) fn clone_service_vec(v: &Vec<Service>) -> (r: Vec<Service>)
    ensures
        r.deep_view() == v.deep_view(),
{
    let mut out: Vec<Service> = Vec::new();
    let mut i: usize = 0;
    while i < v.len()
        invariant
            i <= v.len(),
            out@.len() == i as int,
            forall|k: int| 0 <= k < i ==> out@[k].deep_view() == v@[k].deep_view(),
        decreases v.len() - i,
    {
        out.push(v[i].deep_clone());
        i = i + 1;
    }
    proof {
        assert(out.deep_view() =~= v.deep_view());
    }
    out
}

/// A copy of an optional service list, equal to the source in the model.
pub(crate) fn clone_opt_service_vec(v: &Option<Vec<Service>>) -> (r: Option<Vec<Service>>)
    ensures
        r.deep_view() == v.deep_view(),
{
    match v {
        Some(x) => Some(clone_service_vec(x)),
        None => None,
    }
}

impl DidDocument {
    /// An independent copy of the document, equal to it in the model.
    pub fn deep_clone(&self) -> (r: DidDocument)
        ensures
            r.deep_view() == self.deep_view(),
    {
        DidDocument {
            context: clone_string_vec(&self.context),
            id: self.id.clone(),
            verification_method: clone_opt_key_pair_vec(&self.verification_method),
            authentication: clone_opt_string_vec(&self.authentication),
            assertion_method: clone_opt_string_vec(&self.assertion_method),
            capability_delegation: clone_opt_string_vec(&self.capability_delegation),
            capability_invocation: clone_opt_string_vec(&self.capability_invocation),
            key_agreement: clone_opt_key_pair_vec(&self.key_agreement),
            services: clone_opt_service_vec(&self.services),
        }
    }

    /// The context list of the document.
    pub fn context(&self) -> (r: Vec<String>)
        ensures
            r@ == self.context@,
    {
        clone_string_vec(&self.context)
    }

    /// Replaces the context list.
    pub fn set_context(&mut self, context: Vec<String>)
        ensures
            *final(self) == (DidDocument { context, ..*old(self) }),
    {
        self.context = context;
    }

    /// The document identifier.
    pub fn id(&self) -> (r: String)
        ensures
            r == self.id,
    {
        self.id.clone()
    }

    /// Replaces the document identifier.
    pub fn set_id(&mut self, id: String)
        ensures
            *final(self) == (DidDocument { id, ..*old(self) }),
    {
        self.id = id;
    }

    /// The verification-method list, if any, as an independent copy.
    pub fn verification_method(&self) -> (r: Option<Vec<KeyPair>>)
        ensures
            r.deep_view() == self.verification_method.deep_view(),
    {
        clone_opt_key_pair_vec(&self.verification_method)
    }

    /// Replaces the verification-method list.
    pub fn set_verification_method(&mut self, verification_method: Option<Vec<KeyPair>>)
        ensures
            *final(self) == (DidDocument { verification_method, ..*old(self) }),
    {
        self.verification_method = verification_method;
    }

    /// The authentication reference list, if any.
    pub fn authentication(&self) -> (r: Option<Vec<String>>)
        ensures
            r.deep_view() == self.authentication.deep_view(),
    {
        clone_opt_string_vec(&self.authentication)
    }

    /// Replaces the authentication reference list.
    pub fn set_authentication(&mut self, authentication: Option<Vec<String>>)
        ensures
            *final(self) == (DidDocument { authentication, ..*old(self) }),
    {
        self.authentication = authentication;
    }

    /// The assertion-method reference list, if any.
    pub fn assertion_method(&self) -> (r: Option<Vec<String>>)
        ensures
            r.deep_view() == self.assertion_method.deep_view(),
    {
        clone_opt_string_vec(&self.assertion_method)
    }

    /// Replaces the assertion-method reference list.
    pub fn set_assertion_method(&mut self, assertion_method: Option<Vec<String>>)
        ensures
            *final(self) == (DidDocument { assertion_method, ..*old(self) }),
    {
        self.assertion_method = assertion_method;
    }

    /// The capability-delegation reference list, if any.
    pub fn capability_delegation(&self) -> (r: Option<Vec<String>>)
        ensures
            r.deep_view() == self.capability_delegation.deep_view(),
    {
        clone_opt_string_vec(&self.capability_delegation)
    }

    /// Replaces the capability-delegation reference list.
    pub fn set_capability_delegation(&mut self, capability_delegation: Option<Vec<String>>)
        ensures
            *final(self) == (DidDocument { capability_delegation, ..*old(self) }),
    {
        self.capability_delegation = capability_delegation;
    }

    /// The capability-invocation reference list, if any.
    pub fn capability_invocation(&self) -> (r: Option<Vec<String>>)
        ensures
            r.deep_view() == self.capability_invocation.deep_view(),
    {
        clone_opt_string_vec(&self.capability_invocation)
    }

    /// Replaces the capability-invocation reference list.
    pub fn set_capability_invocation(&mut self, capability_invocation: Option<Vec<String>>)
        ensures
            *final(self) == (DidDocument { capability_invocation, ..*old(self) }),
    {
        self.capability_invocation = capability_invocation;
    }

    /// The key-agreement list, if any, as an independent copy.
    pub fn key_agreement(&self) -> (r: Option<Vec<KeyPair>>)
        ensures
            r.deep_view() == self.key_agreement.deep_view(),
    {
        clone_opt_key_pair_vec(&self.key_agreement)
    }

    /// Replaces the key-agreement list.
    pub fn set_key_agreement(&mut self, key_agreement: Option<Vec<KeyPair>>)
        ensures
            *final(self) == (DidDocument { key_agreement, ..*old(self) }),
    {
        self.key_agreement = key_agreement;
    }

    /// The service list, if any, as an independent copy.
    pub fn services(&self) -> (r: Option<Vec<Service>>)
        ensures
            r.deep_view() == self.services.deep_view(),
    {
        clone_opt_service_vec(&self.services)
    }

    /// Replaces the service list.
    pub fn set_services(&mut self, services: Option<Vec<Service>>)
        ensures
            *final(self) == (DidDocument { services, ..*old(self) }),
    {
        self.services = services;
    }
}

impl Clone for DidDocument {
    /// A clone is an independent copy, equal to the source in the model.
    fn clone(&self) -> (r: DidDocument)
        ensures
            r.deep_view() == self.deep_view(),
    {
        self.deep_clone()
    }
}

/// The document-assembly contract: the seam where the core hands off to
/// suite-specific wiring.
///
/// An implementation builds a complete document around the key pair a
/// suite derived from `fingerprint`, or fails with an assembly error. A
/// document it returns carries at least one verification method, so key
/// resolution on it can succeed.
pub trait KeyPairToDidDocument {
    /// Assembles a document from a suite key pair and the fingerprint the
    /// pair was derived from.
    fn key_pair_to_did_doc<K: VerificationKey>(key_pair: &K, fingerprint: &str) -> (r: Result<
        DidDocument,
        Error,
    >)
        ensures
            r matches Ok(d) ==> (d.deep_view().verification_method matches Some(vm) && vm.len()
                > 0),
    ;
}

} // verus!
