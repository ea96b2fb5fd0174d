//! The typed request and response records of the credential API, and the
//! decoding of each record from its extracted JSON fields. The decoders
//! state exactly which field combinations succeed and what record they
//! yield; the round-trip and defaulting laws are proved below them.

use vstd::prelude::*;
use crate::codec::add_cred_body;
use crate::codec::spec_add_cred_body;
use crate::error::ClientError;

verus! {

/// A create-credential request: one (username, service, password) triple.
#[derive(Debug, Clone, PartialEq, Eq)]
pub struct CredentialCreateRequest {
    pub username: String,
    pub service: String,
    pub password: String,
}

impl CredentialCreateRequest {
    /// The JSON body this request is sent as.
    pub fn body(&self) -> (r: String)
        ensures
            r@ == spec_add_cred_body(self.username@, self.service@, self.password@),
    {
        add_cred_body(self.username.as_str(), self.service.as_str(), self.password.as_str())
    }
}

/// The server's answer to a create-credential request: whether it was
/// stored, and an echo of the credential's identity (never the password).
#[derive(Debug, Clone, PartialEq, Eq)]
pub struct CredentialCreateResult {
    pub ok: bool,
    pub username: String,
    pub service: String,
}

/// Per-service metadata in a service listing; an absent username means
/// unknown or not set.
#[derive(Debug, Clone, PartialEq, Eq)]
pub struct ServiceInfo {
    pub username: Option<String>,
}

/// All services registered for a user: the user's name and a mapping from
/// service name to its metadata, each service name listed once.
#[derive(Debug, Clone, PartialEq, Eq)]
pub struct ServiceListResult {
    pub username: String,
    pub services: Vec<(String, ServiceInfo)>,
}

/// The full detail of one stored credential.
#[derive(Debug, Clone, PartialEq, Eq)]
pub struct CredentialResult {
    pub username: String,
    pub service: String,
    pub password: String,
}

impl ServiceListResult {
    /// Well-formed when no service name appears twice.
    pub open spec fn wf(self) -> bool {
        forall|i: int, j: int|
            0 <= i < j < self.services@.len() ==> self.services@[i].0@ != self.services@[j].0@
    }
}

/// The view of an optional string.
pub open spec fn opt_view(o: Option<String>) -> Option<Seq<char>> {
    match o {
        Some(s) => Some(s@),
        None => None,
    }
}

/// What a create-credential response decodes to, given its extracted
/// fields: the (ok, username, service) triple when all three fields are
/// present with the right types, nothing otherwise.
pub open spec fn spec_create_fields(
    ok: Option<bool>,
    username: Option<Seq<char>>,
    service: Option<Seq<char>>,
) -> Option<(bool, Seq<char>, Seq<char>)> {
    match (ok, username, service) {
        (Some(b), Some(u), Some(s)) => Some((b, u, s)),
        _ => None,
    }
}

/// What a get-one-credential response decodes to, given its extracted
/// fields: username and service are required, a missing password defaults
/// to the empty string.
pub open spec fn spec_credential_fields(
    username: Option<Seq<char>>,
    service: Option<Seq<char>>,
    password: Option<Seq<char>>,
) -> Option<(Seq<char>, Seq<char>, Seq<char>)> {
    match (username, service) {
        (Some(u), Some(s)) => Some(
            (
                u,
                s,
                match password {
                    Some(p) => p,
                    None => Seq::empty(),
                },
            ),
        ),
        _ => None,
    }
}

/// The decode-error description for a create response without its three
/// required fields.
pub open spec fn create_missing_msg() -> Seq<char> {
    "create response is missing ok, username or service"@
}

/// The decode-error description for a credential response without its
/// two required fields.
pub open spec fn credential_missing_msg() -> Seq<char> {
    "credential response is missing username or service"@
}

/// The decode-error description for a list response without its username
/// or services object.
pub open spec fn list_missing_msg() -> Seq<char> {
    "list response is missing username or services"@
}

/// Builds a `CredentialCreateResult` from the extracted response fields:
/// succeeds exactly when all three fields were present with the right
/// types, and fails with a decode error otherwise.
pub fn create_result_from_fields(
    ok: Option<bool>,
    username: Option<String>,
    service: Option<String>,
) -> (r: Result<CredentialCreateResult, ClientError>)
    ensures
        r is Ok <==> spec_create_fields(ok, opt_view(username), opt_view(service)) is Some,
        r matches Ok(c) ==> spec_create_fields(ok, opt_view(username), opt_view(service))
            == Some((c.ok, c.username@, c.service@)),
        r matches Err(e) ==> (e matches ClientError::Decode(m) && m@ == create_missing_msg()),
{
    match (ok, username, service) {
        (Some(b), Some(u), Some(s)) => Ok(
            CredentialCreateResult { ok: b, username: u, service: s },
        ),
        _ => Err(
            ClientError::Decode(
                "create response is missing ok, username or service".to_owned(),
            ),
        ),
    }
}

/// Builds a `CredentialResult` from the extracted response fields:
/// username and service are required; a missing password becomes the
/// empty string rather than a failure.
pub fn credential_from_fields(
    username: Option<String>,
    service: Option<String>,
    password: Option<String>,
) -> (r: Result<CredentialResult, ClientError>)
    ensures
        r is Ok <==> spec_credential_fields(
            opt_view(username),
            opt_view(service),
            opt_view(password),
        ) is Some,
        r matches Ok(c) ==> spec_credential_fields(
            opt_view(username),
            opt_view(service),
            opt_view(password),
        ) == Some((c.username@, c.service@, c.password@)),
        r matches Err(e) ==> (e matches ClientError::Decode(m) && m@ == credential_missing_msg()),
{
    match (username, service) {
        (Some(u), Some(s)) => Ok(
            CredentialResult {
                username: u,
                service: s,
                password: match password {
                    Some(p) => p,
                    None => String::new(),
                },
            },
        ),
        _ => Err(
            ClientError::Decode("credential response is missing username or service".to_owned()),
        ),
    }
}

/// Builds a `ServiceListResult` from the extracted response fields:
/// succeeds exactly when the username and the services object were both
/// present, and keeps the entries as given.
pub fn service_list_from_fields(
    username: Option<String>,
    services: Option<Vec<(String, ServiceInfo)>>,
) -> (r: Result<ServiceListResult, ClientError>)
    requires
        services matches Some(v) ==> forall|i: int, j: int|
            0 <= i < j < v@.len() ==> v@[i].0@ != v@[j].0@,
    ensures
        r is Ok <==> (username is Some && services is Some),
        r matches Ok(l) ==> username == Some(l.username) && services == Some(l.services)
            && l.wf(),
        r matches Err(e) ==> (e matches ClientError::Decode(m) && m@ == list_missing_msg()),
{
    match (username, services) {
        (Some(u), Some(v)) => Ok(ServiceListResult { username: u, services: v }),
        _ => Err(
            ClientError::Decode("list response is missing username or services".to_owned()),
        ),
    }
}

/// Round trip on the identity fields: a create response and a
/// get-one-credential response whose fields carry the same username and
/// service decode to records that agree on them, whatever the create
/// response's flag and whether or not a password came back.
pub proof fn lemma_round_trip_identity(
    ok: bool,
    u: Seq<char>,
    s: Seq<char>,
    p: Option<Seq<char>>,
)
    ensures
        spec_create_fields(Some(ok), Some(u), Some(s)) matches Some(a)
            && spec_credential_fields(Some(u), Some(s), p) matches Some(g) && a.1 == g.0 && a.2
            == g.1,
{
}

/// A get-one-credential response that omits the password still decodes,
/// and its password is the empty string.
pub proof fn lemma_missing_password_defaults(u: Seq<char>, s: Seq<char>)
    ensures
        spec_credential_fields(Some(u), Some(s), None) matches Some(t) && t.2
            == Seq::<char>::empty(),
{
}

} // verus!
