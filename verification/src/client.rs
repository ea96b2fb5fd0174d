//! The credential API client: three operations — add a credential, list a
//! user's services, fetch one credential — each one HTTP exchange. The
//! exchange itself goes through reqwest behind trusted wrappers; URL and
//! body construction, response classification and body decoding are
//! verified. Every non-2xx response is surfaced as an API error carrying
//! the exact status code and the body text verbatim.

use vstd::prelude::*;
use crate::codec::add_cred_body;
use crate::codec::add_cred_url;
use crate::codec::get_one_url;
use crate::codec::list_services_url;
use crate::error::ClientError;
use crate::json::create_fields_of;
use crate::json::credential_fields_of;
use crate::json::decode_create_body;
use crate::json::decode_credential_body;
use crate::json::decode_list_body;
use crate::json::entries_bad;
use crate::json::entry_shape_msg;
use crate::json::list_fields_of;
use crate::json::listing_views;
use crate::json::password_bad;
use crate::json::password_kind_msg;
use crate::json::spec_decode_credential;
use crate::json::spec_decode_list;
use crate::model::CredentialCreateResult;
use crate::model::CredentialResult;
use crate::model::ServiceListResult;
use crate::model::create_missing_msg;
use crate::model::credential_missing_msg;
use crate::model::list_missing_msg;
use crate::model::spec_create_fields;

verus! {

/// True for the HTTP status codes that count as success.
pub open spec fn spec_is_success(status: u16) -> bool {
    200 <= status && status < 300
}

/// Every status in the client-error and server-error ranges (400–599) is
/// outside the success range, so the response handlers below surface it
/// as an API error carrying that exact status and the body verbatim.
pub proof fn lemma_error_status_not_success(status: u16)
    requires
        400 <= status <= 599,
    ensures
        !spec_is_success(status),
{
}

#[verifier::external_type_specification]
#[verifier::external_body]
pub struct ExClient(reqwest::blocking::Client);

/// Relies on reqwest::blocking::ClientBuilder::new and build to construct
/// a client with default settings; an initialization failure (a TLS
/// backend or resolver that cannot be set up) is returned as its
/// description, never a panic.
#[verifier::external_body]
fn new_http_client() -> (r: Result<reqwest::blocking::Client, String>) {
    match reqwest::blocking::ClientBuilder::new().build() {
        Ok(c) => Ok(c),
        Err(e) => Err(format!("{}", e)),
    }
}

/// Relies on reqwest::blocking: sends one GET request to the URL and
/// blocks; yields the response's status code and body text, or the
/// transport failure shown as text.
#[verifier::external_body]
fn http_get(c: &reqwest::blocking::Client, url: &str) -> (r: Result<(u16, String), String>) {
    match c.get(url).send() {
        Ok(resp) => {
            let status = resp.status().as_u16();
            match resp.text() {
                Ok(body) => Ok((status, body)),
                Err(e) => Err(format!("{}", e)),
            }
        },
        Err(e) => Err(format!("{}", e)),
    }
}

/// Relies on reqwest::blocking: sends one POST of the body to the URL,
/// marked as JSON content, and blocks; yields the response's status code
/// and body text, or the transport failure shown as text.
#[verifier::external_body]
fn http_post_json(c: &reqwest::blocking::Client, url: &str, body: &str) -> (r: Result<
    (u16, String),
    String,
>) {
    let req = c.post(url).header("content-type", "application/json").body(body.to_string());
    match req.send() {
        Ok(resp) => {
            let status = resp.status().as_u16();
            match resp.text() {
                Ok(text) => Ok((status, text)),
                Err(e) => Err(format!("{}", e)),
            }
        },
        Err(e) => Err(format!("{}", e)),
    }
}

/// Classifies and decodes an add-credential response: every non-2xx
/// status is exactly the API error that keeps the status and the body
/// verbatim; on 2xx the result is `Ok` exactly when the body parses with
/// the three required fields, and then the record's fields equal the
/// body's; every other 2xx body is a decode error.
pub fn handle_add_response(status: u16, body: String) -> (r: Result<
    CredentialCreateResult,
    ClientError,
>)
    ensures
        !spec_is_success(status) ==> r == Err::<CredentialCreateResult, ClientError>(
            ClientError::Api { status, body },
        ),
        spec_is_success(status) ==> (r is Ok <==> (create_fields_of(body@) matches Ok(f)
            && spec_create_fields(f.0, f.1, f.2) is Some)),
        spec_is_success(status) ==> (r matches Ok(c) ==> (create_fields_of(body@)
            matches Ok(f) && spec_create_fields(f.0, f.1, f.2) == Some(
            (c.ok, c.username@, c.service@),
        ))),
        spec_is_success(status) ==> (r matches Err(e) ==> e matches ClientError::Decode(_)),
        spec_is_success(status) ==> (create_fields_of(body@) matches Err(m) ==> (r matches Err(
            ClientError::Decode(d),
        ) && d@ == m)),
        spec_is_success(status) ==> ((create_fields_of(body@) matches Ok(f)
            && spec_create_fields(f.0, f.1, f.2) is None) ==> (r matches Err(
            ClientError::Decode(d),
        ) && d@ == create_missing_msg())),
{
    if !(200 <= status && status < 300) {
        return Err(ClientError::Api { status, body });
    }
    decode_create_body(body.as_str())
}

/// Classifies and decodes a list-services response: classification is as
/// in `handle_add_response`; on 2xx the result is `Ok` exactly when the
/// body parses with a username and a services object, and then the
/// well-formed listing holds one entry per service key with its extracted
/// metadata; every other 2xx body is a decode error.
pub fn handle_list_response(status: u16, body: String) -> (r: Result<
    ServiceListResult,
    ClientError,
>)
    ensures
        !spec_is_success(status) ==> r == Err::<ServiceListResult, ClientError>(
            ClientError::Api { status, body },
        ),
        spec_is_success(status) ==> (r is Ok <==> (list_fields_of(body@) matches Ok(f)
            && spec_decode_list(f) is Some)),
        spec_is_success(status) ==> (r matches Ok(l) ==> (list_fields_of(body@) matches Ok(f)
            && spec_decode_list(f) == Some((l.username@, listing_views(l.services@))))),
        spec_is_success(status) ==> (r matches Err(e) ==> e matches ClientError::Decode(_)),
        spec_is_success(status) ==> (list_fields_of(body@) matches Err(m) ==> (r matches Err(
            ClientError::Decode(d),
        ) && d@ == m)),
        spec_is_success(status) ==> ((list_fields_of(body@) matches Ok(f) && entries_bad(f))
            ==> (r matches Err(ClientError::Decode(d)) && d@ == entry_shape_msg())),
        spec_is_success(status) ==> ((list_fields_of(body@) matches Ok(f) && !entries_bad(f)
            && spec_decode_list(f) is None) ==> (r matches Err(ClientError::Decode(d)) && d@
            == list_missing_msg())),
        r matches Ok(l) ==> l.wf(),
{
    if !(200 <= status && status < 300) {
        return Err(ClientError::Api { status, body });
    }
    decode_list_body(body.as_str())
}

/// Classifies and decodes a get-one-credential response: classification
/// is as in `handle_add_response`; on 2xx the result is `Ok` exactly when
/// the body parses with username and service and any present password is
/// a string, a missing password defaulting to the empty string, and then
/// the record's fields equal the body's; every other 2xx body is a decode
/// error.
pub fn handle_get_response(status: u16, body: String) -> (r: Result<
    CredentialResult,
    ClientError,
>)
    ensures
        !spec_is_success(status) ==> r == Err::<CredentialResult, ClientError>(
            ClientError::Api { status, body },
        ),
        spec_is_success(status) ==> (r is Ok <==> (credential_fields_of(body@)
            matches Ok(f) && spec_decode_credential(f) is Some)),
        spec_is_success(status) ==> (r matches Ok(c) ==> (credential_fields_of(body@)
            matches Ok(f) && spec_decode_credential(f) == Some(
            (c.username@, c.service@, c.password@),
        ))),
        spec_is_success(status) ==> (r matches Err(e) ==> e matches ClientError::Decode(_)),
        spec_is_success(status) ==> (credential_fields_of(body@) matches Err(m) ==> (
        r matches Err(ClientError::Decode(d)) && d@ == m)),
        spec_is_success(status) ==> ((credential_fields_of(body@) matches Ok(f)
            && password_bad(f)) ==> (r matches Err(ClientError::Decode(d)) && d@
            == password_kind_msg())),
        spec_is_success(status) ==> ((credential_fields_of(body@) matches Ok(f)
            && !password_bad(f) && spec_decode_credential(f) is None) ==> (r matches Err(
            ClientError::Decode(d),
        ) && d@ == credential_missing_msg())),
{
    if !(200 <= status && status < 300) {
        return Err(ClientError::Api { status, body });
    }
    decode_credential_body(body.as_str())
}


/// Completes an add-credential exchange: a transport failure surfaces as
/// the transport error carrying its description verbatim, distinct from
/// the API and decode errors; a response is classified and decoded as
/// `handle_add_response` states.
pub fn finish_add(exchange: Result<(u16, String), String>) -> (r: Result<
    CredentialCreateResult,
    ClientError,
>)
    ensures
        exchange matches Err(m) ==> r == Err::<CredentialCreateResult, ClientError>(
            ClientError::Transport(m),
        ),
        exchange matches Ok(p) ==> (!spec_is_success(p.0) ==> r == Err::<
            CredentialCreateResult,
            ClientError,
        >((ClientError::Api { status: p.0, body: p.1 }))),
        exchange matches Ok(p) ==> (spec_is_success(p.0) ==> (r is Ok <==> (create_fields_of(
            p.1@,
        ) matches Ok(f) && spec_create_fields(f.0, f.1, f.2) is Some))),
        exchange matches Ok(p) ==> (spec_is_success(p.0) ==> (r matches Ok(c) ==> (
        create_fields_of(p.1@) matches Ok(f) && spec_create_fields(f.0, f.1, f.2) == Some(
            (c.ok, c.username@, c.service@),
        )))),
        exchange matches Ok(p) ==> (spec_is_success(p.0) ==> (create_fields_of(p.1@)
            matches Err(m) ==> (r matches Err(ClientError::Decode(d)) && d@ == m))),
        exchange matches Ok(p) ==> (spec_is_success(p.0) ==> ((create_fields_of(p.1@)
            matches Ok(f) && spec_create_fields(f.0, f.1, f.2) is None) ==> (r matches Err(
            ClientError::Decode(d),
        ) && d@ == create_missing_msg()))),
{
    match exchange {
        Ok((status, text)) => handle_add_response(status, text),
        Err(msg) => Err(ClientError::Transport(msg)),
    }
}

/// Completes a list-services exchange: a transport failure surfaces as
/// the transport error carrying its description verbatim, distinct from
/// the API and decode errors; a response is classified and decoded as
/// `handle_list_response` states.
pub fn finish_list(exchange: Result<(u16, String), String>) -> (r: Result<
    ServiceListResult,
    ClientError,
>)
    ensures
        exchange matches Err(m) ==> r == Err::<ServiceListResult, ClientError>(
            ClientError::Transport(m),
        ),
        exchange matches Ok(p) ==> (!spec_is_success(p.0) ==> r == Err::<
            ServiceListResult,
            ClientError,
        >((ClientError::Api { status: p.0, body: p.1 }))),
        exchange matches Ok(p) ==> (spec_is_success(p.0) ==> (r is Ok <==> (list_fields_of(
            p.1@,
        ) matches Ok(f) && spec_decode_list(f) is Some))),
        exchange matches Ok(p) ==> (spec_is_success(p.0) ==> (r matches Ok(l) ==> (
        list_fields_of(p.1@) matches Ok(f) && spec_decode_list(f) == Some(
            (l.username@, listing_views(l.services@)),
        )))),
        exchange matches Ok(p) ==> (spec_is_success(p.0) ==> (list_fields_of(p.1@)
            matches Err(m) ==> (r matches Err(ClientError::Decode(d)) && d@ == m))),
        exchange matches Ok(p) ==> (spec_is_success(p.0) ==> ((list_fields_of(p.1@)
            matches Ok(f) && entries_bad(f)) ==> (r matches Err(ClientError::Decode(d)) && d@
            == entry_shape_msg()))),
        exchange matches Ok(p) ==> (spec_is_success(p.0) ==> ((list_fields_of(p.1@)
            matches Ok(f) && !entries_bad(f) && spec_decode_list(f) is None) ==> (
        r matches Err(ClientError::Decode(d)) && d@ == list_missing_msg()))),
        r matches Ok(l) ==> l.wf(),
{
    match exchange {
        Ok((status, text)) => handle_list_response(status, text),
        Err(msg) => Err(ClientError::Transport(msg)),
    }
}

/// Completes a get-one-credential exchange: a transport failure surfaces
/// as the transport error carrying its description verbatim, distinct
/// from the API and decode errors; a response is classified and decoded
/// as `handle_get_response` states.
pub fn finish_get(exchange: Result<(u16, String), String>) -> (r: Result<
    CredentialResult,
    ClientError,
>)
    ensures
        exchange matches Err(m) ==> r == Err::<CredentialResult, ClientError>(
            ClientError::Transport(m),
        ),
        exchange matches Ok(p) ==> (!spec_is_success(p.0) ==> r == Err::<
            CredentialResult,
            ClientError,
        >((ClientError::Api { status: p.0, body: p.1 }))),
        exchange matches Ok(p) ==> (spec_is_success(p.0) ==> (r is Ok <==> (
        credential_fields_of(p.1@) matches Ok(f) && spec_decode_credential(f) is Some))),
        exchange matches Ok(p) ==> (spec_is_success(p.0) ==> (r matches Ok(c) ==> (
        credential_fields_of(p.1@) matches Ok(f) && spec_decode_credential(f) == Some(
            (c.username@, c.service@, c.password@),
        )))),
        exchange matches Ok(p) ==> (spec_is_success(p.0) ==> (credential_fields_of(p.1@)
            matches Err(m) ==> (r matches Err(ClientError::Decode(d)) && d@ == m))),
        exchange matches Ok(p) ==> (spec_is_success(p.0) ==> ((credential_fields_of(p.1@)
            matches Ok(f) && password_bad(f)) ==> (r matches Err(ClientError::Decode(d)) && d@
            == password_kind_msg()))),
        exchange matches Ok(p) ==> (spec_is_success(p.0) ==> ((credential_fields_of(p.1@)
            matches Ok(f) && !password_bad(f) && spec_decode_credential(f) is None) ==> (
        r matches Err(ClientError::Decode(d)) && d@ == credential_missing_msg()))),
{
    match exchange {
        Ok((status, text)) => handle_get_response(status, text),
        Err(msg) => Err(ClientError::Transport(msg)),
    }
}

/// A typed client for the credential API at one base URL.
pub struct CredentialApiClient {
    client: reqwest::blocking::Client,
    base: String,
}

impl CredentialApiClient {
    /// The base URL the client talks to.
    pub closed spec fn spec_base(self) -> Seq<char> {
        self.base@
    }

    /// A client for the service at the given base URL; fails with a
    /// description when the HTTP machinery cannot be initialized.
    pub fn new(base: String) -> (r: Result<Self, String>)
        ensures
            r matches Ok(c) ==> c.spec_base() == base@,
    {
        match new_http_client() {
            Ok(client) => Ok(CredentialApiClient { client, base }),
            Err(msg) => Err(msg),
        }
    }

    /// The base URL the client talks to.
    pub fn base(&self) -> (r: &str)
        ensures
            r@ == self.spec_base(),
    {
        self.base.as_str()
    }

    /// Adds one credential: POSTs the JSON triple to `{base}/creds` and
    /// decodes the echo. An API error keeps the non-2xx status and body;
    /// a transport failure never carries a status.
    pub fn add_cred(&self, username: &str, service: &str, password: &str) -> (r: Result<
        CredentialCreateResult,
        ClientError,
    >)
        ensures
            r matches Err(ClientError::Api { status, .. }) ==> !spec_is_success(status),
    {
        let url = add_cred_url(self.base.as_str());
        let body = add_cred_body(username, service, password);
        finish_add(http_post_json(&self.client, url.as_str(), body.as_str()))
    }

    /// Lists the services registered for a user: GETs
    /// `{base}/creds?username=…` and decodes the listing, which is
    /// well-formed when the call succeeds.
    pub fn list_services(&self, username: &str) -> (r: Result<ServiceListResult, ClientError>)
        ensures
            r matches Err(ClientError::Api { status, .. }) ==> !spec_is_success(status),
            r matches Ok(l) ==> l.wf(),
    {
        let url = list_services_url(self.base.as_str(), username);
        finish_list(http_get(&self.client, url.as_str()))
    }

    /// Fetches one credential: GETs `{base}/creds/{service}?username=…`
    /// and decodes the detail record.
    pub fn get_one(&self, username: &str, service: &str) -> (r: Result<
        CredentialResult,
        ClientError,
    >)
        ensures
            r matches Err(ClientError::Api { status, .. }) ==> !spec_is_success(status),
    {
        let url = get_one_url(self.base.as_str(), username, service);
        finish_get(http_get(&self.client, url.as_str()))
    }
}

} // verus!
