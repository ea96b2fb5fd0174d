//! Decoding of the three response bodies. Each body is parsed and its
//! fields extracted through serde_json behind one trusted wrapper per
//! response shape; serde_json is deterministic, so each extraction is a
//! function of the body text alone and carries a name (`create_fields_of`,
//! `credential_fields_of`, `list_fields_of`) that the decoding contracts
//! are stated over, the parse failure's description included. Everything
//! that decides — which field combinations make a record, what a missing
//! password means, one listing entry per service key — is verified code
//! over the extracted plain values.

use vstd::prelude::*;
use crate::error::ClientError;
use crate::model::CredentialCreateResult;
use crate::model::CredentialResult;
use crate::model::ServiceInfo;
use crate::model::ServiceListResult;
use crate::model::create_result_from_fields;
use crate::model::credential_from_fields;
use crate::model::opt_view;
use crate::model::service_list_from_fields;
use crate::model::spec_create_fields;
use crate::model::spec_credential_fields;

verus! {

/// What a create-credential body parses to: the parse failure's
/// description when the text is not JSON, otherwise the extracted `ok`,
/// `username` and `service` fields, each absent when missing or of the
/// wrong type.
pub uninterp spec fn create_fields_of(s: Seq<char>) -> Result<
    (Option<bool>, Option<Seq<char>>, Option<Seq<char>>),
    Seq<char>,
>;

/// What a get-one-credential body parses to: the parse failure's
/// description when the text is not JSON, otherwise the extracted
/// `username`, `service` and `password` fields; the password is `None`
/// when absent and `Some(None)` when present but not a string.
pub uninterp spec fn credential_fields_of(s: Seq<char>) -> Result<
    (Option<Seq<char>>, Option<Seq<char>>, Option<Option<Seq<char>>>),
    Seq<char>,
>;

/// What a list-services body parses to: the parse failure's description
/// when the text is not JSON, otherwise the extracted `username` field
/// and, when `services` is an object, one pair per key; a pair's
/// metadata is `None` when the key's value is not an object or its
/// `username` is neither a string nor null, `Some(None)` when the
/// username is absent or null, and `Some(Some(u))` when it is a string.
pub uninterp spec fn list_fields_of(s: Seq<char>) -> Result<
    (Option<Seq<char>>, Option<Seq<(Seq<char>, Option<Option<Seq<char>>>)>>),
    Seq<char>,
>;

/// The view of an optional, optional string.
pub open spec fn opt2_view(o: Option<Option<String>>) -> Option<Option<Seq<char>>> {
    match o {
        Some(i) => Some(opt_view(i)),
        None => None,
    }
}

/// The views of extracted (service name, metadata) pairs.
pub open spec fn pair_views(es: Seq<(String, Option<Option<String>>)>) -> Seq<
    (Seq<char>, Option<Option<Seq<char>>>),
> {
    es.map_values(|p: (String, Option<Option<String>>)| (p.0@, opt2_view(p.1)))
}

/// The view of an optional vector of extracted pairs.
pub open spec fn opt_pairs_view(o: Option<Vec<(String, Option<Option<String>>)>>) -> Option<
    Seq<(Seq<char>, Option<Option<Seq<char>>>)>,
> {
    match o {
        Some(es) => Some(pair_views(es@)),
        None => None,
    }
}

/// The views of a listing's entries.
pub open spec fn listing_views(s: Seq<(String, ServiceInfo)>) -> Seq<
    (Seq<char>, Option<Seq<char>>),
> {
    s.map_values(|p: (String, ServiceInfo)| (p.0@, opt_view(p.1.username)))
}

/// True when every extracted entry has well-shaped metadata.
pub open spec fn entries_ok(es: Seq<(Seq<char>, Option<Option<Seq<char>>>)>) -> bool {
    forall|i: int| 0 <= i < es.len() ==> es[i].1 is Some
}

/// The inner metadata of one well-shaped entry.
pub open spec fn opt_inner(o: Option<Option<Seq<char>>>) -> Option<Seq<char>> {
    match o {
        Some(i) => i,
        None => None,
    }
}

/// Extracted entries with their metadata unwrapped.
pub open spec fn unwrap_entries(es: Seq<(Seq<char>, Option<Option<Seq<char>>>)>) -> Seq<
    (Seq<char>, Option<Seq<char>>),
> {
    es.map_values(|p: (Seq<char>, Option<Option<Seq<char>>>)| (p.0, opt_inner(p.1)))
}

/// What a get-one-credential response decodes to, given its extracted
/// fields: a present but non-string password is a failure; otherwise as
/// `spec_credential_fields`, with a missing password defaulting to the
/// empty string.
pub open spec fn spec_decode_credential(
    f: (Option<Seq<char>>, Option<Seq<char>>, Option<Option<Seq<char>>>),
) -> Option<(Seq<char>, Seq<char>, Seq<char>)> {
    match f.2 {
        Some(p) => match p {
            Some(pw) => spec_credential_fields(f.0, f.1, Some(pw)),
            None => None,
        },
        None => spec_credential_fields(f.0, f.1, None),
    }
}

/// True when the extracted credential fields carry a password of the
/// wrong shape: present but not a string.
pub open spec fn password_bad(
    f: (Option<Seq<char>>, Option<Seq<char>>, Option<Option<Seq<char>>>),
) -> bool {
    match f.2 {
        Some(p) => p is None,
        None => false,
    }
}

/// What a list-services response decodes to, given its extracted fields:
/// the username and the unwrapped entries when the username and the
/// services object were present and every entry is well shaped, nothing
/// otherwise.
pub open spec fn spec_decode_list(
    f: (Option<Seq<char>>, Option<Seq<(Seq<char>, Option<Option<Seq<char>>>)>>),
) -> Option<(Seq<char>, Seq<(Seq<char>, Option<Seq<char>>)>)> {
    match (f.0, f.1) {
        (Some(u), Some(es)) => if entries_ok(es) {
            Some((u, unwrap_entries(es)))
        } else {
            None
        },
        _ => None,
    }
}

/// True when the extracted list fields hold a badly shaped entry.
pub open spec fn entries_bad(
    f: (Option<Seq<char>>, Option<Seq<(Seq<char>, Option<Option<Seq<char>>>)>>),
) -> bool {
    match f.1 {
        Some(es) => !entries_ok(es),
        None => false,
    }
}

/// The decode-error description for a present but non-string password.
pub open spec fn password_kind_msg() -> Seq<char> {
    "password field is not a string"@
}

/// The decode-error description for a badly shaped service entry.
pub open spec fn entry_shape_msg() -> Seq<char> {
    "service entry is not an object or its username is not a string"@
}

/// The view of an extraction result: field views on success, the
/// description's view on a parse failure.
pub open spec fn create_extract_view(
    r: Result<(Option<bool>, Option<String>, Option<String>), String>,
) -> Result<(Option<bool>, Option<Seq<char>>, Option<Seq<char>>), Seq<char>> {
    match r {
        Ok(t) => Ok((t.0, opt_view(t.1), opt_view(t.2))),
        Err(m) => Err(m@),
    }
}

/// The view of an extraction result: field views on success, the
/// description's view on a parse failure.
pub open spec fn credential_extract_view(
    r: Result<(Option<String>, Option<String>, Option<Option<String>>), String>,
) -> Result<(Option<Seq<char>>, Option<Seq<char>>, Option<Option<Seq<char>>>), Seq<char>> {
    match r {
        Ok(t) => Ok((opt_view(t.0), opt_view(t.1), opt2_view(t.2))),
        Err(m) => Err(m@),
    }
}

/// The view of an extraction result: field views on success, the
/// description's view on a parse failure.
pub open spec fn list_extract_view(
    r: Result<(Option<String>, Option<Vec<(String, Option<Option<String>>)>>), String>,
) -> Result<
    (Option<Seq<char>>, Option<Seq<(Seq<char>, Option<Option<Seq<char>>>)>>),
    Seq<char>,
> {
    match r {
        Ok(t) => Ok((opt_view(t.0), opt_pairs_view(t.1))),
        Err(m) => Err(m@),
    }
}

/// Relies on serde_json::from_str and Value::get/as_bool/as_str: parses
/// the body and pulls out the `ok`, `username` and `service` fields.
/// serde_json is deterministic, so the extraction is a function of the
/// text alone, named `create_fields_of`; a parse failure is returned as
/// its description.
#[verifier::external_body]
fn extract_create_fields(body: &str) -> (r: Result<
    (Option<bool>, Option<String>, Option<String>),
    String,
>)
    ensures
        create_extract_view(r) == create_fields_of(body@),
{
    match serde_json::from_str::<serde_json::Value>(body) {
        Ok(v) => Ok((
            v.get("ok").and_then(serde_json::Value::as_bool),
            v.get("username").and_then(serde_json::Value::as_str).map(str::to_string),
            v.get("service").and_then(serde_json::Value::as_str).map(str::to_string),
        )),
        Err(e) => Err(format!("{}", e)),
    }
}

/// Relies on serde_json::from_str and Value::get/as_str: parses the
/// body and pulls out the `username`, `service` and `password` fields,
/// the password kept apart as absent (`None`) or present but not a
/// string (`Some(None)`). Deterministic in the text alone,
/// named `credential_fields_of`; a parse failure is returned as its
/// description.
#[verifier::external_body]
fn extract_credential_fields(body: &str) -> (r: Result<
    (Option<String>, Option<String>, Option<Option<String>>),
    String,
>)
    ensures
        credential_extract_view(r) == credential_fields_of(body@),
{
    match serde_json::from_str::<serde_json::Value>(body) {
        Ok(v) => Ok((
            v.get("username").and_then(serde_json::Value::as_str).map(str::to_string),
            v.get("service").and_then(serde_json::Value::as_str).map(str::to_string),
            v.get("password").map(|p| p.as_str().map(str::to_string)),
        )),
        Err(e) => Err(format!("{}", e)),
    }
}

/// Relies on serde_json::from_str, Value::get/as_str/as_object/is_null
/// and Map::get/iter: parses the body and pulls out the `username` field
/// and, when `services` is an object, one pair per key, the metadata
/// marked as in `list_fields_of`'s description. The map is
/// BTreeMap-backed, so each key appears once — the distinctness clause —
/// and the extraction is deterministic in the text alone, named
/// `list_fields_of`; a parse failure is returned as its description.
#[verifier::external_body]
fn extract_list_fields(body: &str) -> (r: Result<
    (Option<String>, Option<Vec<(String, Option<Option<String>>)>>),
    String,
>)
    ensures
        list_extract_view(r) == list_fields_of(body@),
        r matches Ok(t) && t.1 matches Some(es) ==> forall|i: int, j: int|
            0 <= i < j < es@.len() ==> es@[i].0@ != es@[j].0@,
{
    match serde_json::from_str::<serde_json::Value>(body) {
        Ok(v) => Ok((
            v.get("username").and_then(serde_json::Value::as_str).map(str::to_string),
            v.get("services").and_then(serde_json::Value::as_object).map(|m| m.iter().map(
                |(k, e)| (k.clone(), match e.as_object().map(|o| o.get("username")) {
                    None => None,
                    Some(None) => Some(None),
                    Some(Some(u)) => if u.is_null() { Some(None) } else { u.as_str().map(|s| Some(s.to_string())) },
                }),
            ).collect()),
        )),
        Err(e) => Err(format!("{}", e)),
    }
}

/// Turns extracted (service name, metadata) pairs into listing entries,
/// one for one and in order — the entry's name is the key, its metadata
/// holds exactly the extracted username, absent staying absent — and
/// fails exactly when some pair's metadata is badly shaped.
fn build_service_entries(es: Vec<(String, Option<Option<String>>)>) -> (r: Option<Vec<
    (String, ServiceInfo),
>>)
    ensures
        r is Some <==> (forall|i: int| 0 <= i < es@.len() ==> es@[i].1 is Some),
        r matches Some(v) ==> v@.len() == es@.len(),
        r matches Some(v) ==> forall|i: int|
            0 <= i < es@.len() ==> v@[i].0 == es@[i].0 && es@[i].1 == Some(v@[i].1.username),
{
    let ghost orig = es@;
    let mut rest = es;
    let mut r: Vec<(String, ServiceInfo)> = Vec::new();
    while rest.len() > 0
        invariant
            orig == es@,
            r@.len() + rest@.len() == orig.len(),
            rest@ == orig.subrange(r@.len() as int, orig.len() as int),
            forall|i: int|
                0 <= i < r@.len() ==> r@[i].0 == orig[i].0 && orig[i].1 == Some(
                    r@[i].1.username,
                ),
        decreases rest@.len(),
    {
        let ghost done = r@.len() as int;
        proof {
            assert(orig.subrange(done, orig.len() as int)[0] == orig[done]);
        }
        let (k, u) = rest.remove(0);
        match u {
            Some(inner) => r.push((k, ServiceInfo { username: inner })),
            None => {
                proof {
                    assert(0 <= done < es@.len());
                    assert(es@[done].1 is None);
                    assert(!(forall|i: int| 0 <= i < es@.len() ==> es@[i].1 is Some));
                }
                return None;
            },
        }
        proof {
            assert(rest@ =~= orig.subrange(done + 1, orig.len() as int));
        }
    }
    Some(r)
}

/// Parses and decodes a create-credential response body: succeeds exactly
/// when the text parses and carries `ok`, `username` and `service` with
/// the right types, and then the record's fields equal the body's; any
/// failure is a decode error whose description is fixed by the body.
pub fn decode_create_body(body: &str) -> (r: Result<CredentialCreateResult, ClientError>)
    ensures
        r is Ok <==> (create_fields_of(body@) matches Ok(f) && spec_create_fields(
            f.0,
            f.1,
            f.2,
        ) is Some),
        r matches Ok(c) ==> (create_fields_of(body@) matches Ok(f) && spec_create_fields(
            f.0,
            f.1,
            f.2,
        ) == Some((c.ok, c.username@, c.service@))),
        r matches Err(e) ==> e matches ClientError::Decode(_),
        create_fields_of(body@) matches Err(m) ==> (r matches Err(ClientError::Decode(d))
            && d@ == m),
        (create_fields_of(body@) matches Ok(f) && spec_create_fields(f.0, f.1, f.2) is None)
            ==> (r matches Err(ClientError::Decode(d)) && d@
            == crate::model::create_missing_msg()),
{
    match extract_create_fields(body) {
        Ok((ok, username, service)) => create_result_from_fields(ok, username, service),
        Err(msg) => Err(ClientError::Decode(msg)),
    }
}

/// Parses and decodes a get-one-credential response body: succeeds
/// exactly when the text parses and carries `username` and `service` as
/// strings and any present `password` is a string; a missing password
/// becomes the empty string; any failure is a decode error whose
/// description is fixed by the body.
pub fn decode_credential_body(body: &str) -> (r: Result<CredentialResult, ClientError>)
    ensures
        r is Ok <==> (credential_fields_of(body@) matches Ok(f) && spec_decode_credential(
            f,
        ) is Some),
        r matches Ok(c) ==> (credential_fields_of(body@) matches Ok(f)
            && spec_decode_credential(f) == Some((c.username@, c.service@, c.password@))),
        r matches Err(e) ==> e matches ClientError::Decode(_),
        credential_fields_of(body@) matches Err(m) ==> (r matches Err(ClientError::Decode(d))
            && d@ == m),
        (credential_fields_of(body@) matches Ok(f) && password_bad(f)) ==> (r matches Err(
            ClientError::Decode(d),
        ) && d@ == password_kind_msg()),
        (credential_fields_of(body@) matches Ok(f) && !password_bad(f)
            && spec_decode_credential(f) is None) ==> (r matches Err(ClientError::Decode(d))
            && d@ == crate::model::credential_missing_msg()),
{
    match extract_credential_fields(body) {
        Ok((username, service, password)) => match password {
            Some(p) => match p {
                Some(pw) => credential_from_fields(username, service, Some(pw)),
                None => Err(ClientError::Decode("password field is not a string".to_owned())),
            },
            None => credential_from_fields(username, service, None),
        },
        Err(msg) => Err(ClientError::Decode(msg)),
    }
}

/// Parses and decodes a list-services response body: succeeds exactly
/// when the text parses, carries `username` and a `services` object, and
/// every service entry is an object whose `username` is a string, null
/// or absent; then the listing holds one entry per service key — none
/// dropped, invented or duplicated — with each entry's extracted
/// metadata; any failure is a decode error whose description is fixed by
/// the body.
pub fn decode_list_body(body: &str) -> (r: Result<ServiceListResult, ClientError>)
    ensures
        r is Ok <==> (list_fields_of(body@) matches Ok(f) && spec_decode_list(f) is Some),
        r matches Ok(l) ==> (list_fields_of(body@) matches Ok(f) && spec_decode_list(f)
            == Some((l.username@, listing_views(l.services@)))),
        r matches Ok(l) ==> l.wf(),
        r matches Err(e) ==> e matches ClientError::Decode(_),
        list_fields_of(body@) matches Err(m) ==> (r matches Err(ClientError::Decode(d)) && d@
            == m),
        (list_fields_of(body@) matches Ok(f) && entries_bad(f)) ==> (r matches Err(
            ClientError::Decode(d),
        ) && d@ == entry_shape_msg()),
        (list_fields_of(body@) matches Ok(f) && !entries_bad(f) && spec_decode_list(f) is None)
            ==> (r matches Err(ClientError::Decode(d)) && d@ == crate::model::list_missing_msg()),
{
    match extract_list_fields(body) {
        Ok((username, entries)) => match entries {
            Some(es) => {
                let ghost es_view = es@;
                match build_service_entries(es) {
                    Some(built) => {
                        proof {
                            assert forall|i: int, j: int|
                                0 <= i < j < built@.len() implies built@[i].0@
                                != built@[j].0@ by {
                                assert(built@[i].0 == es_view[i].0);
                                assert(built@[j].0 == es_view[j].0);
                            }
                            assert forall|i: int|
                                0 <= i < built@.len() implies listing_views(built@)[i]
                                == unwrap_entries(pair_views(es_view))[i] by {
                                assert(built@[i].0 == es_view[i].0);
                                assert(es_view[i].1 == Some(built@[i].1.username));
                                assert(pair_views(es_view)[i] == (
                                    es_view[i].0@,
                                    opt2_view(es_view[i].1),
                                ));
                            }
                            assert(listing_views(built@) =~= unwrap_entries(
                                pair_views(es_view),
                            ));
                            assert forall|i: int|
                                0 <= i < es_view.len() implies pair_views(es_view)[i].1
                                is Some by {
                                assert(es_view[i].1 == Some(built@[i].1.username));
                            }
                        }
                        service_list_from_fields(username, Some(built))
                    },
                    None => {
                        proof {
                            let i = choose|i: int|
                                0 <= i < es_view.len() && es_view[i].1 is None;
                            assert(pair_views(es_view)[i].1 is None);
                        }
                        Err(
                            ClientError::Decode(
                                "service entry is not an object or its username is not a string".to_owned(),
                            ),
                        )
                    },
                }
            },
            None => service_list_from_fields(username, None),
        },
        Err(msg) => Err(ClientError::Decode(msg)),
    }
}

/// A parsed listing whose services object is empty decodes to an empty
/// mapping, not a failure: for every username, the decoded pair keeps
/// that username and has no entries.
pub proof fn lemma_empty_services_listing(u: Seq<char>)
    ensures
        spec_decode_list(
            (Some(u), Some(Seq::<(Seq<char>, Option<Option<Seq<char>>>)>::empty())),
        ) matches Some(l) && l.0 == u && l.1.len() == 0,
{
}

/// A parsed credential body that carries username and service but no
/// password field still decodes, and its password is the empty string.
pub proof fn lemma_missing_password_field_defaults(u: Seq<char>, s: Seq<char>)
    ensures
        spec_decode_credential((Some(u), Some(s), None)) matches Some(t) && t.2
            == Seq::<char>::empty(),
{
}

} // verus!
