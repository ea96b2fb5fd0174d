use accountly_client::client::finish_add;
use accountly_client::client::finish_get;
use accountly_client::client::finish_list;
use accountly_client::client::handle_add_response;
use accountly_client::client::handle_get_response;
use accountly_client::client::handle_list_response;
use accountly_client::client::CredentialApiClient;
use accountly_client::error::ClientError;
use accountly_client::model::create_result_from_fields;
use accountly_client::model::credential_from_fields;
use accountly_client::model::service_list_from_fields;
use accountly_client::model::CredentialCreateRequest;
use accountly_client::model::CredentialCreateResult;

#[test]
fn add_credential_success_scenario() {
    let body = "{\"ok\": true, \"username\": \"Mattd\", \"service\": \"github\"}".to_string();
    let r = handle_add_response(200, body).unwrap();
    assert_eq!(
        r,
        CredentialCreateResult {
            ok: true,
            username: "Mattd".to_string(),
            service: "github".to_string(),
        }
    );
}

#[test]
fn list_one_service_scenario() {
    let body =
        "{\"username\": \"Mattd\", \"services\": {\"github\": {\"username\": \"Mattd\"}}}"
            .to_string();
    let r = handle_list_response(200, body).unwrap();
    assert_eq!(r.username, "Mattd");
    assert_eq!(r.services.len(), 1);
    assert_eq!(r.services[0].0, "github");
    assert_eq!(r.services[0].1.username, Some("Mattd".to_string()));
}

#[test]
fn list_empty_services_is_not_an_error() {
    let body = "{\"username\": \"nobody\", \"services\": {}}".to_string();
    let r = handle_list_response(200, body).unwrap();
    assert_eq!(r.username, "nobody");
    assert_eq!(r.services.len(), 0);
}

#[test]
fn get_missing_password_defaults_to_empty() {
    let body = "{\"username\": \"Mattd\", \"service\": \"github\"}".to_string();
    let r = handle_get_response(200, body).unwrap();
    assert_eq!(r.username, "Mattd");
    assert_eq!(r.service, "github");
    assert_eq!(r.password, "");
}

#[test]
fn get_with_password_keeps_it() {
    let body =
        "{\"username\": \"Mattd\", \"service\": \"github\", \"password\": \"password123\"}"
            .to_string();
    let r = handle_get_response(200, body).unwrap();
    assert_eq!(r.password, "password123");
}

#[test]
fn get_not_found_scenario() {
    let body = "{\"error\": \"not found\"}".to_string();
    let r = handle_get_response(404, body);
    assert_eq!(
        r,
        Err(ClientError::Api { status: 404, body: "{\"error\": \"not found\"}".to_string() })
    );
}

#[test]
fn every_error_status_surfaces_verbatim() {
    for status in [400u16, 401, 403, 404, 418, 500, 503, 599] {
        let r = handle_add_response(status, "boom".to_string());
        assert_eq!(r, Err(ClientError::Api { status, body: "boom".to_string() }));
    }
    for status in [100u16, 199, 300, 301, 600] {
        let r = handle_get_response(status, "b".to_string());
        assert_eq!(r, Err(ClientError::Api { status, body: "b".to_string() }));
    }
}

#[test]
fn success_statuses_are_never_api_errors() {
    for status in [200u16, 201, 204, 299] {
        let r = handle_add_response(status, "not json".to_string());
        assert!(matches!(r, Err(ClientError::Decode(_))));
    }
}

#[test]
fn invalid_json_is_a_decode_error() {
    let r = handle_get_response(200, "<html>".to_string());
    assert!(matches!(r, Err(ClientError::Decode(_))));
}

#[test]
fn missing_required_fields_are_decode_errors() {
    let r = handle_add_response(200, "{}".to_string());
    assert!(matches!(r, Err(ClientError::Decode(_))));
    let r = handle_add_response(200, "{\"ok\": true, \"username\": \"u\"}".to_string());
    assert!(matches!(r, Err(ClientError::Decode(_))));
    let r = handle_list_response(200, "{\"username\": \"u\"}".to_string());
    assert!(matches!(r, Err(ClientError::Decode(_))));
    let r = handle_get_response(200, "{\"service\": \"s\"}".to_string());
    assert!(matches!(r, Err(ClientError::Decode(_))));
}

#[test]
fn mistyped_fields_are_decode_errors() {
    let r = handle_add_response(
        200,
        "{\"ok\": \"yes\", \"username\": \"u\", \"service\": \"s\"}".to_string(),
    );
    assert!(matches!(r, Err(ClientError::Decode(_))));
    let r = handle_get_response(
        200,
        "{\"username\": \"u\", \"service\": \"s\", \"password\": 5}".to_string(),
    );
    assert!(matches!(r, Err(ClientError::Decode(_))));
    let r = handle_list_response(
        200,
        "{\"username\": \"u\", \"services\": [1, 2]}".to_string(),
    );
    assert!(matches!(r, Err(ClientError::Decode(_))));
}

#[test]
fn round_trip_identity_on_identity_fields() {
    let add = handle_add_response(
        200,
        "{\"ok\": true, \"username\": \"Mattd\", \"service\": \"github\"}".to_string(),
    )
    .unwrap();
    let got = handle_get_response(
        200,
        "{\"username\": \"Mattd\", \"service\": \"github\", \"password\": \"password123\"}"
            .to_string(),
    )
    .unwrap();
    assert_eq!(add.username, got.username);
    assert_eq!(add.service, got.service);
}

#[test]
fn transport_error_is_distinct_from_api_error() {
    let client = CredentialApiClient::new("http://127.0.0.1:9".to_string()).expect("client");
    let r = client.get_one("Mattd", "github");
    assert!(matches!(r, Err(ClientError::Transport(_))));
    let r = client.add_cred("Mattd", "github", "password123");
    assert!(matches!(r, Err(ClientError::Transport(_))));
    let r = client.list_services("Mattd");
    assert!(matches!(r, Err(ClientError::Transport(_))));
}

#[test]
fn transport_failure_surfaces_verbatim() {
    let r = finish_get(Err("connection refused".to_string()));
    assert_eq!(r, Err(ClientError::Transport("connection refused".to_string())));
    let r = finish_add(Err("dns failure".to_string()));
    assert_eq!(r, Err(ClientError::Transport("dns failure".to_string())));
    let r = finish_list(Err("timed out".to_string()));
    assert_eq!(r, Err(ClientError::Transport("timed out".to_string())));
}

#[test]
fn finished_exchange_classifies_responses() {
    let r = finish_add(Ok((404, "nope".to_string())));
    assert_eq!(r, Err(ClientError::Api { status: 404, body: "nope".to_string() }));
    let r = finish_get(Ok((200, "{\"username\": \"u\", \"service\": \"s\"}".to_string())));
    assert_eq!(r.unwrap().password, "");
}

#[test]
fn service_entry_must_be_an_object() {
    let r = handle_list_response(
        200,
        "{\"username\": \"u\", \"services\": {\"github\": 5}}".to_string(),
    );
    assert!(matches!(r, Err(ClientError::Decode(_))));
}

#[test]
fn service_entry_username_must_be_string_or_null() {
    let r = handle_list_response(
        200,
        "{\"username\": \"u\", \"services\": {\"github\": {\"username\": 5}}}".to_string(),
    );
    assert!(matches!(r, Err(ClientError::Decode(_))));
    let r = handle_list_response(
        200,
        "{\"username\": \"u\", \"services\": {\"github\": {\"username\": null}}}".to_string(),
    )
    .unwrap();
    assert_eq!(r.services[0].1.username, None);
    let r = handle_list_response(
        200,
        "{\"username\": \"u\", \"services\": {\"github\": {}}}".to_string(),
    )
    .unwrap();
    assert_eq!(r.services[0].1.username, None);
}

#[test]
fn null_password_is_a_decode_error() {
    let r = handle_get_response(
        200,
        "{\"username\": \"u\", \"service\": \"s\", \"password\": null}".to_string(),
    );
    assert!(matches!(r, Err(ClientError::Decode(_))));
}

#[test]
fn client_keeps_its_base_url() {
    let client = CredentialApiClient::new("http://h".to_string()).expect("client");
    assert_eq!(client.base(), "http://h");
}

#[test]
fn create_request_renders_its_body() {
    let req = CredentialCreateRequest {
        username: "Mattd".to_string(),
        service: "github".to_string(),
        password: "password123".to_string(),
    };
    assert_eq!(
        req.body(),
        "{\"username\":\"Mattd\",\"service\":\"github\",\"password\":\"password123\"}"
    );
}

#[test]
fn create_result_fields_all_required() {
    let r = create_result_from_fields(
        Some(true),
        Some("u".to_string()),
        Some("s".to_string()),
    )
    .unwrap();
    assert_eq!(r.ok, true);
    assert_eq!(r.username, "u");
    assert_eq!(r.service, "s");
    let r = create_result_from_fields(None, Some("u".to_string()), Some("s".to_string()));
    assert!(matches!(r, Err(ClientError::Decode(_))));
}

#[test]
fn credential_fields_default_password() {
    let r = credential_from_fields(Some("u".to_string()), Some("s".to_string()), None).unwrap();
    assert_eq!(r.password, "");
    let r = credential_from_fields(None, Some("s".to_string()), None);
    assert!(matches!(r, Err(ClientError::Decode(_))));
}

#[test]
fn service_list_fields_keep_entries() {
    let r = service_list_from_fields(Some("u".to_string()), Some(Vec::new())).unwrap();
    assert_eq!(r.username, "u");
    assert_eq!(r.services.len(), 0);
    let r = service_list_from_fields(None, Some(Vec::new()));
    assert!(matches!(r, Err(ClientError::Decode(_))));
}
