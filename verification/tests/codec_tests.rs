use accountly_client::codec::add_cred_body;
use accountly_client::codec::add_cred_url;
use accountly_client::codec::get_one_url;
use accountly_client::codec::json_string;
use accountly_client::codec::list_services_url;
use accountly_client::codec::percent_encode;

#[test]
fn percent_encode_keeps_unreserved() {
    assert_eq!(percent_encode("AZaz09-_.~"), "AZaz09-_.~");
    assert_eq!(percent_encode("github"), "github");
}

#[test]
fn percent_encode_reserved_ascii() {
    assert_eq!(percent_encode("a b/c"), "a%20b%2Fc");
    assert_eq!(percent_encode("a?b=c"), "a%3Fb%3Dc");
}

#[test]
fn percent_encode_multibyte() {
    assert_eq!(percent_encode("é"), "%C3%A9");
    assert_eq!(percent_encode("✓"), "%E2%9C%93");
    assert_eq!(percent_encode("𝄞"), "%F0%9D%84%9E");
}

#[test]
fn json_string_plain() {
    assert_eq!(json_string("Mattd"), "\"Mattd\"");
    assert_eq!(json_string(""), "\"\"");
}

#[test]
fn json_string_escapes_quotes_and_backslashes() {
    assert_eq!(json_string("a\"b\\c"), "\"a\\\"b\\\\c\"");
}

#[test]
fn json_string_escapes_control_characters() {
    assert_eq!(json_string("a\nb"), "\"a\\u000Ab\"");
    assert_eq!(json_string("\t"), "\"\\u0009\"");
}

#[test]
fn add_cred_body_exact() {
    assert_eq!(
        add_cred_body("Mattd", "github", "password123"),
        "{\"username\":\"Mattd\",\"service\":\"github\",\"password\":\"password123\"}"
    );
}

#[test]
fn add_cred_body_escapes_values() {
    assert_eq!(
        add_cred_body("a\"b", "s", "p\\q"),
        "{\"username\":\"a\\\"b\",\"service\":\"s\",\"password\":\"p\\\\q\"}"
    );
}

#[test]
fn add_cred_url_exact() {
    assert_eq!(add_cred_url("http://h"), "http://h/creds");
}

#[test]
fn list_services_url_encodes_username() {
    assert_eq!(list_services_url("http://h", "Mattd"), "http://h/creds?username=Mattd");
    assert_eq!(list_services_url("http://h", "a b"), "http://h/creds?username=a%20b");
}

#[test]
fn get_one_url_encodes_path_segment() {
    assert_eq!(
        get_one_url("http://h", "Mattd", "github"),
        "http://h/creds/github?username=Mattd"
    );
    assert_eq!(
        get_one_url("http://h", "u", "a/b?c"),
        "http://h/creds/a%2Fb%3Fc?username=u"
    );
}
