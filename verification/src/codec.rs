//! Verified text encoding for the wire format: JSON string escaping for
//! request bodies, percent-encoding for URL path segments and query values,
//! and the construction of the three request URLs and the create-request
//! body. Every public function here states the exact text it produces.

use vstd::prelude::*;
use vstd::utf8::encode_scalar;

verus! {

/// The uppercase hexadecimal digit for a value below 16.
pub open spec fn spec_hex_digit(n: u8) -> char
    recommends
        n < 16,
{
    if n == 0 {
        '0'
    } else if n == 1 {
        '1'
    } else if n == 2 {
        '2'
    } else if n == 3 {
        '3'
    } else if n == 4 {
        '4'
    } else if n == 5 {
        '5'
    } else if n == 6 {
        '6'
    } else if n == 7 {
        '7'
    } else if n == 8 {
        '8'
    } else if n == 9 {
        '9'
    } else if n == 10 {
        'A'
    } else if n == 11 {
        'B'
    } else if n == 12 {
        'C'
    } else if n == 13 {
        'D'
    } else if n == 14 {
        'E'
    } else {
        'F'
    }
}

/// The uppercase hexadecimal digit for a value below 16.
pub fn hex_digit(n: u8) -> (c: char)
    requires
        n < 16,
    ensures
        c == spec_hex_digit(n),
{
    if n == 0 {
        '0'
    } else if n == 1 {
        '1'
    } else if n == 2 {
        '2'
    } else if n == 3 {
        '3'
    } else if n == 4 {
        '4'
    } else if n == 5 {
        '5'
    } else if n == 6 {
        '6'
    } else if n == 7 {
        '7'
    } else if n == 8 {
        '8'
    } else if n == 9 {
        '9'
    } else if n == 10 {
        'A'
    } else if n == 11 {
        'B'
    } else if n == 12 {
        'C'
    } else if n == 13 {
        'D'
    } else if n == 14 {
        'E'
    } else {
        'F'
    }
}

/// The UTF-8 encoding of one character, as `vstd::utf8` defines it.
pub fn utf8_bytes(c: char) -> (r: Vec<u8>)
    ensures
        r@ == encode_scalar(c as u32),
{
    proof {
        vstd::utf8::char_is_scalar(c);
    }
    let v: u32 = c as u32;
    let mut r: Vec<u8> = Vec::new();
    if v <= 0x7F {
        r.push((v & 0x7F) as u8);
    } else if v <= 0x7FF {
        r.push(0xC0 | ((v >> 6) & 0x1F) as u8);
        r.push(0x80 | (v & 0x3F) as u8);
    } else if v <= 0xFFFF {
        r.push(0xE0 | ((v >> 12) & 0x0F) as u8);
        r.push(0x80 | ((v >> 6) & 0x3F) as u8);
        r.push(0x80 | (v & 0x3F) as u8);
    } else {
        r.push(0xF0 | ((v >> 18) & 0x7) as u8);
        r.push(0x80 | ((v >> 12) & 0x3F) as u8);
        r.push(0x80 | ((v >> 6) & 0x3F) as u8);
        r.push(0x80 | (v & 0x3F) as u8);
    }
    assert(r@ =~= encode_scalar(c as u32));
    r
}

/// The percent-encoded form of one byte: `%` and two uppercase hex digits.
pub open spec fn spec_pct_byte(b: u8) -> Seq<char> {
    seq!['%', spec_hex_digit(b / 16), spec_hex_digit(b % 16)]
}

/// The percent-encoded form of a byte sequence.
pub open spec fn spec_pct_bytes(bs: Seq<u8>) -> Seq<char>
    decreases bs.len(),
{
    if bs.len() == 0 {
        Seq::empty()
    } else {
        spec_pct_byte(bs[0]) + spec_pct_bytes(bs.drop_first())
    }
}

/// True for the characters that a URL keeps unencoded: the unreserved set
/// of letters, digits, `-`, `_`, `.` and `~`.
pub open spec fn spec_is_unreserved(c: char) -> bool {
    ('A' <= c && c <= 'Z') || ('a' <= c && c <= 'z') || ('0' <= c && c <= '9') || c == '-' || c
        == '_' || c == '.' || c == '~'
}

/// The percent-encoded form of one character: kept as it is when
/// unreserved, otherwise each byte of its UTF-8 encoding as `%XX`.
pub open spec fn spec_pct_char(c: char) -> Seq<char> {
    if spec_is_unreserved(c) {
        seq![c]
    } else {
        spec_pct_bytes(encode_scalar(c as u32))
    }
}

/// The percent-encoded form of a character sequence.
pub open spec fn spec_pct_encode(s: Seq<char>) -> Seq<char>
    decreases s.len(),
{
    if s.len() == 0 {
        Seq::empty()
    } else {
        spec_pct_char(s[0]) + spec_pct_encode(s.drop_first())
    }
}

proof fn lemma_pct_encode_push(s: Seq<char>, c: char)
    ensures
        spec_pct_encode(s.push(c)) == spec_pct_encode(s) + spec_pct_char(c),
    decreases s.len(),
{
    if s.len() == 0 {
        assert(s.push(c).drop_first() =~= s);
        assert(spec_pct_encode(s.push(c)) =~= spec_pct_encode(s) + spec_pct_char(c));
    } else {
        assert(s.push(c).drop_first() =~= s.drop_first().push(c));
        lemma_pct_encode_push(s.drop_first(), c);
        assert(spec_pct_encode(s.push(c)) =~= spec_pct_encode(s) + spec_pct_char(c));
    }
}

proof fn lemma_pct_bytes_push(bs: Seq<u8>, b: u8)
    ensures
        spec_pct_bytes(bs.push(b)) == spec_pct_bytes(bs) + spec_pct_byte(b),
    decreases bs.len(),
{
    if bs.len() == 0 {
        assert(bs.push(b).drop_first() =~= bs);
        assert(spec_pct_bytes(bs.push(b)) =~= spec_pct_bytes(bs) + spec_pct_byte(b));
    } else {
        assert(bs.push(b).drop_first() =~= bs.drop_first().push(b));
        lemma_pct_bytes_push(bs.drop_first(), b);
        assert(spec_pct_bytes(bs.push(b)) =~= spec_pct_bytes(bs) + spec_pct_byte(b));
    }
}

/// Appends the percent-encoding of one character to `out`.
fn pct_char_into(out: &mut Vec<char>, c: char)
    ensures
        final(out)@ == old(out)@ + spec_pct_char(c),
{
    let unreserved: bool = ('A' <= c && c <= 'Z') || ('a' <= c && c <= 'z') || ('0' <= c && c
        <= '9') || c == '-' || c == '_' || c == '.' || c == '~';
    if unreserved {
        out.push(c);
        assert(out@ =~= old(out)@ + spec_pct_char(c));
    } else {
        let bs = utf8_bytes(c);
        let ghost done = old(out)@;
        let mut i: usize = 0;
        while i < bs.len()
            invariant
                i <= bs@.len(),
                bs@ == encode_scalar(c as u32),
                out@ == done + spec_pct_bytes(bs@.take(i as int)),
            decreases bs@.len() - i,
        {
            let b = bs[i];
            out.push('%');
            out.push(hex_digit(b / 16));
            out.push(hex_digit(b % 16));
            proof {
                lemma_pct_bytes_push(bs@.take(i as int), b);
                assert(bs@.take(i as int).push(b) =~= bs@.take(i + 1 as int));
                assert(out@ =~= done + spec_pct_bytes(bs@.take(i + 1 as int)));
            }
            i = i + 1;
        }
        assert(bs@.take(bs@.len() as int) =~= bs@);
        assert(out@ =~= done + spec_pct_char(c));
    }
}

/// Appends the percent-encoding of every character of `s` to `out`.
fn pct_encode_into(out: &mut Vec<char>, s: &Vec<char>)
    ensures
        final(out)@ == old(out)@ + spec_pct_encode(s@),
{
    let ghost done = old(out)@;
    let mut i: usize = 0;
    while i < s.len()
        invariant
            i <= s@.len(),
            out@ == done + spec_pct_encode(s@.take(i as int)),
        decreases s@.len() - i,
    {
        pct_char_into(out, s[i]);
        proof {
            lemma_pct_encode_push(s@.take(i as int), s@[i as int]);
            assert(s@.take(i as int).push(s@[i as int]) =~= s@.take(i + 1 as int));
        }
        i = i + 1;
    }
    assert(s@.take(s@.len() as int) =~= s@);
}

/// The JSON escape of one character inside a string literal: `"` and `\`
/// get a backslash, control characters become `\u00XX`, everything else
/// stands for itself.
pub open spec fn spec_json_escape_char(c: char) -> Seq<char> {
    if c == '"' {
        seq!['\\', '"']
    } else if c == '\\' {
        seq!['\\', '\\']
    } else if (c as u32) < 0x20 {
        seq![
            '\\',
            'u',
            '0',
            '0',
            spec_hex_digit(((c as u32) / 16) as u8),
            spec_hex_digit(((c as u32) % 16) as u8),
        ]
    } else {
        seq![c]
    }
}

/// The JSON escape of a character sequence.
pub open spec fn spec_json_escape(s: Seq<char>) -> Seq<char>
    decreases s.len(),
{
    if s.len() == 0 {
        Seq::empty()
    } else {
        spec_json_escape_char(s[0]) + spec_json_escape(s.drop_first())
    }
}

/// The JSON rendering of a string value: the escaped characters between
/// double quotes.
pub open spec fn spec_json_string(s: Seq<char>) -> Seq<char> {
    seq!['"'] + spec_json_escape(s) + seq!['"']
}

proof fn lemma_json_escape_push(s: Seq<char>, c: char)
    ensures
        spec_json_escape(s.push(c)) == spec_json_escape(s) + spec_json_escape_char(c),
    decreases s.len(),
{
    if s.len() == 0 {
        assert(s.push(c).drop_first() =~= s);
        assert(spec_json_escape(s.push(c)) =~= spec_json_escape(s) + spec_json_escape_char(c));
    } else {
        assert(s.push(c).drop_first() =~= s.drop_first().push(c));
        lemma_json_escape_push(s.drop_first(), c);
        assert(spec_json_escape(s.push(c)) =~= spec_json_escape(s) + spec_json_escape_char(c));
    }
}

/// Appends the JSON escape of one character to `out`.
fn json_escape_char_into(out: &mut Vec<char>, c: char)
    ensures
        final(out)@ == old(out)@ + spec_json_escape_char(c),
{
    if c == '"' {
        out.push('\\');
        out.push('"');
        assert(out@ =~= old(out)@ + spec_json_escape_char(c));
    } else if c == '\\' {
        out.push('\\');
        out.push('\\');
        assert(out@ =~= old(out)@ + spec_json_escape_char(c));
    } else if (c as u32) < 0x20 {
        let v: u32 = c as u32;
        out.push('\\');
        out.push('u');
        out.push('0');
        out.push('0');
        out.push(hex_digit((v / 16) as u8));
        out.push(hex_digit((v % 16) as u8));
        assert(out@ =~= old(out)@ + spec_json_escape_char(c));
    } else {
        out.push(c);
        assert(out@ =~= old(out)@ + spec_json_escape_char(c));
    }
}

/// Appends the JSON rendering of the string `s` — quoted and escaped — to
/// `out`.
fn json_string_into(out: &mut Vec<char>, s: &Vec<char>)
    ensures
        final(out)@ == old(out)@ + spec_json_string(s@),
{
    let ghost start = old(out)@;
    out.push('"');
    let ghost opened = out@;
    let mut i: usize = 0;
    while i < s.len()
        invariant
            i <= s@.len(),
            out@ == opened + spec_json_escape(s@.take(i as int)),
        decreases s@.len() - i,
    {
        json_escape_char_into(out, s[i]);
        proof {
            lemma_json_escape_push(s@.take(i as int), s@[i as int]);
            assert(s@.take(i as int).push(s@[i as int]) =~= s@.take(i + 1 as int));
        }
        i = i + 1;
    }
    assert(s@.take(s@.len() as int) =~= s@);
    out.push('"');
    assert(out@ =~= start + spec_json_string(s@));
}

/// Relies on str::chars and collecting into a Vec: the characters of the
/// string, in order — exactly the string's view.
#[verifier::external_body]
fn chars_of(s: &str) -> (r: Vec<char>)
    ensures
        r@ == s@,
{
    s.chars().collect()
}

/// Relies on String as FromIterator<char>: the collected string holds
/// exactly the characters of the vector, in order.
#[verifier::external_body]
fn string_from_chars(v: &Vec<char>) -> (r: String)
    ensures
        r@ == v@,
{
    v.iter().collect()
}

/// The percent-encoded form of a string.
pub fn percent_encode(s: &str) -> (r: String)
    ensures
        r@ == spec_pct_encode(s@),
{
    let cs = chars_of(s);
    let mut out: Vec<char> = Vec::new();
    pct_encode_into(&mut out, &cs);
    string_from_chars(&out)
}

/// The JSON rendering of a string value: quoted and escaped.
pub fn json_string(s: &str) -> (r: String)
    ensures
        r@ == spec_json_string(s@),
{
    let cs = chars_of(s);
    let mut out: Vec<char> = Vec::new();
    json_string_into(&mut out, &cs);
    string_from_chars(&out)
}

/// The JSON body of a create-credential request.
pub open spec fn spec_add_cred_body(u: Seq<char>, s: Seq<char>, p: Seq<char>) -> Seq<char> {
    "{\"username\":"@ + spec_json_string(u) + ",\"service\":"@ + spec_json_string(s)
        + ",\"password\":"@ + spec_json_string(p) + "}"@
}

/// The JSON body of a create-credential request:
/// `{"username":…,"service":…,"password":…}` with each value escaped.
pub fn add_cred_body(username: &str, service: &str, password: &str) -> (r: String)
    ensures
        r@ == spec_add_cred_body(username@, service@, password@),
{
    let mut out: Vec<char> = chars_of("{\"username\":");
    let u = chars_of(username);
    json_string_into(&mut out, &u);
    let mut t1 = chars_of(",\"service\":");
    out.append(&mut t1);
    let s = chars_of(service);
    json_string_into(&mut out, &s);
    let mut t2 = chars_of(",\"password\":");
    out.append(&mut t2);
    let p = chars_of(password);
    json_string_into(&mut out, &p);
    let mut t3 = chars_of("}");
    out.append(&mut t3);
    assert(out@ =~= spec_add_cred_body(username@, service@, password@));
    string_from_chars(&out)
}

/// The URL of a create-credential request: `{base}/creds`.
pub open spec fn spec_add_cred_url(base: Seq<char>) -> Seq<char> {
    base + "/creds"@
}

/// The URL of a create-credential request: `{base}/creds`.
pub fn add_cred_url(base: &str) -> (r: String)
    ensures
        r@ == spec_add_cred_url(base@),
{
    let mut out: Vec<char> = chars_of(base);
    let mut t = chars_of("/creds");
    out.append(&mut t);
    assert(out@ =~= spec_add_cred_url(base@));
    string_from_chars(&out)
}

/// The URL of a list-services request:
/// `{base}/creds?username={username}` with the username percent-encoded.
pub open spec fn spec_list_services_url(base: Seq<char>, u: Seq<char>) -> Seq<char> {
    base + "/creds?username="@ + spec_pct_encode(u)
}

/// The URL of a list-services request:
/// `{base}/creds?username={username}` with the username percent-encoded.
pub fn list_services_url(base: &str, username: &str) -> (r: String)
    ensures
        r@ == spec_list_services_url(base@, username@),
{
    let mut out: Vec<char> = chars_of(base);
    let mut t = chars_of("/creds?username=");
    out.append(&mut t);
    let u = chars_of(username);
    pct_encode_into(&mut out, &u);
    assert(out@ =~= spec_list_services_url(base@, username@));
    string_from_chars(&out)
}

/// The URL of a get-one-credential request:
/// `{base}/creds/{service}?username={username}`, with the service name
/// percent-encoded as a path segment and the username as a query value.
pub open spec fn spec_get_one_url(base: Seq<char>, service: Seq<char>, u: Seq<char>) -> Seq<
    char,
> {
    base + "/creds/"@ + spec_pct_encode(service) + "?username="@ + spec_pct_encode(u)
}

/// The URL of a get-one-credential request:
/// `{base}/creds/{service}?username={username}`, with the service name
/// percent-encoded as a path segment and the username as a query value.
pub fn get_one_url(base: &str, username: &str, service: &str) -> (r: String)
    ensures
        r@ == spec_get_one_url(base@, service@, username@),
{
    let mut out: Vec<char> = chars_of(base);
    let mut t1 = chars_of("/creds/");
    out.append(&mut t1);
    let s = chars_of(service);
    pct_encode_into(&mut out, &s);
    let mut t2 = chars_of("?username=");
    out.append(&mut t2);
    let u = chars_of(username);
    pct_encode_into(&mut out, &u);
    assert(out@ =~= spec_get_one_url(base@, service@, username@));
    string_from_chars(&out)
}

} // verus!
