//! The wire protocol: the JSON envelope that carries a request to a process
//! and a response back, with bodies in standard base64.
//!
//! A request envelope is an object `{method, uri, headers, body}` whose
//! headers are a list of `[name, value]` pairs and whose body is base64 text.
//! A response envelope is read leniently: a missing or malformed status is
//! 200, missing headers or body are empty, and header values that are not
//! strings are skipped. Only bytes that are not JSON at all are an error.
use vstd::prelude::*;
use crate::entities::{HttpRequest, HttpResponse, ResponseView, method_name, pairs_view};
use crate::errors::UseCaseError;
use base64::Engine;

verus! {

#[verifier::external_type_specification]
#[verifier::external_body]
pub struct ExJsonError(serde_json::Error);

#[verifier::external_type_specification]
#[verifier::external_body]
pub struct ExJsonValue(serde_json::Value);

/// The standard base64 text of a byte string (alphabet `A-Z a-z 0-9 + /`,
/// with `=` padding).
pub uninterp spec fn base64_of(bytes: Seq<u8>) -> Seq<char>;

/// The bytes that standard base64 text decodes to, or `None` where the text
/// is not valid standard base64.
pub uninterp spec fn base64_decoded(text: Seq<char>) -> Option<Seq<u8>>;

/// Whether serde_json parses the bytes as one JSON value.
pub uninterp spec fn json_parses(data: Seq<u8>) -> bool;

/// The value serde_json parses from the bytes.
pub uninterp spec fn json_parsed(data: Seq<u8>) -> serde_json::Value;

/// The member of a JSON value under a name: `Null` when the value is not an
/// object or has no such member.
pub uninterp spec fn json_member(v: serde_json::Value, key: Seq<char>) -> serde_json::Value;

/// A JSON value as an unsigned 64-bit integer, where it is one.
pub uninterp spec fn json_as_u64(v: serde_json::Value) -> Option<u64>;

/// A JSON value as a string, where it is one.
pub uninterp spec fn json_as_str(v: serde_json::Value) -> Option<Seq<char>>;

/// The members of a JSON object, in the order its map yields them, or `None`
/// for a value that is not an object.
pub uninterp spec fn json_entries(v: serde_json::Value) -> Option<Seq<(Seq<char>, serde_json::Value)>>;

/// The JSON string value holding a text.
pub uninterp spec fn json_string(s: Seq<char>) -> serde_json::Value;

/// The JSON array of `[name, value]` string pairs.
pub uninterp spec fn json_string_pairs(h: Seq<(Seq<char>, Seq<char>)>) -> serde_json::Value;

/// The JSON object built from members in order, a later member replacing an
/// earlier one of the same name.
pub uninterp spec fn json_object(entries: Seq<(Seq<char>, serde_json::Value)>) -> serde_json::Value;

/// The bytes serde_json writes for a value.
pub uninterp spec fn json_bytes(v: serde_json::Value) -> Seq<u8>;

/// Relies on base64's `STANDARD.encode`: the standard base64 text of the
/// input, which depends on the bytes alone.
#[verifier::external_body]
fn encode_base64(bytes: &[u8]) -> (r: String)
    ensures
        r@ == base64_of(bytes@),
{
    base64::engine::general_purpose::STANDARD.encode(bytes)
}

/// Relies on base64's `STANDARD.decode`: the bytes the text stands for, or an
/// error for text that is not standard base64; decoding the encoding of any
/// bytes gives those bytes back (the crate's own `roundtrip_random` test).
#[verifier::external_body]
fn decode_base64(text: &str) -> (r: Option<Vec<u8>>)
    ensures
        r matches Some(v) ==> base64_decoded(text@) == Some(v@),
        r is None ==> base64_decoded(text@) is None,
        r matches Some(v) ==> forall|b: Seq<u8>| #[trigger] base64_of(b) == text@ ==> v@ == b,
        r is None ==> forall|b: Seq<u8>| #[trigger] base64_of(b) != text@,
{
    base64::engine::general_purpose::STANDARD.decode(text).ok()
}

/// Relies on serde_json's `from_slice` into a `Value`: it fails exactly on
/// bytes that are not one JSON value.
#[verifier::external_body]
fn parse_json(data: &[u8]) -> (r: Result<serde_json::Value, serde_json::Error>)
    ensures
        r is Ok <==> json_parses(data@),
        r matches Ok(v) ==> v == json_parsed(data@),
{
    serde_json::from_slice(data)
}

/// Relies on indexing a `Value` by a member name, which yields `Null` for a
/// missing member or a value that is not an object.
#[verifier::external_body]
fn json_get<'a>(v: &'a serde_json::Value, key: &str) -> (r: &'a serde_json::Value)
    ensures
        *r == json_member(*v, key@),
{
    &v[key]
}

/// Relies on `Value::as_u64`.
#[verifier::external_body]
fn json_u64(v: &serde_json::Value) -> (r: Option<u64>)
    ensures
        r == json_as_u64(*v),
{
    v.as_u64()
}

/// Relies on `Value::as_str`.
#[verifier::external_body]
fn json_text(v: &serde_json::Value) -> (r: Option<String>)
    ensures
        opt_text_view(r) == json_as_str(*v),
{
    v.as_str().map(String::from)
}

/// Relies on `Value::as_object`, whose map is walked in its own order.
#[verifier::external_body]
fn json_object_entries(v: &serde_json::Value) -> (r: Option<Vec<(String, serde_json::Value)>>)
    ensures
        opt_entries_view(r) == json_entries(*v),
{
    v.as_object().map(|o| o.iter().map(|(k, x)| (k.clone(), x.clone())).collect())
}

/// Relies on `Value::from(&str)`, which makes a JSON string.
#[verifier::external_body]
fn json_string_value(s: &str) -> (r: serde_json::Value)
    ensures
        r == json_string(s@),
        json_as_str(r) == Some(s@),
{
    serde_json::Value::from(s)
}

/// Relies on serde_json's `to_value`, which fails only when a `Serialize`
/// impl fails or a map has non-string keys; string pairs give neither.
#[verifier::external_body]
fn json_pairs_value(h: &Vec<(String, String)>) -> (r: Result<serde_json::Value, serde_json::Error>)
    ensures
        r is Ok,
        r matches Ok(v) ==> v == json_string_pairs(pairs_view(h@)),
{
    serde_json::to_value(h)
}

/// Relies on `Value`'s `FromIterator` of name/value pairs, which makes an
/// object.
#[verifier::external_body]
fn json_object_value(entries: Vec<(String, serde_json::Value)>) -> (r: serde_json::Value)
    ensures
        r == json_object(entries_view(entries@)),
{
    entries.into_iter().collect()
}

/// Relies on serde_json's `to_vec`, which fails only when a `Serialize` impl
/// fails or a map has non-string keys; a `Value` gives neither.
#[verifier::external_body]
fn json_to_bytes(v: &serde_json::Value) -> (r: Result<Vec<u8>, serde_json::Error>)
    ensures
        r is Ok,
        r matches Ok(b) ==> b@ == json_bytes(*v),
{
    serde_json::to_vec(v)
}

pub open spec fn entries_view(e: Seq<(String, serde_json::Value)>) -> Seq<(Seq<char>, serde_json::Value)> {
    e.map_values(|p: (String, serde_json::Value)| (p.0@, p.1))
}

pub open spec fn opt_entries_view(e: Option<Vec<(String, serde_json::Value)>>) -> Option<Seq<(Seq<char>, serde_json::Value)>> {
    match e {
        Some(v) => Some(entries_view(v@)),
        None => None,
    }
}

/// The three members of a response envelope that the protocol reads.
#[derive(Debug)]
pub struct ResponseEnvelope {
    pub status: Option<u64>,
    pub headers: Option<Vec<(String, Option<String>)>>,
    pub body: Option<String>,
}

pub open spec fn opt_text_view(v: Option<String>) -> Option<Seq<char>> {
    match v {
        Some(s) => Some(s@),
        None => None,
    }
}

pub open spec fn opt_pairs_view(h: Seq<(String, Option<String>)>) -> Seq<(Seq<char>, Option<Seq<char>>)> {
    h.map_values(|p: (String, Option<String>)| (p.0@, opt_text_view(p.1)))
}

pub open spec fn opt_headers_view(h: Option<Vec<(String, Option<String>)>>) -> Option<Seq<(Seq<char>, Option<Seq<char>>)>> {
    match h {
        Some(v) => Some(opt_pairs_view(v@)),
        None => None,
    }
}

/// The `status` member of an envelope, where it is an unsigned integer.
pub open spec fn envelope_status(data: Seq<u8>) -> Option<u64> {
    json_as_u64(json_member(json_parsed(data), "status"@))
}

/// The members of an envelope's `headers` object, each with its value where
/// that value is a string.
pub open spec fn envelope_headers(data: Seq<u8>) -> Option<Seq<(Seq<char>, Option<Seq<char>>)>> {
    match json_entries(json_member(json_parsed(data), "headers"@)) {
        Some(es) => Some(es.map_values(|e: (Seq<char>, serde_json::Value)| (e.0, json_as_str(e.1)))),
        None => None,
    }
}

/// The `body` member of an envelope, where it is a string.
pub open spec fn envelope_body(data: Seq<u8>) -> Option<Seq<char>> {
    json_as_str(json_member(json_parsed(data), "body"@))
}

/// Reads the three members of a response envelope; fails exactly on bytes
/// that are not JSON.
pub fn read_response_envelope(data: &[u8]) -> (r: Result<ResponseEnvelope, serde_json::Error>)
    ensures
        r is Ok <==> json_parses(data@),
        r matches Ok(e) ==> e.status == envelope_status(data@),
        r matches Ok(e) ==> opt_headers_view(e.headers) == envelope_headers(data@),
        r matches Ok(e) ==> opt_text_view(e.body) == envelope_body(data@),
{
    let v = parse_json(data)?;
    let status = json_u64(json_get(&v, "status"));
    let body = json_text(json_get(&v, "body"));
    let headers = match json_object_entries(json_get(&v, "headers")) {
        None => None,
        Some(entries) => {
            let ghost es = entries_view(entries@);
            let mut out: Vec<(String, Option<String>)> = Vec::new();
            let mut i: usize = 0;
            while i < entries.len()
                invariant
                    i <= entries@.len(),
                    out@.len() == i,
                    es == entries_view(entries@),
                    forall|j: int| 0 <= j < i ==> #[trigger] opt_pairs_view(out@)[j] == (es[j].0, json_as_str(es[j].1)),
                decreases entries@.len() - i,
            {
                let (k, x) = &entries[i];
                let t = json_text(x);
                assert(es[i as int] == (k@, *x));
                let key = k.clone();
                let ghost prev = out@;
                out.push((key, t));
                assert forall|j: int| 0 <= j < i implies #[trigger] opt_pairs_view(out@)[j] == (es[j].0, json_as_str(es[j].1)) by {
                    assert(out@[j] == prev[j]);
                    assert(opt_pairs_view(prev)[j] == (es[j].0, json_as_str(es[j].1)));
                }
                assert(opt_pairs_view(out@)[i as int] == (k@, json_as_str(*x)));
                i = i + 1;
            }
            assert(opt_pairs_view(out@) =~= es.map_values(
                |e: (Seq<char>, serde_json::Value)| (e.0, json_as_str(e.1)),
            ));
            Some(out)
        },
    };
    Ok(ResponseEnvelope { status, headers, body })
}

/// Relies on serde_json's `Display` for its error (through `to_string`).
#[verifier::external_body]
fn json_error_text(e: &serde_json::Error) -> String {
    e.to_string()
}

/// The header pairs whose value is a string, in order.
pub open spec fn string_pairs(h: Seq<(Seq<char>, Option<Seq<char>>)>) -> Seq<(Seq<char>, Seq<char>)>
    decreases h.len(),
{
    if h.len() == 0 {
        seq![]
    } else {
        let rest = string_pairs(h.drop_last());
        match h.last().1 {
            Some(v) => rest.push((h.last().0, v)),
            None => rest,
        }
    }
}

/// A status code HTTP can carry: three digits, 100 to 999.
pub open spec fn valid_status(n: u64) -> bool {
    100 <= n <= 999
}

/// The response that an envelope's members stand for: the status, or 200
/// when it is absent or not a valid status code, the string-valued headers, and the decoded
/// body, empty when absent or not valid base64.
pub open spec fn envelope_response(
    status: Option<u64>,
    headers: Option<Seq<(Seq<char>, Option<Seq<char>>)>>,
    body: Option<Seq<char>>,
) -> ResponseView {
    ResponseView {
        status_code: match status {
            Some(n) => if valid_status(n) {
                n as u16
            } else {
                200
            },
            None => 200,
        },
        headers: match headers {
            Some(h) => string_pairs(h),
            None => seq![],
        },
        body: match body {
            Some(t) => match base64_decoded(t) {
                Some(b) => b,
                None => seq![],
            },
            None => seq![],
        },
    }
}

/// The lenient defaults: an envelope with no status, headers or body stands
/// for status 200 with no headers and an empty body, and a body given as the
/// base64 text of some bytes stands for exactly those bytes once decoded.
pub proof fn lemma_envelope_defaults(status: Option<u64>, headers: Option<Seq<(Seq<char>, Option<Seq<char>>)>>)
    ensures
        envelope_response(None, headers, None).status_code == 200,
        envelope_response(status, None, None).headers.len() == 0,
        envelope_response(status, headers, None).body.len() == 0,
{
}

/// The request envelope as a JSON value: an object with the members
/// `method`, `uri`, `headers` (a list of `[name, value]` pairs) and `body`
/// (the base64 text of the body bytes).
pub open spec fn request_json(
    method: Seq<char>,
    path: Seq<char>,
    headers: Seq<(Seq<char>, Seq<char>)>,
    body: Seq<u8>,
) -> serde_json::Value {
    json_object(
        seq![
            ("method"@, json_string(method)),
            ("uri"@, json_string(path)),
            ("headers"@, json_string_pairs(headers)),
            ("body"@, json_string(base64_of(body))),
        ],
    )
}

/// The bytes of the request envelope.
pub open spec fn request_bytes(
    method: Seq<char>,
    path: Seq<char>,
    headers: Seq<(Seq<char>, Seq<char>)>,
    body: Seq<u8>,
) -> Seq<u8> {
    json_bytes(request_json(method, path, headers, body))
}

/// Serializes a request into its envelope bytes; this always succeeds.
pub fn serialize_request(request: &HttpRequest) -> (r: Result<Vec<u8>, UseCaseError>)
    ensures
        r is Ok,
        r matches Ok(b) ==> b@ == request_bytes(
            method_name(request.method),
            request.path@,
            pairs_view(request.headers@),
            request.body@,
        ),
{
    let body = encode_base64(request.body.as_slice());
    let headers = match json_pairs_value(&request.headers) {
        Ok(v) => v,
        Err(e) => return Err(UseCaseError::SerializationError(json_error_text(&e))),
    };
    let mut entries: Vec<(String, serde_json::Value)> = Vec::new();
    entries.push((String::from_str("method"), json_string_value(request.method.as_str())));
    entries.push((String::from_str("uri"), json_string_value(request.path.as_str())));
    entries.push((String::from_str("headers"), headers));
    entries.push((String::from_str("body"), json_string_value(body.as_str())));
    let ghost expected = seq![
        ("method"@, json_string(method_name(request.method))),
        ("uri"@, json_string(request.path@)),
        ("headers"@, json_string_pairs(pairs_view(request.headers@))),
        ("body"@, json_string(base64_of(request.body@))),
    ];
    assert(entries_view(entries@) =~= expected);
    let object = json_object_value(entries);
    match json_to_bytes(&object) {
        Ok(b) => Ok(b),
        Err(e) => Err(UseCaseError::SerializationError(json_error_text(&e))),
    }
}

/// Builds the response that an envelope's members stand for.
pub fn response_from_envelope(envelope: &ResponseEnvelope) -> (r: HttpResponse)
    ensures
        r@ == envelope_response(envelope.status, opt_headers_view(envelope.headers), opt_text_view(envelope.body)),
        forall|b: Seq<u8>| #![trigger base64_of(b)]
            opt_text_view(envelope.body) == Some(base64_of(b)) ==> r.body@ == b,
{
    let status_code: u16 = match envelope.status {
        Some(n) => if 100 <= n && n <= 999 {
            n as u16
        } else {
            200
        },
        None => 200,
    };
    let mut headers: Vec<(String, String)> = Vec::new();
    match &envelope.headers {
        Some(h) => {
            let mut i: usize = 0;
            while i < h.len()
                invariant
                    i <= h@.len(),
                    pairs_view(headers@) == string_pairs(opt_pairs_view(h@).subrange(0, i as int)),
                decreases h@.len() - i,
            {
                let (k, v) = &h[i];
                proof {
                    let next = opt_pairs_view(h@).subrange(0, i + 1);
                    assert(next.drop_last() =~= opt_pairs_view(h@).subrange(0, i as int));
                }
                match v {
                    Some(s) => {
                        headers.push((k.clone(), s.clone()));
                        assert(pairs_view(headers@) =~= string_pairs(opt_pairs_view(h@).subrange(0, i + 1)));
                    },
                    None => {},
                }
                i = i + 1;
            }
            assert(opt_pairs_view(h@).subrange(0, h@.len() as int) =~= opt_pairs_view(h@));
        },
        None => {
            assert(pairs_view(headers@) =~= Seq::<(Seq<char>, Seq<char>)>::empty());
        },
    }
    let body: Vec<u8> = match &envelope.body {
        Some(t) => match decode_base64(t.as_str()) {
            Some(b) => b,
            None => Vec::new(),
        },
        None => Vec::new(),
    };
    let r = HttpResponse { status_code, headers, body };
    assert(r@.body =~= envelope_response(envelope.status, opt_headers_view(envelope.headers), opt_text_view(envelope.body)).body);
    r
}

/// Deserializes a response from its envelope bytes; only bytes that are not
/// JSON are an error.
pub fn deserialize_response(data: &[u8]) -> (r: Result<HttpResponse, UseCaseError>)
    ensures
        r is Ok <==> json_parses(data@),
        r matches Ok(resp) ==> resp@ == envelope_response(
            envelope_status(data@),
            envelope_headers(data@),
            envelope_body(data@),
        ),
        r matches Ok(resp) ==> forall|b: Seq<u8>| #![trigger base64_of(b)]
            envelope_body(data@) == Some(base64_of(b)) ==> resp.body@ == b,
        r matches Err(e) ==> e is DeserializationError,
{
    match read_response_envelope(data) {
        Ok(envelope) => Ok(response_from_envelope(&envelope)),
        Err(e) => Err(UseCaseError::DeserializationError(json_error_text(&e))),
    }
}

} // verus!
