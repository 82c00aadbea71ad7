//! Signed Tuya Cloud requests: device commands, device status and token
//! grants, each carrying the HMAC-SHA256 `sign` header.

use vstd::prelude::*;
use crate::crypto::{lower_hex, sha256, sha256_hex, sign, upper_hex, hmac_sha256};
use crate::text::dec;
use vstd::utf8::encode_utf8;

verus! {

/// HTTP method of a request.
#[derive(Clone, Copy, Debug, PartialEq, Eq, Structural)]
pub enum Method {
    Get,
    Post,
}

/// Payload of a request. `Json` text is sent with the content type
/// `application/json`; `Raw` text is sent as it is.
pub enum Payload {
    Empty,
    Raw(String),
    Json(String),
}

pub enum PayloadView {
    Empty,
    Raw(Seq<char>),
    Json(Seq<char>),
}

/// A request ready to be sent: method, full URL, headers in the order they
/// are set, and payload.
pub struct TuyaRequest {
    pub method: Method,
    pub url: String,
    pub headers: Vec<(String, String)>,
    pub payload: Payload,
}

pub struct TuyaRequestView {
    pub method: Method,
    pub url: Seq<char>,
    pub headers: Seq<(Seq<char>, Seq<char>)>,
    pub payload: PayloadView,
}

pub open spec fn headers_view(h: Seq<(String, String)>) -> Seq<(Seq<char>, Seq<char>)> {
    h.map_values(|p: (String, String)| (p.0@, p.1@))
}

impl View for TuyaRequest {
    type V = TuyaRequestView;

    open spec fn view(&self) -> TuyaRequestView {
        TuyaRequestView {
            method: self.method,
            url: self.url@,
            headers: headers_view(self.headers@),
            payload: match self.payload {
                Payload::Empty => PayloadView::Empty,
                Payload::Raw(s) => PayloadView::Raw(s@),
                Payload::Json(s) => PayloadView::Json(s@),
            },
        }
    }
}

/// What a request is signed with: the API client id and secret, the current
/// access token (empty when there is none), the API base URL and the
/// `sign_method` header value.
pub struct Credentials {
    pub client_id: String,
    pub secret: String,
    pub access_token: String,
    pub base_url: String,
    pub sign_method: String,
}

/// Path of the command endpoint of a device.
pub open spec fn command_path(device_id: Seq<char>) -> Seq<char> {
    "/v1.0/devices/"@ + device_id + "/commands"@
}

/// Path of the status endpoint of a device.
pub open spec fn device_path(device_id: Seq<char>) -> Seq<char> {
    "/v1.0/devices/"@ + device_id
}

/// Path of the token-grant endpoint.
pub open spec fn token_path() -> Seq<char> {
    "/v1.0/token?grant_type=1"@
}

/// Lower-case hex SHA-256 of the UTF-8 bytes of `text`.
pub open spec fn text_hash(text: Seq<char>) -> Seq<char> {
    lower_hex(sha256(encode_utf8(text)))
}

/// The request part of the string to sign: method, body hash, an empty
/// header block and the path, on separate lines.
pub open spec fn content_to_sign(method: Seq<char>, body_hash: Seq<char>, path: Seq<char>) -> Seq<char> {
    method + "\n"@ + body_hash + "\n\n"@ + path
}

/// The `sign` header: upper-case hex HMAC-SHA256 of `msg` under `secret`.
pub open spec fn signature(secret: Seq<char>, msg: Seq<char>) -> Seq<char> {
    upper_hex(hmac_sha256(encode_utf8(secret), encode_utf8(msg)))
}

/// Headers of a device request, in order.
pub open spec fn device_headers(
    client_id: Seq<char>,
    access_token: Seq<char>,
    t: Seq<char>,
    sign: Seq<char>,
    sign_method: Seq<char>,
) -> Seq<(Seq<char>, Seq<char>)> {
    seq![
        ("client_id"@, client_id),
        ("access_token"@, access_token),
        ("t"@, t),
        ("sign"@, sign),
        ("sign_method"@, sign_method),
    ]
}

/// The signed `POST` that sends `body` to the command endpoint of
/// `device_id` at time `t`.
pub open spec fn command_request_spec(
    client_id: Seq<char>,
    secret: Seq<char>,
    access_token: Seq<char>,
    base_url: Seq<char>,
    sign_method: Seq<char>,
    device_id: Seq<char>,
    t: Seq<char>,
    body: Seq<char>,
    json: bool,
) -> TuyaRequestView {
    let path = command_path(device_id);
    let msg = client_id + access_token + t + content_to_sign("POST"@, text_hash(body), path);
    TuyaRequestView {
        method: Method::Post,
        url: base_url + path,
        headers: device_headers(client_id, access_token, t, signature(secret, msg), sign_method),
        payload: if json { PayloadView::Json(body) } else { PayloadView::Raw(body) },
    }
}

/// The signed `GET` of the status of `device_id` at time `t`.
pub open spec fn status_request_spec(
    client_id: Seq<char>,
    secret: Seq<char>,
    access_token: Seq<char>,
    base_url: Seq<char>,
    sign_method: Seq<char>,
    device_id: Seq<char>,
    t: Seq<char>,
) -> TuyaRequestView {
    let path = device_path(device_id);
    let msg = client_id + access_token + t + content_to_sign("GET"@, text_hash(Seq::empty()), path);
    TuyaRequestView {
        method: Method::Get,
        url: base_url + path,
        headers: device_headers(client_id, access_token, t, signature(secret, msg), sign_method),
        payload: PayloadView::Empty,
    }
}

/// The signed `GET` that asks for a new access token at time `t`. The
/// token grant is signed without an access token.
pub open spec fn token_request_spec(
    client_id: Seq<char>,
    secret: Seq<char>,
    base_url: Seq<char>,
    t: Seq<char>,
) -> TuyaRequestView {
    let msg = client_id + t + content_to_sign("GET"@, text_hash(Seq::empty()), token_path());
    TuyaRequestView {
        method: Method::Get,
        url: base_url + token_path(),
        headers: seq![
            ("client_id"@, client_id),
            ("sign_method"@, "HMAC-SHA256"@),
            ("t"@, t),
            ("sign"@, signature(secret, msg)),
            ("access_token"@, Seq::empty()),
        ],
        payload: PayloadView::Empty,
    }
}

fn header(name: &str, value: &str) -> (h: (String, String))
    ensures
        h.0@ == name@,
        h.1@ == value@,
{
    (String::from_str(name), String::from_str(value))
}

fn concat(a: &str, b: &str) -> (r: String)
    ensures
        r@ == a@ + b@,
{
    let mut r = String::from_str(a);
    r.append(b);
    r
}

fn device_header_list(creds: &Credentials, t: &str, sign: &str) -> (h: Vec<(String, String)>)
    ensures
        headers_view(h@) == device_headers(creds.client_id@, creds.access_token@, t@, sign@, creds.sign_method@),
{
    let mut h: Vec<(String, String)> = Vec::new();
    h.push(header("client_id", creds.client_id.as_str()));
    h.push(header("access_token", creds.access_token.as_str()));
    h.push(header("t", t));
    h.push(header("sign", sign));
    h.push(header("sign_method", creds.sign_method.as_str()));
    assert(headers_view(h@) =~= device_headers(creds.client_id@, creds.access_token@, t@, sign@, creds.sign_method@));
    h
}

/// The string to sign: `prefix` (the client id, access token and
/// timestamp) followed by the request part.
fn signed_string(prefix: &str, method: &str, body_hash: &str, path: &str) -> (r: String)
    ensures
        r@ == prefix@ + content_to_sign(method@, body_hash@, path@),
{
    let mut m = String::from_str(prefix);
    m.append(method);
    m.append("\n");
    m.append(body_hash);
    m.append("\n\n");
    m.append(path);
    assert(m@ =~= prefix@ + content_to_sign(method@, body_hash@, path@));
    m
}

/// Builds the signed command request for one device. `json` chooses the
/// `Json` payload (sent as `application/json`) over the `Raw` one.
pub fn command_request(creds: &Credentials, device_id: &str, t: &str, body: String, json: bool) -> (r: TuyaRequest)
    ensures
        r@ == command_request_spec(
            creds.client_id@,
            creds.secret@,
            creds.access_token@,
            creds.base_url@,
            creds.sign_method@,
            device_id@,
            t@,
            body@,
            json,
        ),
{
    let mut path = concat("/v1.0/devices/", device_id);
    path.append("/commands");
    let body_hash = sha256_hex(body.as_str());
    let mut prefix = concat(creds.client_id.as_str(), creds.access_token.as_str());
    prefix.append(t);
    let msg = signed_string(prefix.as_str(), "POST", body_hash.as_str(), path.as_str());
    let sig = sign(creds.secret.as_str(), msg.as_str());
    let url = concat(creds.base_url.as_str(), path.as_str());
    let headers = device_header_list(creds, t, sig.as_str());
    let payload = if json { Payload::Json(body) } else { Payload::Raw(body) };
    let r = TuyaRequest { method: Method::Post, url, headers, payload };
    proof {
        let path_s = command_path(device_id@);
        assert(path@ =~= path_s);
        let msg_s = creds.client_id@ + creds.access_token@ + t@ + content_to_sign("POST"@, text_hash(body@), path_s);
        assert(msg@ =~= msg_s);
    }
    r
}

/// Builds the signed status request for one device.
pub fn status_request(creds: &Credentials, device_id: &str, t: &str) -> (r: TuyaRequest)
    ensures
        r@ == status_request_spec(
            creds.client_id@,
            creds.secret@,
            creds.access_token@,
            creds.base_url@,
            creds.sign_method@,
            device_id@,
            t@,
        ),
{
    let path = concat("/v1.0/devices/", device_id);
    let empty_hash = sha256_hex("");
    let mut prefix = concat(creds.client_id.as_str(), creds.access_token.as_str());
    prefix.append(t);
    let msg = signed_string(prefix.as_str(), "GET", empty_hash.as_str(), path.as_str());
    let sig = sign(creds.secret.as_str(), msg.as_str());
    let url = concat(creds.base_url.as_str(), path.as_str());
    let headers = device_header_list(creds, t, sig.as_str());
    proof {
        reveal_strlit("");
        let msg_s = creds.client_id@ + creds.access_token@ + t@
            + content_to_sign("GET"@, text_hash(Seq::empty()), device_path(device_id@));
        assert(""@ =~= Seq::<char>::empty());
        assert(msg@ =~= msg_s);
    }
    TuyaRequest { method: Method::Get, url, headers, payload: Payload::Empty }
}

/// Builds the signed token-grant request.
pub fn token_request(client_id: &str, secret: &str, base_url: &str, t: &str) -> (r: TuyaRequest)
    ensures
        r@ == token_request_spec(client_id@, secret@, base_url@, t@),
{
    let empty_hash = sha256_hex("");
    let prefix = concat(client_id, t);
    let msg = signed_string(prefix.as_str(), "GET", empty_hash.as_str(), "/v1.0/token?grant_type=1");
    let sig = sign(secret, msg.as_str());
    let url = concat(base_url, "/v1.0/token?grant_type=1");
    let mut headers: Vec<(String, String)> = Vec::new();
    headers.push(header("client_id", client_id));
    headers.push(header("sign_method", "HMAC-SHA256"));
    headers.push(header("t", t));
    headers.push(header("sign", sig.as_str()));
    headers.push(header("access_token", ""));
    proof {
        reveal_strlit("");
        assert(""@ =~= Seq::<char>::empty());
        let msg_s = client_id@ + t@ + content_to_sign("GET"@, text_hash(Seq::empty()), token_path());
        assert(msg@ =~= msg_s);
        assert(headers_view(headers@) =~= token_request_spec(client_id@, secret@, base_url@, t@).headers);
    }
    TuyaRequest { method: Method::Get, url, headers, payload: Payload::Empty }
}

/// The `result` of a token-grant response.
pub struct TokenGrant {
    pub access_token: String,
    pub expire_time: i64,
    pub refresh_token: String,
    pub uid: String,
}

/// The access token and its lifetime in seconds that a token-grant
/// response gives, `None` when no response could be read. The lifetime is
/// `expire_time` reinterpreted as unsigned (`as u64`).
pub fn granted_token(grant: &Option<TokenGrant>) -> (r: Option<(String, u64)>)
    ensures
        match (grant, r) {
            (Some(g), Some(t)) => t.0@ == g.access_token@ && t.1 == g.expire_time as u64,
            (None, None) => true,
            _ => false,
        },
{
    match grant {
        Some(g) => Some((g.access_token.clone(), g.expire_time as u64)),
        None => None,
    }
}

/// The text a payload carries; none for an empty payload.
pub open spec fn payload_text(p: PayloadView) -> Seq<char> {
    match p {
        PayloadView::Empty => Seq::empty(),
        PayloadView::Raw(s) => s,
        PayloadView::Json(s) => s,
    }
}

/// A command request is a `POST` to `/v1.0/devices/{device}/commands` that
/// carries exactly `body` (as JSON or raw text, as asked), and its `sign`
/// header is the upper-case hex HMAC-SHA256, under the secret, of the
/// client id, access token and timestamp followed by `POST`, the lower-case
/// hex SHA-256 of the very payload text sent, an empty header block and the
/// path.
pub proof fn lemma_command_request_signs_payload(
    client_id: Seq<char>,
    secret: Seq<char>,
    access_token: Seq<char>,
    base_url: Seq<char>,
    sign_method: Seq<char>,
    device_id: Seq<char>,
    t: Seq<char>,
    body: Seq<char>,
    json: bool,
)
    ensures
        ({
            let r = command_request_spec(
                client_id, secret, access_token, base_url, sign_method, device_id, t, body, json,
            );
            let path = "/v1.0/devices/"@ + device_id + "/commands"@;
            &&& r.method == Method::Post
            &&& r.url == base_url + path
            &&& payload_text(r.payload) == body
            &&& (r.payload is Json) == json
            &&& r.headers == seq![
                ("client_id"@, client_id),
                ("access_token"@, access_token),
                ("t"@, t),
                ("sign"@, upper_hex(hmac_sha256(
                    encode_utf8(secret),
                    encode_utf8(client_id + access_token + t + "POST\n"@
                        + lower_hex(sha256(encode_utf8(payload_text(r.payload)))) + "\n\n"@ + path),
                ))),
                ("sign_method"@, sign_method),
            ]
        }),
{
    let path = "/v1.0/devices/"@ + device_id + "/commands"@;
    reveal_strlit("POST");
    reveal_strlit("POST\n");
    reveal_strlit("\n");
    reveal_strlit("\n\n");
    assert(client_id + access_token + t + content_to_sign("POST"@, text_hash(body), command_path(device_id))
        =~= client_id + access_token + t + "POST\n"@ + lower_hex(sha256(encode_utf8(body))) + "\n\n"@ + path);
}

/// A status request is a `GET` of `/v1.0/devices/{device}` with no
/// payload, signed like a command request over the SHA-256 of the empty
/// text.
pub proof fn lemma_status_request_signs_empty(
    client_id: Seq<char>,
    secret: Seq<char>,
    access_token: Seq<char>,
    base_url: Seq<char>,
    sign_method: Seq<char>,
    device_id: Seq<char>,
    t: Seq<char>,
)
    ensures
        ({
            let r = status_request_spec(client_id, secret, access_token, base_url, sign_method, device_id, t);
            let path = "/v1.0/devices/"@ + device_id;
            &&& r.method == Method::Get
            &&& r.url == base_url + path
            &&& r.payload == PayloadView::Empty
            &&& r.headers == seq![
                ("client_id"@, client_id),
                ("access_token"@, access_token),
                ("t"@, t),
                ("sign"@, upper_hex(hmac_sha256(
                    encode_utf8(secret),
                    encode_utf8(client_id + access_token + t + "GET\n"@
                        + lower_hex(sha256(encode_utf8(payload_text(r.payload)))) + "\n\n"@ + path),
                ))),
                ("sign_method"@, sign_method),
            ]
        }),
{
    let path = "/v1.0/devices/"@ + device_id;
    reveal_strlit("GET");
    reveal_strlit("GET\n");
    reveal_strlit("\n");
    reveal_strlit("\n\n");
    assert(client_id + access_token + t + content_to_sign("GET"@, text_hash(Seq::empty()), device_path(device_id))
        =~= client_id + access_token + t + "GET\n"@ + lower_hex(sha256(encode_utf8(Seq::empty()))) + "\n\n"@ + path);
}

/// A token request is a `GET` of `/v1.0/token?grant_type=1` with no
/// payload, signed without an access token: over the client id and
/// timestamp followed by `GET`, the SHA-256 of the empty text, an empty
/// header block and the path.
pub proof fn lemma_token_request_signs_without_token(
    client_id: Seq<char>,
    secret: Seq<char>,
    base_url: Seq<char>,
    t: Seq<char>,
)
    ensures
        ({
            let r = token_request_spec(client_id, secret, base_url, t);
            let path = "/v1.0/token?grant_type=1"@;
            &&& r.method == Method::Get
            &&& r.url == base_url + path
            &&& r.payload == PayloadView::Empty
            &&& r.headers == seq![
                ("client_id"@, client_id),
                ("sign_method"@, "HMAC-SHA256"@),
                ("t"@, t),
                ("sign"@, upper_hex(hmac_sha256(
                    encode_utf8(secret),
                    encode_utf8(client_id + t + "GET\n"@
                        + lower_hex(sha256(encode_utf8(payload_text(r.payload)))) + "\n\n"@ + path),
                ))),
                ("access_token"@, Seq::empty()),
            ]
        }),
{
    let path = "/v1.0/token?grant_type=1"@;
    reveal_strlit("GET");
    reveal_strlit("GET\n");
    reveal_strlit("\n");
    reveal_strlit("\n\n");
    assert(client_id + t + content_to_sign("GET"@, text_hash(Seq::empty()), token_path())
        =~= client_id + t + "GET\n"@ + lower_hex(sha256(encode_utf8(Seq::empty()))) + "\n\n"@ + path);
}

/// Exclusive upper bound of the local clock in milliseconds: chrono's
/// latest representable instant (the end of year 262142) lies below it.
pub const CLOCK_MILLIS_BOUND: i64 = 10_000_000_000_000_000;

/// Milliseconds since the Unix epoch on the local clock
/// (`chrono::Local::now().timestamp_millis()`). Claims only that the value
/// is not negative (`Utc::now` panics on a clock before the epoch) and lies
/// below `CLOCK_MILLIS_BOUND` (`Utc::now` unwraps a `DateTime` within
/// chrono's date range); which instant it names is the clock's.
#[verifier::external_body]
fn now_millis() -> (ms: i64)
    ensures
        0 <= ms < CLOCK_MILLIS_BOUND,
{
    chrono::Local::now().timestamp_millis()
}

/// The `t` header for a request made now: the decimal numeral of the
/// current time in milliseconds, a non-negative number below
/// `CLOCK_MILLIS_BOUND`. Which instant it names is the clock's.
pub fn current_timestamp() -> (t: String)
    ensures
        exists|ms: i64| 0 <= ms < CLOCK_MILLIS_BOUND && t@ == #[trigger] dec(ms as int),
{
    let ms = now_millis();
    crate::text::decimal_i64(ms)
}

} // verus!
