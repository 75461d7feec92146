use vstd::prelude::*;

use crate::params::{ParamModel, ParamValue, Params};
use crate::session::DmToken;

verus! {

pub const T_KEY: &'static str = "t";

pub const APP_KEY_KEY: &'static str = "appKey";

pub const SIGN_KEY: &'static str = "sign";

pub const UMID_TOKEN_KEY: &'static str = "bx-umidtoken";

pub const UA_KEY: &'static str = "bx-ua";

pub const DATA_KEY: &'static str = "data";

/// The MD5 digest of the UTF-8 bytes of `s`, as lowercase hex.
pub uninterp spec fn md5_hex_of(s: Seq<char>) -> Seq<char>;

pub open spec fn is_lower_hex(c: char) -> bool {
    ('0' <= c && c <= '9') || ('a' <= c && c <= 'f')
}

/// Relies on md5::compute for the digest and on the `Debug` format of
/// md5::Digest, which writes its sixteen bytes as two lowercase hex digits
/// each.
#[verifier::external_body]
fn md5_hex(s: &str) -> (r: String)
    ensures
        r@ == md5_hex_of(s@),
        r@.len() == 32,
        forall|i: int| 0 <= i < r@.len() ==> is_lower_hex(#[trigger] r@[i]),
{
    format!("{:?}", md5::compute(s))
}

/// The string that an authenticated request signs.
pub open spec fn sign_input(
    token: Seq<char>,
    t: Seq<char>,
    app_key: Seq<char>,
    data: Seq<char>,
) -> Seq<char> {
    token + seq!['&'] + t + seq!['&'] + app_key + seq!['&'] + data
}

/// The signature of an authenticated request.
pub open spec fn sign_of(token: Seq<char>, t: Seq<char>, app_key: Seq<char>, data: Seq<char>) -> Seq<
    char,
> {
    md5_hex_of(sign_input(token, t, app_key, data))
}

/// The text held under `k`, if `k` is present with a text value.
pub open spec fn text_param(m: Map<Seq<char>, ParamModel>, k: Seq<char>) -> Option<Seq<char>> {
    if m.contains_key(k) {
        match m[k] {
            ParamModel::Text(s) => Some(s),
            ParamModel::Number(_) => None,
        }
    } else {
        None
    }
}

/// The query of a login request: the caller's parameters with both anti-bot
/// tokens added.
pub open spec fn login_query(m: Map<Seq<char>, ParamModel>, bx_token: Seq<char>, bx_ua: Seq<char>) -> Map<
    Seq<char>,
    ParamModel,
> {
    m.insert(UMID_TOKEN_KEY@, ParamModel::Text(bx_token)).insert(UA_KEY@, ParamModel::Text(bx_ua))
}

/// The query of an authenticated request: the caller's parameters with the
/// signature and both anti-bot tokens added.
pub open spec fn signed_query(
    m: Map<Seq<char>, ParamModel>,
    token: Seq<char>,
    data: Seq<char>,
    bx_token: Seq<char>,
    bx_ua: Seq<char>,
) -> Map<Seq<char>, ParamModel> {
    login_query(
        m.insert(
            SIGN_KEY@,
            ParamModel::Text(
                sign_of(token, text_param(m, T_KEY@)->0, text_param(m, APP_KEY_KEY@)->0, data),
            ),
        ),
        bx_token,
        bx_ua,
    )
}

/// Both signed fields, `t` and `appKey`, are present as text.
pub open spec fn has_signing_fields(m: Map<Seq<char>, ParamModel>) -> bool {
    text_param(m, T_KEY@) is Some && text_param(m, APP_KEY_KEY@) is Some
}

/// Thirty-two lowercase hex digits.
pub open spec fn is_hex_digest(s: Seq<char>) -> bool {
    s.len() == 32 && forall|i: int| 0 <= i < s.len() ==> is_lower_hex(#[trigger] s[i])
}

/// The signature that an authenticated request with these parameters and
/// this body carries.
pub open spec fn request_sign(m: Map<Seq<char>, ParamModel>, token: Seq<char>, data: Seq<char>) -> Seq<
    char,
> {
    sign_of(token, text_param(m, T_KEY@)->0, text_param(m, APP_KEY_KEY@)->0, data)
}

/// An authenticated request ready to send: query parameters and form body.
#[derive(Debug)]
pub struct SignedRequest {
    pub query: Params,
    pub form: Params,
}

/// Joins the four signed components with `&`.
pub fn signing_string(token: &str, t: &str, app_key: &str, data: &str) -> (r: String)
    ensures
        r@ == sign_input(token@, t@, app_key@, data@),
{
    proof {
        reveal_strlit("&");
    }
    let mut r = String::from_str(token);
    r.append("&");
    r.append(t);
    r.append("&");
    r.append(app_key);
    r.append("&");
    r.append(data);
    r
}

/// The signature of an authenticated request.
pub fn compute_sign(token: &str, t: &str, app_key: &str, data: &str) -> (r: String)
    ensures
        r@ == sign_of(token@, t@, app_key@, data@),
        is_hex_digest(r@),
{
    let s = signing_string(token, t, app_key, data);
    md5_hex(s.as_str())
}

/// The text under `key`, if present with a text value.
fn text_of<'a>(params: &'a Params, key: &str) -> (r: Option<&'a String>)
    requires
        params.wf(),
    ensures
        match r {
            Some(s) => text_param(params@, key@) == Some(s@),
            None => text_param(params@, key@) is None,
        },
{
    match params.get(key) {
        Some(ParamValue::Text(s)) => Some(s),
        _ => None,
    }
}

/// Whether the parameters can be signed: `t` and `appKey` are present as
/// text.
pub fn signing_fields_present(params: &Params) -> (r: bool)
    requires
        params.wf(),
    ensures
        r == has_signing_fields(params@),
{
    text_of(params, T_KEY).is_some() && text_of(params, APP_KEY_KEY).is_some()
}

/// Adds the anti-bot tokens to the parameters of a login request. `bx_ua`
/// is the value fetched for this call; no signature is added.
pub fn login_params(params: Params, bx_token: &str, bx_ua: &str) -> (r: Params)
    requires
        params.wf(),
    ensures
        r.wf(),
        r@ == login_query(params@, bx_token@, bx_ua@),
{
    let mut r = params;
    r.set(UMID_TOKEN_KEY, ParamValue::text(bx_token));
    r.set(UA_KEY, ParamValue::text(bx_ua));
    r
}

/// Signs the parameters of an authenticated request with the session
/// token, the caller's `t` and `appKey` and the serialized body, then adds
/// the anti-bot tokens. `bx_ua` is the value fetched for this call.
pub fn signed_params(
    params: Params,
    token: &DmToken,
    bx_token: &str,
    bx_ua: &str,
    data_json: &str,
) -> (r: Params)
    requires
        params.wf(),
        has_signing_fields(params@),
    ensures
        r.wf(),
        r@ == signed_query(params@, token.token@, data_json@, bx_token@, bx_ua@),
        is_hex_digest(request_sign(params@, token.token@, data_json@)),
{
    let t = text_of(&params, T_KEY).unwrap();
    let app_key = text_of(&params, APP_KEY_KEY).unwrap();
    let sign = compute_sign(token.token.as_str(), t.as_str(), app_key.as_str(), data_json);
    let mut r = params;
    r.set(SIGN_KEY, ParamValue::Text(sign));
    login_params(r, bx_token, bx_ua)
}

/// The form body of an authenticated request: the serialized body under
/// `data`.
pub fn form_body(data_json: &str) -> (r: Params)
    ensures
        r.wf(),
        r@ == Map::<Seq<char>, ParamModel>::empty().insert(DATA_KEY@, ParamModel::Text(data_json@)),
{
    let mut r = Params::new();
    r.set(DATA_KEY, ParamValue::text(data_json));
    r
}

/// Builds an authenticated request: signed query and form body.
pub fn sign_request(
    params: Params,
    token: &DmToken,
    bx_token: &str,
    bx_ua: &str,
    data_json: &str,
) -> (r: SignedRequest)
    requires
        params.wf(),
        has_signing_fields(params@),
    ensures
        r.query.wf(),
        r.query@ == signed_query(params@, token.token@, data_json@, bx_token@, bx_ua@),
        is_hex_digest(request_sign(params@, token.token@, data_json@)),
        r.form.wf(),
        r.form@ == Map::<Seq<char>, ParamModel>::empty().insert(
            DATA_KEY@,
            ParamModel::Text(data_json@),
        ),
{
    let query = signed_params(params, token, bx_token, bx_ua, data_json);
    SignedRequest { query, form: form_body(data_json) }
}

#[verifier::external_type_specification]
#[verifier::external_body]
pub struct ExJsonValue(serde_json::Value);

#[verifier::external_type_specification]
#[verifier::external_body]
pub struct ExJsonError(serde_json::Error);

/// Relies on serde_json::to_string to serialize a request body as JSON
/// text. Serialization fails only where a `Serialize` impl fails or a map
/// key is not a string; that of `Value` only passes values on and keys its
/// maps by `String`, so a `Value` always serializes.
#[verifier::external_body]
fn json_text(v: &serde_json::Value) -> (r: Result<String, serde_json::Error>)
    ensures
        r is Ok,
{
    serde_json::to_string(v)
}

/// Serializes `data` and builds the authenticated request around that
/// text, as [`sign_request`] does.
pub fn sign_json_request(
    params: Params,
    token: &DmToken,
    bx_token: &str,
    bx_ua: &str,
    data: &serde_json::Value,
) -> (r: SignedRequest)
    requires
        params.wf(),
        has_signing_fields(params@),
    ensures
        exists|body: Seq<char>|
            {
                &&& r.query.wf()
                &&& r.query@ == signed_query(params@, token.token@, body, bx_token@, bx_ua@)
                &&& is_hex_digest(request_sign(params@, token.token@, body))
                &&& r.form.wf()
                &&& r.form@ == Map::<Seq<char>, ParamModel>::empty().insert(
                    DATA_KEY@,
                    ParamModel::Text(body),
                )
            },
{
    let text = json_text(data).unwrap();
    sign_request(params, token, bx_token, bx_ua, text.as_str())
}

/// Signing is a function of its four components: equal components give
/// equal signatures.
pub proof fn lemma_sign_deterministic(
    token: Seq<char>,
    t: Seq<char>,
    app_key: Seq<char>,
    data: Seq<char>,
    token2: Seq<char>,
    t2: Seq<char>,
    app_key2: Seq<char>,
    data2: Seq<char>,
)
    requires
        token == token2,
        t == t2,
        app_key == app_key2,
        data == data2,
    ensures
        sign_of(token, t, app_key, data) == sign_of(token2, t2, app_key2, data2),
{
}

/// Changing any one of the four components, the others kept, changes the
/// signed string.
pub proof fn lemma_sign_input_distinguishes(
    token: Seq<char>,
    t: Seq<char>,
    app_key: Seq<char>,
    data: Seq<char>,
    other: Seq<char>,
)
    ensures
        other != token ==> sign_input(other, t, app_key, data) != sign_input(token, t, app_key, data),
        other != t ==> sign_input(token, other, app_key, data) != sign_input(token, t, app_key, data),
        other != app_key ==> sign_input(token, t, other, data) != sign_input(
            token,
            t,
            app_key,
            data,
        ),
        other != data ==> sign_input(token, t, app_key, other) != sign_input(
            token,
            t,
            app_key,
            data,
        ),
{
    let amp = seq!['&'];
    let e = Seq::<char>::empty();
    if other != token && sign_input(other, t, app_key, data) == sign_input(token, t, app_key, data) {
        let rest = amp + t + amp + app_key + amp + data;
        assert(sign_input(other, t, app_key, data) =~= e + other + rest);
        assert(sign_input(token, t, app_key, data) =~= e + token + rest);
        lemma_cancel(e, other, token, rest);
    }
    if other != t && sign_input(token, other, app_key, data) == sign_input(token, t, app_key, data) {
        let front = token + amp;
        let rest = amp + app_key + amp + data;
        assert(sign_input(token, other, app_key, data) =~= front + other + rest);
        assert(sign_input(token, t, app_key, data) =~= front + t + rest);
        lemma_cancel(front, other, t, rest);
    }
    if other != app_key && sign_input(token, t, other, data) == sign_input(token, t, app_key, data) {
        let front = token + amp + t + amp;
        let rest = amp + data;
        assert(sign_input(token, t, other, data) =~= front + other + rest);
        assert(sign_input(token, t, app_key, data) =~= front + app_key + rest);
        lemma_cancel(front, other, app_key, rest);
    }
    if other != data && sign_input(token, t, app_key, other) == sign_input(token, t, app_key, data) {
        let front = token + amp + t + amp + app_key + amp;
        assert(sign_input(token, t, app_key, other) =~= front + other + e);
        assert(sign_input(token, t, app_key, data) =~= front + data + e);
        lemma_cancel(front, other, data, e);
    }
}

proof fn lemma_cancel(p: Seq<char>, x: Seq<char>, y: Seq<char>, s: Seq<char>)
    requires
        p + x + s == p + y + s,
    ensures
        x == y,
{
    let l = p + x + s;
    let r = p + y + s;
    assert(l.len() == r.len());
    assert(l.subrange(p.len() as int, (p.len() + x.len()) as int) =~= x);
    assert(r.subrange(p.len() as int, (p.len() + y.len()) as int) =~= y);
}

/// A login query never gains a `sign` field; an authenticated query always
/// holds one.
pub proof fn lemma_sign_field(
    m: Map<Seq<char>, ParamModel>,
    token: Seq<char>,
    data: Seq<char>,
    bx_token: Seq<char>,
    bx_ua: Seq<char>,
)
    ensures
        !m.contains_key(SIGN_KEY@) ==> !login_query(m, bx_token, bx_ua).contains_key(SIGN_KEY@),
        signed_query(m, token, data, bx_token, bx_ua).contains_key(SIGN_KEY@),
{
    reveal_strlit("sign");
    reveal_strlit("bx-ua");
    reveal_strlit("bx-umidtoken");
    assert(SIGN_KEY@[0] != UA_KEY@[0]);
    assert(SIGN_KEY@[0] != UMID_TOKEN_KEY@[0]);
}

/// The `bx-ua` sent is the value fetched for that call: calls made with
/// different fetched values send different values.
pub proof fn lemma_ua_per_call(
    m: Map<Seq<char>, ParamModel>,
    token: Seq<char>,
    data: Seq<char>,
    bx_token: Seq<char>,
    ua1: Seq<char>,
    ua2: Seq<char>,
)
    requires
        ua1 != ua2,
    ensures
        login_query(m, bx_token, ua1)[UA_KEY@] != login_query(m, bx_token, ua2)[UA_KEY@],
        signed_query(m, token, data, bx_token, ua1)[UA_KEY@] != signed_query(
            m,
            token,
            data,
            bx_token,
            ua2,
        )[UA_KEY@],
{
}

} // verus!
