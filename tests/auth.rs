use dm_ticket::config::ClientConfig;
use dm_ticket::login_poll::{LoginOutcome, PollPolicy, PollSession, PollStep, QrStatus};
use dm_ticket::params::{ParamValue, Params};
use dm_ticket::qrcode::{QrcodeData, QrcodeGenerateParams};
use dm_ticket::session::{token_part_of, DmToken};
use dm_ticket::signing::{
    compute_sign, form_body, login_params, sign_json_request, sign_request, signed_params,
    signing_fields_present, signing_string,
};
use dm_ticket::token_store::{token_query, TokenEnvelope, BX_TOKEN_KEY, BX_UA_KEY};

fn text(s: &str) -> ParamValue {
    ParamValue::Text(s.to_string())
}

fn cookies(pairs: &[(&str, &str)]) -> Vec<(String, String)> {
    pairs.iter().map(|(n, v)| (n.to_string(), v.to_string())).collect()
}

fn token(t: &str) -> DmToken {
    DmToken { enc_token: "ENC".to_string(), token_with_time: format!("{}_1", t), token: t.to_string() }
}

fn api_params(t: &str, app_key: &str) -> Params {
    let mut p = Params::new();
    p.set("t", text(t));
    p.set("appKey", text(app_key));
    p
}

// token store envelope

#[test]
fn envelope_success_returns_value_verbatim() {
    for key in [BX_UA_KEY, BX_TOKEN_KEY] {
        let env = TokenEnvelope { code: Some(200), value: Some(format!("v-{}", key)) };
        assert_eq!(env.into_value(), format!("v-{}", key));
    }
}

#[test]
fn envelope_other_codes_give_empty() {
    for code in [0u64, 199, 201, 404, 500] {
        let env = TokenEnvelope { code: Some(code), value: Some("x".to_string()) };
        assert_eq!(env.into_value(), "");
    }
}

#[test]
fn envelope_malformed_gives_empty() {
    assert_eq!(TokenEnvelope { code: None, value: Some("x".to_string()) }.into_value(), "");
    assert_eq!(TokenEnvelope { code: Some(200), value: None }.into_value(), "");
    assert_eq!(TokenEnvelope { code: None, value: None }.into_value(), "");
}

#[test]
fn token_query_names_key() {
    let q = token_query("bx_ua");
    assert_eq!(q.len(), 1);
    assert_eq!(q.get("key"), Some(&text("bx_ua")));
}

// session token

#[test]
fn session_token_from_cookies() {
    let c = cookies(&[("_m_h5_tk", "ABC_169900"), ("_m_h5_tk_enc", "XYZ")]);
    let t = DmToken::from_cookies(&c);
    assert_eq!(t.token, "ABC");
    assert_eq!(t.token_with_time, "ABC_169900");
    assert_eq!(t.enc_token, "XYZ");
    assert!(t.is_complete());
}

#[test]
fn session_token_missing_cookies_stay_empty() {
    let c = cookies(&[("other", "1_2")]);
    let t = DmToken::from_cookies(&c);
    assert_eq!(t.token, "");
    assert_eq!(t.token_with_time, "");
    assert_eq!(t.enc_token, "");
    assert!(!t.is_complete());
    let only_tk = DmToken::from_cookies(&cookies(&[("_m_h5_tk", "A_1")]));
    assert!(!only_tk.is_complete());
}

#[test]
fn session_token_last_cookie_wins() {
    let c = cookies(&[("_m_h5_tk", "OLD_1"), ("_m_h5_tk", "NEW_2"), ("_m_h5_tk_enc", "E")]);
    let t = DmToken::from_cookies(&c);
    assert_eq!(t.token, "NEW");
    assert_eq!(t.token_with_time, "NEW_2");
}

#[test]
fn token_part_splits_at_first_underscore() {
    assert_eq!(token_part_of("a_b_c"), "a");
    assert_eq!(token_part_of("abc"), "abc");
    assert_eq!(token_part_of("_x"), "");
    assert_eq!(token_part_of(""), "");
}

#[test]
fn cookie_header_layout() {
    let t = DmToken {
        enc_token: "XYZ".to_string(),
        token_with_time: "ABC_169900".to_string(),
        token: "ABC".to_string(),
    };
    assert_eq!(t.cookie_header("sid=1"), "sid=1;_m_h5_tk_enc=XYZ;_m_h5_tk=ABC_169900;");
}

// signing

#[test]
fn signing_string_joins_with_ampersand() {
    assert_eq!(signing_string("ABC", "1", "k", "{}"), "ABC&1&k&{}");
}

#[test]
fn sign_is_md5_hex_of_signing_string() {
    let s = compute_sign("tok", "1700000000000", "12574478", "{\"a\":1}");
    assert_eq!(s, "807afcd60b992c88954b79d8d24d911d");
    assert_eq!(compute_sign("ABC", "1", "k", "{}"), "dda491684acd36650ee468d91891d50b");
}

#[test]
fn sign_is_deterministic_and_input_sensitive() {
    let a = compute_sign("ABC", "1", "k", "{}");
    let b = compute_sign("ABC", "1", "k", "{}");
    assert_eq!(a, b);
    assert_ne!(a, compute_sign("ABC", "2", "k", "{}"));
    assert_ne!(a, compute_sign("ABD", "1", "k", "{}"));
    assert_ne!(a, compute_sign("ABC", "1", "j", "{}"));
    assert_ne!(a, compute_sign("ABC", "1", "k", "[]"));
    assert_eq!(compute_sign("ABC", "2", "k", "{}"), "1677b971cde96361f554923eeb044639");
}

#[test]
fn signed_params_adds_sign_and_tokens() {
    let mut p = api_params("1700000000000", "12574478");
    p.set("jsv", text("2.7.2"));
    let q = signed_params(p, &token("tok"), "umid", "ua-1", "{\"a\":1}");
    assert_eq!(q.len(), 6);
    assert_eq!(q.get("sign"), Some(&text("807afcd60b992c88954b79d8d24d911d")));
    assert_eq!(q.get("bx-umidtoken"), Some(&text("umid")));
    assert_eq!(q.get("bx-ua"), Some(&text("ua-1")));
    assert_eq!(q.get("jsv"), Some(&text("2.7.2")));
    assert_eq!(q.get("t"), Some(&text("1700000000000")));
}

#[test]
fn signing_fields_required() {
    let mut only_key = Params::new();
    only_key.set("appKey", text("k"));
    assert!(!signing_fields_present(&only_key));
    let mut only_t = Params::new();
    only_t.set("t", text("1"));
    assert!(!signing_fields_present(&only_t));
    let mut numeric_t = Params::new();
    numeric_t.set("t", ParamValue::Number(1));
    numeric_t.set("appKey", text("k"));
    assert!(!signing_fields_present(&numeric_t));
    assert!(!signing_fields_present(&Params::new()));
    assert!(signing_fields_present(&api_params("1", "k")));
}

#[test]
fn sign_is_lowercase_hex_digest() {
    for (tok, t) in [("ABC", "1"), ("", ""), ("x_y", "99")] {
        let s = compute_sign(tok, t, "k", "{}");
        assert_eq!(s.len(), 32);
        assert!(s.chars().all(|c| c.is_ascii_digit() || ('a'..='f').contains(&c)));
    }
    let q = signed_params(api_params("1", "k"), &token("ABC"), "u", "x", "{}");
    match q.get("sign") {
        Some(ParamValue::Text(s)) => assert_eq!(s.len(), 32),
        other => panic!("no sign: {:?}", other),
    }
}

#[test]
fn params_check_wf_detects_duplicate_keys() {
    let mut p = Params::new();
    p.set("a", text("1"));
    p.set("b", text("2"));
    assert!(p.check_wf());
    let dup = Params { entries: vec![("a".to_string(), text("1")), ("a".to_string(), text("2"))] };
    assert!(!dup.check_wf());
    assert!(Params::new().check_wf());
}

#[test]
fn sign_request_builds_form_body() {
    let r = sign_request(api_params("1", "k"), &token("ABC"), "u", "x", "{}");
    assert_eq!(r.query.get("sign"), Some(&text("dda491684acd36650ee468d91891d50b")));
    assert_eq!(r.form.len(), 1);
    assert_eq!(r.form.get("data"), Some(&text("{}")));
    let f = form_body("{\"b\":2}");
    assert_eq!(f.get("data"), Some(&text("{\"b\":2}")));
}

#[test]
fn login_variant_has_no_sign_authenticated_does() {
    let l = login_params(QrcodeGenerateParams::build(), "umid", "ua");
    assert!(l.get("sign").is_none());
    assert_eq!(l.get("bx-umidtoken"), Some(&text("umid")));
    assert_eq!(l.get("bx-ua"), Some(&text("ua")));
    let s = signed_params(api_params("1", "k"), &token("ABC"), "umid", "ua", "{}");
    assert!(s.get("sign").is_some());
}

#[test]
fn bx_ua_follows_each_call() {
    let t = token("ABC");
    let first = signed_params(api_params("1", "k"), &t, "umid", "ua-first", "{}");
    let second = signed_params(api_params("1", "k"), &t, "umid", "ua-second", "{}");
    assert_eq!(first.get("bx-ua"), Some(&text("ua-first")));
    assert_eq!(second.get("bx-ua"), Some(&text("ua-second")));
    assert_ne!(first.get("bx-ua"), second.get("bx-ua"));
    assert_eq!(first.get("bx-umidtoken"), second.get("bx-umidtoken"));
    let l1 = login_params(Params::new(), "umid", "a");
    let l2 = login_params(Params::new(), "umid", "b");
    assert_ne!(l1.get("bx-ua"), l2.get("bx-ua"));
}

#[test]
fn params_set_replaces_value() {
    let mut p = Params::new();
    p.set("a", text("1"));
    p.set("b", text("2"));
    p.set("a", text("3"));
    assert_eq!(p.len(), 2);
    assert_eq!(p.get("a"), Some(&text("3")));
    assert_eq!(p.entries[0].0, "a");
    assert!(p.get("c").is_none());
}

// QR code

#[test]
fn generate_params_are_fixed() {
    let p = QrcodeGenerateParams::build();
    assert_eq!(p.len(), 12);
    assert_eq!(p.get("appName"), Some(&text("damai")));
    assert_eq!(p.get("fromSite"), Some(&text("18")));
    assert_eq!(p.get("lang"), Some(&text("zh_CN")));
    assert_eq!(p.get("bizParams"), Some(&text("")));
    assert_eq!(p.get("_bx-v"), Some(&text("2.2.3")));
}

#[test]
fn ticket_round_trip_into_poll() {
    let ticket = QrcodeData {
        t: 1700000000123,
        code_content: "https://m.damai.cn/qr?lgToken=ab_cd&x=1".to_string(),
        ck: "ck_value-9".to_string(),
        result_code: 100,
    };
    let p = ticket.poll_params();
    assert_eq!(p.len(), 2);
    assert_eq!(p.get("t"), Some(&ParamValue::Number(1700000000123)));
    assert_eq!(p.get("ck"), Some(&text("ck_value-9")));
    assert_eq!(ticket.payload(), "https://m.damai.cn/qr?lgToken=ab_cd&x=1");
}

// polling

fn run(policy: PollPolicy, feed: &[QrStatus]) -> (Option<LoginOutcome>, u32, u32) {
    let mut s = PollSession::new(policy);
    if let PollStep::Done(o) = s.first_step() {
        return (Some(o), s.polls, s.delays);
    }
    for status in feed {
        if let PollStep::Done(o) = s.observe(*status) {
            return (Some(o), s.polls, s.delays);
        }
    }
    (None, s.polls, s.delays)
}

#[test]
fn poll_confirmed_after_four() {
    let r = run(PollPolicy::standard(), &[QrStatus::New, QrStatus::New, QrStatus::Scanned, QrStatus::Confirmed]);
    assert_eq!(r, (Some(LoginOutcome::Confirmed), 4, 3));
}

#[test]
fn poll_expired_after_two() {
    let r = run(PollPolicy::standard(), &[QrStatus::New, QrStatus::Expired]);
    assert_eq!(r, (Some(LoginOutcome::Expired), 2, 1));
}

#[test]
fn poll_times_out_after_sixty_new() {
    let feed = vec![QrStatus::New; 60];
    let (outcome, polls, _) = run(PollPolicy::standard(), &feed);
    assert_eq!(outcome, Some(LoginOutcome::TimedOut));
    assert_eq!(polls, 60);
}

#[test]
fn poll_steps_and_unknown() {
    let mut s = PollSession::new(PollPolicy { max_attempts: 3, interval_secs: 5 });
    assert_eq!(s.first_step(), PollStep::PollNow);
    assert_eq!(s.observe(QrStatus::New), PollStep::Wait(5));
    assert_eq!(s.observe(QrStatus::Unknown), PollStep::PollNow);
    assert_eq!(s.delays, 1);
    assert_eq!(s.observe(QrStatus::Scanned), PollStep::Done(LoginOutcome::TimedOut));
    assert_eq!(s.outcome, Some(LoginOutcome::TimedOut));
}

#[test]
fn poll_zero_attempts_times_out_at_once() {
    let s = PollSession::new(PollPolicy { max_attempts: 0, interval_secs: 2 });
    assert_eq!(s.first_step(), PollStep::Done(LoginOutcome::TimedOut));
}

#[test]
fn status_parse() {
    assert_eq!(QrStatus::parse("NEW"), QrStatus::New);
    assert_eq!(QrStatus::parse("SCANED"), QrStatus::Scanned);
    assert_eq!(QrStatus::parse("CONFIRMED"), QrStatus::Confirmed);
    assert_eq!(QrStatus::parse("EXPIRED"), QrStatus::Expired);
    assert_eq!(QrStatus::parse("SCANNED"), QrStatus::Unknown);
    assert_eq!(QrStatus::parse(""), QrStatus::Unknown);
    assert!(QrStatus::Confirmed.is_terminal());
    assert!(QrStatus::Expired.is_terminal());
    assert!(!QrStatus::Scanned.is_terminal());
}

#[test]
fn config_defaults() {
    let c = ClientConfig::resolve(None, None);
    assert_eq!(c.token_store_url, "http://127.0.0.1:8080/");
    assert_eq!(c.qrcode_output_path, "./qrcode.png");
    let d = ClientConfig::resolve(Some("http://h/".to_string()), Some("q.png".to_string()));
    assert_eq!(d.token_store_url, "http://h/");
    assert_eq!(d.qrcode_output_path, "q.png");
}

#[test]
fn sign_json_request_serializes_body() {
    let body: serde_json::Value = serde_json::from_str("{ \"a\" : 1 }").unwrap();
    let r = sign_json_request(api_params("1700000000000", "12574478"), &token("tok"), "u", "x", &body);
    assert_eq!(r.form.get("data"), Some(&text("{\"a\":1}")));
    assert_eq!(r.query.get("sign"), Some(&text("807afcd60b992c88954b79d8d24d911d")));
}
