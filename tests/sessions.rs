use serde_json::Value;
use simple_api::document::Document;
use simple_api::middlewares::SessionMiddleware;
use simple_api::session::{
    build_rkey, build_session_key, get_signature, CookieSession, CookieSessionProvider, OpenStep,
    RedisSessionProvider, Session, SessionError, SessionProvider,
};
use simple_api::utils::parse_cookie;

fn hex(b: &[u8]) -> String {
    b.iter().map(|x| format!("{:02x}", x)).collect()
}

#[test]
fn store_keys() {
    assert_eq!(build_rkey(&vec!["a", "b", "c"]), "a:b:c");
    assert_eq!(build_rkey(&vec!["one"]), "one");
    assert_eq!(build_rkey(&vec![]), "");
    assert_eq!(build_session_key("abc"), "session:abc");
}

#[test]
fn document_get_set_and_text() {
    let mut d = Document::new();
    assert_eq!(d.len(), 0);
    assert_eq!(d.to_json(), "{}");
    d.set("b", Value::from(2));
    d.set("a", Value::from("x"));
    d.set("b", Value::from(3));
    assert_eq!(d.len(), 2);
    assert_eq!(d.get("b"), Some(Value::from(3)));
    assert_eq!(d.get("zz"), None);
    assert_eq!(d.to_json(), r#"{"a":"x","b":3}"#);
    let back = Document::from_json(&d.to_json()).unwrap();
    assert_eq!(back.get("a"), Some(Value::from("x")));
    assert_eq!(back.len(), 2);
    assert!(Document::from_json("[1,2]").is_none());
    assert!(Document::from_json("{").is_none());
}

#[test]
fn redis_open_without_cookie_is_fresh() {
    let p = RedisSessionProvider::new();
    match p.open_session(&parse_cookie("other=1")) {
        OpenStep::Ready(Session::Redis(s)) => {
            assert_eq!(s.value().len(), 0);
            assert_eq!(s.sid().len(), 36);
        }
        _ => panic!("expected a fresh session"),
    }
}

#[test]
fn redis_open_with_cookie_fetches_its_key() {
    let p = RedisSessionProvider::new();
    match p.open_session(&parse_cookie("session_id=xyz")) {
        OpenStep::Fetch { sid, key } => {
            assert_eq!(sid, "xyz");
            assert_eq!(key, "session:xyz");
        }
        _ => panic!("expected a fetch"),
    }
}

#[test]
fn redis_unknown_or_corrupt_session_fails() {
    let p = RedisSessionProvider::new();
    assert_eq!(p.finish_open("xyz", None).err(), Some(SessionError::NotFound));
    assert_eq!(p.finish_open("xyz", Some("nope".to_string())).err(), Some(SessionError::CorruptDocument));
    assert_eq!(p.finish_open("xyz", Some("3".to_string())).err(), Some(SessionError::CorruptDocument));
    let s = p.finish_open("xyz", Some(r#"{"n":5}"#.to_string())).unwrap();
    assert_eq!(s.sid(), "xyz");
    assert_eq!(s.get("n"), Some(Value::from(5)));
}

#[test]
fn redis_save_then_open_round_trip() {
    let p = RedisSessionProvider::new();
    let mut s = p.new_session();
    s.set("user", Value::from("ann"));
    s.set("n", Value::from(1.5));
    let step = p.save_session(&s);
    let (key, text) = step.store.clone().unwrap();
    assert_eq!(key, format!("session:{}", s.sid()));
    assert_eq!(step.set_cookie, format!("session_id={}", s.sid()));
    let back = p.finish_open(s.sid(), Some(text)).unwrap();
    assert_eq!(back.sid(), s.sid());
    assert_eq!(back.get("user"), Some(Value::from("ann")));
    assert_eq!(back.get("n"), Some(Value::from(1.5)));
    assert_eq!(back.value().len(), 2);
}

#[test]
fn signature_is_hmac_sha256() {
    let sig = get_signature(b"Jefe", "what do ya want for nothing?");
    assert_eq!(hex(&sig), "5bdcc146bf60754e6a042426089575c75a003f089d2739839dec58b964ec3843");
}

#[test]
fn key_from_hex() {
    assert!(CookieSessionProvider::from_hex("0aFf").is_ok());
    assert_eq!(CookieSessionProvider::from_hex("abc").err(), Some(SessionError::InvalidKey));
    assert_eq!(CookieSessionProvider::from_hex("zz").err(), Some(SessionError::InvalidKey));
    let a = CookieSessionProvider::from_hex("4a656665").unwrap();
    let b = CookieSessionProvider::from_slice(b"Jefe");
    let mut s = CookieSession::new();
    s.set("k", Value::from(1));
    assert_eq!(a.save_session(&s), b.save_session(&s));
}

fn cookie_value(set_cookie: &str) -> &str {
    set_cookie.strip_prefix("signed_session=").unwrap()
}

#[test]
fn signed_cookie_round_trip() {
    let p = CookieSessionProvider::from_slice(b"secret");
    let mut s = CookieSession::new();
    s.set("count", Value::from(7));
    let set_cookie = p.save_session(&s);
    let value = cookie_value(&set_cookie);
    let parts: Vec<&str> = value.split('.').collect();
    assert_eq!(parts.len(), 2);
    assert_eq!(parts[0], "eyJjb3VudCI6N30");
    let opened = p.open_session(&parse_cookie(&format!("signed_session={}", value))).unwrap();
    assert_eq!(opened.get("count"), Some(Value::from(7)));
}

#[test]
fn signed_cookie_absent_gives_fresh_session() {
    let p = CookieSessionProvider::from_slice(b"secret");
    let s = p.open_session(&parse_cookie("")).unwrap();
    assert_eq!(s.value().len(), 0);
}

#[test]
fn signed_cookie_tampered_is_refused() {
    let p = CookieSessionProvider::from_slice(b"secret");
    let mut s = CookieSession::new();
    s.set("admin", Value::from(false));
    let set_cookie = p.save_session(&s);
    let value = cookie_value(&set_cookie).to_string();
    let (payload, _) = value.split_once('.').unwrap();
    let other = CookieSessionProvider::from_slice(b"other key");
    let forged = cookie_value(&other.save_session(&s)).to_string();
    let (_, wrong_sig) = forged.split_once('.').unwrap();
    let tampered = format!("signed_session={}.{}", payload, wrong_sig);
    assert_eq!(p.open_session(&parse_cookie(&tampered)).err(), Some(SessionError::TamperDetected));

    let mut s2 = CookieSession::new();
    s2.set("admin", Value::from(true));
    let v2 = cookie_value(&p.save_session(&s2)).to_string();
    let (payload2, _) = v2.split_once('.').unwrap();
    let (_, sig1) = value.split_once('.').unwrap();
    let swapped = format!("signed_session={}.{}", payload2, sig1);
    assert_eq!(p.open_session(&parse_cookie(&swapped)).err(), Some(SessionError::TamperDetected));
}

#[test]
fn signed_cookie_malformed_is_refused() {
    let p = CookieSessionProvider::from_slice(b"secret");
    for bad in ["signed_session=abc", "signed_session=a.b.c", "signed_session=!!.AAAA", "signed_session=_w.AAAA"] {
        assert_eq!(p.open_session(&parse_cookie(bad)).err(), Some(SessionError::MalformedCookie), "{}", bad);
    }
}

#[test]
fn signed_cookie_holding_no_object_is_corrupt() {
    let key = b"secret";
    let p = CookieSessionProvider::from_slice(key);
    let payload = "WzFd"; // "[1]"
    let sig = get_signature(key, "[1]");
    let cookie = format!("signed_session={}.{}", payload, base64_url(&sig));
    assert_eq!(p.open_session(&parse_cookie(&cookie)).err(), Some(SessionError::CorruptDocument));
}

fn base64_url(b: &[u8]) -> String {
    base64::Engine::encode(&base64::engine::general_purpose::URL_SAFE_NO_PAD, b)
}

#[test]
fn provider_kinds_do_not_mix() {
    let redis = SessionProvider::Redis(RedisSessionProvider::new());
    let cookie = SessionProvider::Cookie(CookieSessionProvider::from_slice(b"k"));
    let cs = Session::Cookie(CookieSession::new());
    assert_eq!(redis.save_session(&cs).err(), Some(SessionError::WrongProvider));
    assert_eq!(cookie.finish_open("x", None).err(), Some(SessionError::WrongProvider));
    let step = cookie.save_session(&cs).unwrap();
    assert!(step.store.is_none());
    assert!(step.set_cookie.starts_with("signed_session="));
}

#[test]
fn session_middleware_without_provider_does_nothing() {
    let m = SessionMiddleware;
    assert!(matches!(m.pre_process(None, Some("session_id=1")), Ok(None)));
    assert!(matches!(m.post_process(None, None), Ok(None)));
}

#[test]
fn session_middleware_without_cookie_header_gives_fresh_session() {
    let m = SessionMiddleware;
    for p in [
        SessionProvider::Redis(RedisSessionProvider::new()),
        SessionProvider::Cookie(CookieSessionProvider::from_slice(b"k")),
    ] {
        match m.pre_process(Some(&p), None) {
            Ok(Some(OpenStep::Ready(s))) => assert_eq!(s.value().len(), 0),
            _ => panic!("expected a fresh session"),
        }
    }
}

#[test]
fn session_error_messages() {
    assert_eq!(SessionError::NotFound.message(), "Can't find this session");
    assert_eq!(SessionError::TamperDetected.message(), "Signature is invalid");
}

#[test]
fn signature_is_32_bytes() {
    assert_eq!(get_signature(b"", "").len(), 32);
    assert_eq!(get_signature(b"a much longer key than the block size of sha-256, which is sixty-four bytes", "x").len(), 32);
}

#[test]
fn signed_cookie_changed_payload_is_refused() {
    let p = CookieSessionProvider::from_slice(b"secret");
    let mut s = CookieSession::new();
    s.set("role", Value::from("user"));
    let genuine = cookie_value(&p.save_session(&s)).to_string();
    let (_, sig) = genuine.split_once('.').unwrap();
    let mut s2 = CookieSession::new();
    s2.set("role", Value::from("admin"));
    let other = cookie_value(&p.save_session(&s2)).to_string();
    let (payload2, _) = other.split_once('.').unwrap();
    let forged = format!("signed_session={}.{}", payload2, sig);
    assert_eq!(p.open_session(&parse_cookie(&forged)).err(), Some(SessionError::TamperDetected));
    let reopened = p.open_session(&parse_cookie(&format!("signed_session={}", genuine))).unwrap();
    assert_eq!(reopened.get("role"), Some(Value::from("user")));
}

#[test]
fn deeply_nested_document_does_not_read_back() {
    let mut v = Value::from(1);
    for _ in 0..200 {
        v = Value::Array(vec![v]);
    }
    let mut d = Document::new();
    d.set("deep", v);
    let text = d.to_json();
    assert!(text.starts_with("{\"deep\":[[["));
    assert!(Document::from_json(&text).is_none());
}

#[test]
fn wrong_provider_message() {
    assert_eq!(SessionError::WrongProvider.message(), "downcast failed");
}

#[test]
fn new_session_id_is_a_v4_uuid() {
    let p = RedisSessionProvider::new();
    let a = p.new_session();
    let b = p.new_session();
    let id: Vec<char> = a.sid().chars().collect();
    assert_eq!(id.len(), 36);
    for (i, c) in id.iter().enumerate() {
        if [8, 13, 18, 23].contains(&i) {
            assert_eq!(*c, '-');
        } else {
            assert!(c.is_ascii_hexdigit() && !c.is_ascii_uppercase());
        }
    }
    assert_eq!(id[14], '4');
    assert!(['8', '9', 'a', 'b'].contains(&id[19]));
    assert_ne!(a.sid(), b.sid());
}
