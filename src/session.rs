use crate::document::{json_document, json_text, Document};
use crate::utils::CookieMap;
use hmac::Mac;
use vstd::prelude::*;
use vstd::utf8::{decode_utf8, encode_utf8, valid_utf8};

verus! {

#[verifier::external_type_specification]
#[verifier::external_body]
pub struct ExDecodeError(base64::DecodeError);

#[verifier::external_type_specification]
#[verifier::external_body]
pub struct ExFromHexError(hex::FromHexError);

/// Why a session could not be opened or saved.
#[derive(Debug, Clone, Copy, PartialEq, Eq, Structural)]
pub enum SessionError {
    /// The remote store holds no session under the id that the client sent.
    NotFound,
    /// The signed-session cookie is not two base64 parts around a `.`, or its
    /// payload is not UTF-8.
    MalformedCookie,
    /// The signature of the signed-session cookie does not match its payload.
    TamperDetected,
    /// The stored or signed text is not a JSON object.
    CorruptDocument,
    /// The session was handed to a provider of another kind.
    WrongProvider,
    /// A key given in hexadecimal is not hexadecimal.
    InvalidKey,
}

/// The description of each error.
pub open spec fn error_text(e: SessionError) -> Seq<char> {
    match e {
        SessionError::NotFound => "Can't find this session"@,
        SessionError::MalformedCookie => "Signed session format is invalid"@,
        SessionError::TamperDetected => "Signature is invalid"@,
        SessionError::CorruptDocument => "Session document is not a JSON object"@,
        SessionError::WrongProvider => "downcast failed"@,
        SessionError::InvalidKey => "Key is not hexadecimal"@,
    }
}

impl SessionError {
    /// A description of the error, for the error response.
    pub fn message(&self) -> (r: String)
        ensures
            r@ == error_text(*self),
    {
        match self {
            SessionError::NotFound => String::from_str("Can't find this session"),
            SessionError::MalformedCookie => String::from_str("Signed session format is invalid"),
            SessionError::TamperDetected => String::from_str("Signature is invalid"),
            SessionError::CorruptDocument => String::from_str("Session document is not a JSON object"),
            SessionError::WrongProvider => String::from_str("downcast failed"),
            SessionError::InvalidKey => String::from_str("Key is not hexadecimal"),
        }
    }
}

/// No character of `s` is a `.`.
pub open spec fn no_dot(s: Seq<char>) -> bool {
    forall|i: int| 0 <= i < s.len() ==> s[i] != '.'
}

/// HMAC-SHA256 of a message under a key.
pub uninterp spec fn hmac_sha256(key: Seq<u8>, msg: Seq<u8>) -> Seq<u8>;

/// The URL-safe base64 text of bytes, without padding.
pub uninterp spec fn base64url_encode(bytes: Seq<u8>) -> Seq<char>;

/// The bytes that URL-safe base64 text without padding stands for; nothing
/// where the text is not such base64.
pub uninterp spec fn base64url_decode(text: Seq<char>) -> Option<Seq<u8>>;

/// Relies on `hmac::Hmac::<sha2::Sha256>`: keyed with `key` (HMAC takes a key
/// of any length, so `new_from_slice` does not fail), fed `msg`, finalized;
/// the tag has SHA-256's output size, 32 bytes.
#[verifier::external_body]
fn hmac_digest(key: &[u8], msg: &[u8]) -> (r: Vec<u8>)
    ensures
        r@ == hmac_sha256(key@, msg@),
        r@.len() == 32,
{
    let mut mac = <hmac::Hmac<sha2::Sha256> as Mac>::new_from_slice(key).expect("HMAC takes any key length");
    mac.update(msg);
    mac.finalize().into_bytes().to_vec()
}

/// Relies on `base64::engine::general_purpose::URL_SAFE_NO_PAD` to encode:
/// the text decodes back to the bytes, and its alphabet (`A`-`Z`, `a`-`z`,
/// `0`-`9`, `-`, `_`, no padding) has no `.`.
#[verifier::external_body]
fn base64_encode(bytes: &[u8]) -> (r: String)
    ensures
        r@ == base64url_encode(bytes@),
        base64url_decode(r@) == Some(bytes@),
        no_dot(r@),
{
    base64::Engine::encode(&base64::engine::general_purpose::URL_SAFE_NO_PAD, bytes)
}

/// Relies on `base64::engine::general_purpose::URL_SAFE_NO_PAD` to decode.
/// Its decoding is canonical: padding is refused and the unused low bits of
/// the last symbol must be zero (`decode_allow_trailing_bits` is off), so a
/// text that decodes is the encoding of what it decodes to.
#[verifier::external_body]
fn base64_decode(text: &str) -> (r: Result<Vec<u8>, base64::DecodeError>)
    ensures
        match r {
            Ok(b) => base64url_decode(text@) == Some(b@) && base64url_encode(b@) == text@,
            Err(_) => base64url_decode(text@) is None,
        },
{
    base64::Engine::decode(&base64::engine::general_purpose::URL_SAFE_NO_PAD, text.as_bytes())
}

/// Relies on `String::from_utf8`: it accepts exactly the valid UTF-8 byte
/// sequences and keeps their characters.
#[verifier::external_body]
fn utf8_to_string(bytes: Vec<u8>) -> (r: Option<String>)
    ensures
        r is Some <==> valid_utf8(bytes@),
        r matches Some(s) ==> s@ == decode_utf8(bytes@),
{
    String::from_utf8(bytes).ok()
}

/// The value of a hexadecimal digit, either case.
pub open spec fn hex_digit(c: char) -> Option<int> {
    if '0' <= c && c <= '9' {
        Some(c as int - '0' as int)
    } else if 'a' <= c && c <= 'f' {
        Some(c as int - 'a' as int + 10)
    } else if 'A' <= c && c <= 'F' {
        Some(c as int - 'A' as int + 10)
    } else {
        None
    }
}

/// The bytes that a hexadecimal text stands for, two digits a byte, high digit
/// first; nothing where the length is odd or a character is not a digit.
pub open spec fn hex_bytes(s: Seq<char>) -> Option<Seq<u8>> {
    if s.len() % 2 == 0 && forall|i: int| 0 <= i < s.len() ==> (#[trigger] hex_digit(s[i])) is Some {
        Some(
            Seq::new(
                (s.len() / 2) as nat,
                |i: int| (16 * hex_digit(s[2 * i])->0 + hex_digit(s[2 * i + 1])->0) as u8,
            ),
        )
    } else {
        None
    }
}

/// Relies on `hex::decode`: an odd length or a character that is not a hex
/// digit (either case) is an error; else each pair of digits is a byte.
#[verifier::external_body]
fn hex_decode(text: &str) -> (r: Result<Vec<u8>, hex::FromHexError>)
    ensures
        match r {
            Ok(b) => hex_bytes(text@) == Some(b@),
            Err(_) => hex_bytes(text@) is None,
        },
{
    hex::decode(text)
}

/// A lowercase hex digit.
pub open spec fn lower_hex(c: char) -> bool {
    ('0' <= c && c <= '9') || ('a' <= c && c <= 'f')
}

/// The hyphenated lowercase text of a random (version 4, RFC 4122 variant)
/// UUID: 36 characters, `-` at 8, 13, 18 and 23, hex digits elsewhere, the
/// version digit `4` at 14 and one of `8`, `9`, `a`, `b` at 19.
pub open spec fn uuid_v4_text(s: Seq<char>) -> bool {
    &&& s.len() == 36
    &&& forall|i: int|
        0 <= i < 36 ==> if i == 8 || i == 13 || i == 18 || i == 23 {
            s[i] == '-'
        } else {
            lower_hex(#[trigger] s[i])
        }
    &&& s[14] == '4'
    &&& (s[19] == '8' || s[19] == '9' || s[19] == 'a' || s[19] == 'b')
}

/// Relies on `uuid::Uuid::new_v4` and its `Display`: random bits with the
/// version and variant bits set, written hyphenated in lowercase hex.
#[verifier::external_body]
fn random_session_id() -> (r: String)
    ensures
        uuid_v4_text(r@),
{
    uuid::Uuid::new_v4().to_string()
}

/// Relies on `cookie::Cookie::new` and its `Display`: a cookie without
/// attributes is written `name=value`, with nothing encoded.
#[verifier::external_body]
fn set_cookie_value(name: &str, value: &str) -> (r: String)
    ensures
        r@ == name@ + seq!['='] + value@,
{
    cookie::Cookie::new(name, value).to_string()
}

/// The parts joined with `:` between them.
pub open spec fn joined(parts: Seq<Seq<char>>) -> Seq<char>
    decreases parts.len(),
{
    if parts.len() == 0 {
        Seq::empty()
    } else if parts.len() == 1 {
        parts[0]
    } else {
        joined(parts.drop_last()) + seq![':'] + parts.last()
    }
}

/// The key under which the remote store keeps a session: `session:<id>`.
pub open spec fn session_key(sid: Seq<char>) -> Seq<char> {
    "session"@ + seq![':'] + sid
}

/// The parts of a store key, joined with `:`.
pub fn build_rkey(v: &Vec<&str>) -> (r: String)
    ensures
        r@ == joined(v@.map_values(|p: &str| p@)),
{
    let ghost parts = v@.map_values(|p: &str| p@);
    let mut r = String::new();
    let mut i: usize = 0;
    while i < v.len()
        invariant
            i <= v.len(),
            parts == v@.map_values(|p: &str| p@),
            r@ == joined(parts.take(i as int)),
        decreases v.len() - i,
    {
        assert(parts.take(i as int + 1).drop_last() =~= parts.take(i as int));
        if i > 0 {
            r.append(":");
            proof {
                reveal_strlit(":");
            }
        } else {
            assert(parts.take(1) =~= seq![parts[0]]);
            assert(r@ =~= Seq::<char>::empty());
        }
        r.append(v[i]);
        i = i + 1;
    }
    assert(parts.take(v.len() as int) =~= parts);
    r
}

/// The store key of a session id.
pub fn build_session_key(session_id: &str) -> (r: String)
    ensures
        r@ == session_key(session_id@),
{
    let parts: Vec<&str> = vec!["session", session_id];
    let r = build_rkey(&parts);
    proof {
        let ps = parts@.map_values(|p: &str| p@);
        assert(ps =~= seq!["session"@, session_id@]);
        assert(ps.drop_last() =~= seq!["session"@]);
        assert(joined(ps.drop_last()) == "session"@);
        assert(joined(ps) == joined(ps.drop_last()) + seq![':'] + session_id@);
    }
    r
}

/// A session whose document the remote store keeps under its id.
pub struct RedisSession {
    inner: Document,
    sid: String,
}

impl RedisSession {
    pub closed spec fn doc(&self) -> Map<Seq<char>, serde_json::Value> {
        self.inner@
    }

    pub closed spec fn id(&self) -> Seq<char> {
        self.sid@
    }


    /// The value of key `key` of the document.
    pub fn get(&self, key: &str) -> (r: Option<serde_json::Value>)
        ensures
            r == self.doc().get(key@),
    {
        let r = self.inner.get(key);
        proof {
            if self.doc().contains_key(key@) {
                assert(self.doc().get(key@) == Some(self.doc()[key@]));
            }
        }
        r
    }

    /// Gives key `key` of the document the value `value`.
    pub fn set(&mut self, key: &str, value: serde_json::Value)
        ensures
            final(self).doc() == old(self).doc().insert(key@, value),
            final(self).id() == old(self).id(),
    {
        self.inner.set(key, value);
    }

    pub fn value(&self) -> (r: &Document)
        ensures
            r@ == self.doc(),
    {
        &self.inner
    }

    pub fn sid(&self) -> (r: &str)
        ensures
            r@ == self.id(),
    {
        self.sid.as_str()
    }
}

/// A session whose document travels in a signed cookie.
pub struct CookieSession {
    inner: Document,
}

impl CookieSession {
    pub closed spec fn doc(&self) -> Map<Seq<char>, serde_json::Value> {
        self.inner@
    }


    /// A session with an empty document.
    pub fn new() -> (r: CookieSession)
        ensures
            r.doc() == Map::<Seq<char>, serde_json::Value>::empty(),
    {
        CookieSession { inner: Document::new() }
    }

    /// A session holding `value`.
    pub fn from_value(value: Document) -> (r: CookieSession)
        ensures
            r.doc() == value@,
    {
        CookieSession { inner: value }
    }

    pub fn get(&self, key: &str) -> (r: Option<serde_json::Value>)
        ensures
            r == self.doc().get(key@),
    {
        let r = self.inner.get(key);
        proof {
            if self.doc().contains_key(key@) {
                assert(self.doc().get(key@) == Some(self.doc()[key@]));
            }
        }
        r
    }

    pub fn set(&mut self, key: &str, value: serde_json::Value)
        ensures
            final(self).doc() == old(self).doc().insert(key@, value),
    {
        self.inner.set(key, value);
    }

    pub fn value(&self) -> (r: &Document)
        ensures
            r@ == self.doc(),
    {
        &self.inner
    }
}

pub open spec fn opt_string_view(o: Option<String>) -> Option<Seq<char>> {
    match o {
        Some(t) => Some(t@),
        None => None,
    }
}

/// The document that the remote store's answer for a session id yields.
pub open spec fn stored_document(stored: Option<Seq<char>>) -> Result<
    Map<Seq<char>, serde_json::Value>,
    SessionError,
> {
    match stored {
        None => Err(SessionError::NotFound),
        Some(t) => match json_document(t) {
            Some(d) => Ok(d),
            None => Err(SessionError::CorruptDocument),
        },
    }
}

/// What a provider asks of the transport to open a session: nothing, the
/// session being at hand; or the value that the remote store keeps under
/// `key`, for the session `sid`.
pub enum OpenStep {
    Ready(Session),
    Fetch { sid: String, key: String },
}

/// What a provider asks of the transport to save a session: a value to
/// write under a key of the remote store, where there is a store, and a
/// `Set-Cookie` header value for the response.
pub struct SaveStep {
    pub store: Option<(String, String)>,
    pub set_cookie: String,
}

/// Sessions kept in a remote key/value store, under `session:<id>`, the id
/// travelling in the `session_id` cookie.
pub struct RedisSessionProvider;

impl RedisSessionProvider {
    pub fn new() -> (r: RedisSessionProvider) {
        RedisSessionProvider
    }

    /// A session with a fresh random id and an empty document. Nothing is
    /// written to the store here: the session middleware's post-phase saves
    /// the session (`save_session`), which writes its document under its key
    /// before the response leaves.
    pub fn new_session(&self) -> (r: RedisSession)
        ensures
            r.doc() == Map::<Seq<char>, serde_json::Value>::empty(),
            uuid_v4_text(r.id()),
    {
        RedisSession { inner: Document::new(), sid: random_session_id() }
    }

    /// Without a `session_id` cookie, a new session; with one, the store key
    /// to fetch.
    pub fn open_session(&self, cookie_map: &CookieMap) -> (r: OpenStep)
        requires
            cookie_map.wf(),
        ensures
            cookie_map@.contains_key("session_id"@) ==> (r matches OpenStep::Fetch { sid, key }
                && sid@ == cookie_map@["session_id"@] && key@ == session_key(sid@)),
            !cookie_map@.contains_key("session_id"@) ==> (r matches OpenStep::Ready(
                Session::Redis(s),
            ) && uuid_v4_text(s.id()) && s.doc() == Map::<Seq<char>, serde_json::Value>::empty()),
    {
        match cookie_map.get("session_id") {
            Some(sid) => {
                let key = build_session_key(sid.as_str());
                OpenStep::Fetch { sid: sid.clone(), key }
            },
            None => OpenStep::Ready(Session::Redis(self.new_session())),
        }
    }

    /// The session `sid`, from what the store holds under its key: it fails
    /// where the store holds nothing or no JSON object.
    pub fn finish_open(&self, sid: &str, stored: Option<String>) -> (r: Result<RedisSession, SessionError>)
        ensures
            match r {
                Ok(s) => s.id() == sid@ && stored_document(opt_string_view(stored))
                    == Ok::<Map<Seq<char>, serde_json::Value>, SessionError>(s.doc()),
                Err(e) => stored_document(opt_string_view(stored)) == Err::<
                    Map<Seq<char>, serde_json::Value>,
                    SessionError,
                >(e),
            },
    {
        match stored {
            None => Err(SessionError::NotFound),
            Some(text) => match Document::from_json(text.as_str()) {
                Some(inner) => Ok(RedisSession { inner, sid: sid.to_owned() }),
                None => Err(SessionError::CorruptDocument),
            },
        }
    }

    /// The write that persists the session, its document's JSON text under
    /// its key, and the cookie that carries its id.
    pub fn save_session(&self, session: &RedisSession) -> (r: SaveStep)
        ensures
            (r.store matches Some((k, t)) && k@ == session_key(session.id()) && t@ == json_text(
                session.doc(),
            )),
            r.set_cookie@ == "session_id"@ + seq!['='] + session.id(),
    {
        let key = build_session_key(session.sid.as_str());
        let text = session.inner.to_json();
        let set_cookie = set_cookie_value("session_id", session.sid.as_str());
        SaveStep { store: Some((key, text)), set_cookie }
    }
}

/// The two parts of `s` around its one `c`; nothing where `s` holds no `c`
/// or more than one.
pub open spec fn split_once(s: Seq<char>, c: char) -> Option<(Seq<char>, Seq<char>)> {
    if exists|i: int| unique_at(s, c, i) {
        let i = choose|i: int| unique_at(s, c, i);
        Some((s.take(i), s.skip(i + 1)))
    } else {
        None
    }
}

pub open spec fn unique_at(s: Seq<char>, c: char, i: int) -> bool {
    &&& 0 <= i < s.len()
    &&& s[i] == c
    &&& forall|j: int| 0 <= j < s.len() && s[j] == c ==> j == i
}

fn split_once_exec<'a>(s: &'a str, c: char) -> (r: Option<(&'a str, &'a str)>)
    ensures
        match r {
            Some((a, b)) => split_once(s@, c) == Some((a@, b@)),
            None => split_once(s@, c) is None,
        },
{
    let n = s.unicode_len();
    let mut first: Option<usize> = None;
    let mut i: usize = 0;
    while i < n
        invariant
            n == s@.len(),
            i <= n,
            match first {
                None => forall|j: int| 0 <= j < i ==> s@[j] != c,
                Some(p) => p < i && s@[p as int] == c && forall|j: int|
                    0 <= j < i && s@[j] == c ==> j == p,
            },
        decreases n - i,
    {
        if s.get_char(i) == c {
            match first {
                None => {
                    first = Some(i);
                },
                Some(p) => {
                    assert(!unique_at(s@, c, p as int));
                    assert forall|k: int| !unique_at(s@, c, k) by {
                        if unique_at(s@, c, k) {
                            assert(p == k);
                        }
                    }
                    return None;
                },
            }
        }
        i = i + 1;
    }
    match first {
        None => {
            assert forall|k: int| !unique_at(s@, c, k) by {}
            None
        },
        Some(p) => {
            assert(unique_at(s@, c, p as int));
            let a = s.substring_char(0, p);
            let b = s.substring_char(p + 1, n);
            proof {
                let k = choose|k: int| unique_at(s@, c, k);
                assert(k == p);
                assert(a@ =~= s@.take(p as int));
                assert(b@ =~= s@.skip(p + 1));
            }
            Some((a, b))
        },
    }
}

/// What a signed-session cookie value vouches for: the payload bytes, where
/// the value is `<base64 payload>.<base64 signature>`, the payload is UTF-8
/// and the signature is the HMAC of the payload under `key`.
pub open spec fn signed_payload(key: Seq<u8>, value: Seq<char>) -> Result<Seq<u8>, SessionError> {
    match split_once(value, '.') {
        None => Err(SessionError::MalformedCookie),
        Some((p, g)) => match base64url_decode(p) {
            None => Err(SessionError::MalformedCookie),
            Some(pb) => if !valid_utf8(pb) {
                Err(SessionError::MalformedCookie)
            } else {
                match base64url_decode(g) {
                    None => Err(SessionError::MalformedCookie),
                    Some(gb) => if gb == hmac_sha256(key, pb) {
                        Ok(pb)
                    } else {
                        Err(SessionError::TamperDetected)
                    },
                }
            },
        },
    }
}

/// The document that a request's cookies give under a signing key: an empty
/// one without a `signed_session` cookie; else the JSON object that the
/// cookie's vouched-for payload holds.
pub open spec fn cookie_document(key: Seq<u8>, cookies: Map<Seq<char>, Seq<char>>) -> Result<
    Map<Seq<char>, serde_json::Value>,
    SessionError,
> {
    if !cookies.contains_key("signed_session"@) {
        Ok(Map::empty())
    } else {
        match signed_payload(key, cookies["signed_session"@]) {
            Err(e) => Err(e),
            Ok(pb) => match json_document(decode_utf8(pb)) {
                Some(d) => Ok(d),
                None => Err(SessionError::CorruptDocument),
            },
        }
    }
}

/// The value of the signed-session cookie for a document's text.
pub open spec fn signed_value(key: Seq<u8>, text: Seq<char>) -> Seq<char> {
    base64url_encode(encode_utf8(text)) + seq!['.'] + base64url_encode(
        hmac_sha256(key, encode_utf8(text)),
    )
}

/// `p` and `g` are the parts of a signed-session cookie value for the
/// payload bytes `pb`: the base64 of the payload and of its HMAC under `key`,
/// each decoding back to what it encodes, neither holding a `.`.
pub open spec fn genuine_parts(key: Seq<u8>, p: Seq<char>, g: Seq<char>, pb: Seq<u8>) -> bool {
    &&& p == base64url_encode(pb)
    &&& g == base64url_encode(hmac_sha256(key, pb))
    &&& base64url_decode(p) == Some(pb)
    &&& base64url_decode(g) == Some(hmac_sha256(key, pb))
    &&& no_dot(p)
    &&& no_dot(g)
}

/// A cookie value made of genuine parts around one `.`.
pub open spec fn well_signed(key: Seq<u8>, value: Seq<char>) -> bool {
    exists|p: Seq<char>, g: Seq<char>, pb: Seq<u8>|
        value == p + seq!['.'] + g && #[trigger] genuine_parts(key, p, g, pb)
}

/// Two texts joined by one `.`, the first part holding none, split back the
/// same way.
pub proof fn lemma_join_at_dot(a: Seq<char>, b: Seq<char>, c: Seq<char>, d: Seq<char>)
    requires
        no_dot(a),
        no_dot(c),
        a + seq!['.'] + b == c + seq!['.'] + d,
    ensures
        a == c,
        b == d,
{
    let s = a + seq!['.'] + b;
    if a.len() < c.len() {
        assert(s[a.len() as int] == '.');
        assert(s[a.len() as int] == c[a.len() as int]);
    } else if c.len() < a.len() {
        assert(s[c.len() as int] == '.');
        assert(s[c.len() as int] == a[c.len() as int]);
    }
    assert(a =~= s.take(a.len() as int));
    assert(c =~= s.take(c.len() as int));
    assert(b =~= s.skip(a.len() as int + 1));
    assert(d =~= s.skip(c.len() as int + 1));
}

/// A text made of two parts without `.` around one `.` splits into them.
pub proof fn lemma_split_joined(a: Seq<char>, b: Seq<char>)
    requires
        no_dot(a),
        no_dot(b),
    ensures
        split_once(a + seq!['.'] + b, '.') == Some((a, b)),
{
    let s = a + seq!['.'] + b;
    let i = a.len() as int;
    assert forall|j: int| 0 <= j < s.len() && s[j] == '.' implies j == i by {
        if j < i {
            assert(s[j] == a[j]);
        } else if j > i {
            assert(s[j] == b[j - i - 1]);
        }
    }
    assert(unique_at(s, '.', i));
    let k = choose|k: int| unique_at(s, '.', k);
    assert(k == i);
    assert(s.take(i) =~= a);
    assert(s.skip(i + 1) =~= b);
}

/// What a text splits into at its one `.`.
pub proof fn lemma_split_parts(s: Seq<char>)
    requires
        split_once(s, '.') is Some,
    ensures
        s == split_once(s, '.')->Some_0.0 + seq!['.'] + split_once(s, '.')->Some_0.1,
        no_dot(split_once(s, '.')->Some_0.0),
        no_dot(split_once(s, '.')->Some_0.1),
{
    let i = choose|i: int| unique_at(s, '.', i);
    let a = s.take(i);
    let b = s.skip(i + 1);
    assert(s =~= a + seq!['.'] + b);
    assert forall|j: int| 0 <= j < a.len() implies a[j] != '.' by {
        assert(a[j] == s[j]);
    }
    assert forall|j: int| 0 <= j < b.len() implies b[j] != '.' by {
        assert(b[j] == s[j + i + 1]);
    }
}

/// Signed-cookie round trip: a cookie that carries the value saved for a
/// document, with genuine parts, opens to that document, wherever serde_json
/// reads the document's text back to it.
pub proof fn lemma_signed_cookie_round_trip(
    key: Seq<u8>,
    doc: Map<Seq<char>, serde_json::Value>,
    cookies: Map<Seq<char>, Seq<char>>,
)
    requires
        genuine_parts(
            key,
            base64url_encode(encode_utf8(json_text(doc))),
            base64url_encode(hmac_sha256(key, encode_utf8(json_text(doc)))),
            encode_utf8(json_text(doc)),
        ),
        cookies.contains_key("signed_session"@),
        cookies["signed_session"@] == signed_value(key, json_text(doc)),
        json_document(json_text(doc)) == Some(doc),
    ensures
        cookie_document(key, cookies) == Ok::<Map<Seq<char>, serde_json::Value>, SessionError>(doc),
{
    let bytes = encode_utf8(json_text(doc));
    lemma_split_joined(base64url_encode(bytes), base64url_encode(hmac_sha256(key, bytes)));
    vstd::utf8::encode_utf8_valid_utf8(json_text(doc));
    vstd::utf8::encode_utf8_decode_utf8(json_text(doc));
}

/// A saved cookie whose signature part was changed never opens.
pub proof fn lemma_changed_signature_refused(
    key: Seq<u8>,
    p: Seq<char>,
    g: Seq<char>,
    pb: Seq<u8>,
    g_new: Seq<char>,
)
    requires
        genuine_parts(key, p, g, pb),
        g_new != g,
    ensures
        !well_signed(key, p + seq!['.'] + g_new),
{
    if well_signed(key, p + seq!['.'] + g_new) {
        let (p_w, g_w, pb_w) = choose|p_w: Seq<char>, g_w: Seq<char>, pb_w: Seq<u8>|
            p + seq!['.'] + g_new == p_w + seq!['.'] + g_w && #[trigger] genuine_parts(key, p_w, g_w, pb_w);
        lemma_join_at_dot(p, g_new, p_w, g_w);
    }
}

/// A saved cookie whose payload part was changed (to one without `.`) never
/// opens, unless two payloads share an HMAC under the key.
pub proof fn lemma_changed_payload_refused(
    key: Seq<u8>,
    p: Seq<char>,
    g: Seq<char>,
    pb: Seq<u8>,
    p_new: Seq<char>,
)
    requires
        genuine_parts(key, p, g, pb),
        p_new != p,
        no_dot(p_new),
        forall|b: Seq<u8>| b != pb ==> hmac_sha256(key, b) != hmac_sha256(key, pb),
    ensures
        !well_signed(key, p_new + seq!['.'] + g),
{
    if well_signed(key, p_new + seq!['.'] + g) {
        let (p_w, g_w, pb_w) = choose|p_w: Seq<char>, g_w: Seq<char>, pb_w: Seq<u8>|
            p_new + seq!['.'] + g == p_w + seq!['.'] + g_w && #[trigger] genuine_parts(key, p_w, g_w, pb_w);
        lemma_join_at_dot(p_new, g, p_w, g_w);
        assert(pb_w != pb);
    }
}

/// The HMAC-SHA256 signature of a session text (of its UTF-8 bytes).
pub fn get_signature(key: &[u8], session: &str) -> (r: Vec<u8>)
    ensures
        r@ == hmac_sha256(key@, encode_utf8(session@)),
        r@.len() == 32,
{
    hmac_digest(key, session.as_bytes())
}

/// Sessions kept entirely client-side, in a cookie that holds the document
/// and its HMAC-SHA256 signature under a server-held key.
pub struct CookieSessionProvider {
    key: Vec<u8>,
}

impl CookieSessionProvider {
    pub closed spec fn key(&self) -> Seq<u8> {
        self.key@
    }

    pub fn new(key: Vec<u8>) -> (r: CookieSessionProvider)
        ensures
            r.key() == key@,
    {
        CookieSessionProvider { key }
    }

    /// A provider signing with the given key bytes.
    pub fn from_slice(slice: &[u8]) -> (r: CookieSessionProvider)
        ensures
            r.key() == slice@,
    {
        let mut key: Vec<u8> = Vec::new();
        let mut i: usize = 0;
        while i < slice.len()
            invariant
                i <= slice@.len(),
                key@ == slice@.take(i as int),
            decreases slice@.len() - i,
        {
            key.push(slice[i]);
            i = i + 1;
            assert(key@ =~= slice@.take(i as int));
        }
        assert(slice@.take(slice@.len() as int) =~= slice@);
        CookieSessionProvider { key }
    }

    /// A provider signing with a key given in hexadecimal.
    pub fn from_hex(hex: &str) -> (r: Result<CookieSessionProvider, SessionError>)
        ensures
            match hex_bytes(hex@) {
                Some(b) => (r matches Ok(p) && p.key() == b),
                None => r == Err::<CookieSessionProvider, SessionError>(SessionError::InvalidKey),
            },
    {
        match hex_decode(hex) {
            Ok(b) => Ok(CookieSessionProvider { key: b }),
            Err(_) => Err(SessionError::InvalidKey),
        }
    }

    pub fn cookie_name(&self) -> (r: &'static str)
        ensures
            r@ == "signed_session"@,
    {
        "signed_session"
    }

    pub fn separator(&self) -> (r: char)
        ensures
            r == '.',
    {
        '.'
    }

    pub fn new_session(&self) -> (r: CookieSession)
        ensures
            r.doc() == Map::<Seq<char>, serde_json::Value>::empty(),
    {
        CookieSession::new()
    }

    /// The session that the request's cookies carry; a new one where they
    /// carry none. A cookie that is present but malformed, tampered with or
    /// holding no JSON object is an error.
    pub fn open_session(&self, cookie_map: &CookieMap) -> (r: Result<CookieSession, SessionError>)
        requires
            cookie_map.wf(),
        ensures
            r is Ok && cookie_map@.contains_key("signed_session"@) ==> well_signed(
                self.key(),
                cookie_map@["signed_session"@],
            ),
            match r {
                Ok(s) => cookie_document(self.key(), cookie_map@) == Ok::<
                    Map<Seq<char>, serde_json::Value>,
                    SessionError,
                >(s.doc()),
                Err(e) => cookie_document(self.key(), cookie_map@) == Err::<
                    Map<Seq<char>, serde_json::Value>,
                    SessionError,
                >(e),
            },
    {
        let signed = match cookie_map.get(self.cookie_name()) {
            Some(v) => v,
            None => return Ok(self.new_session()),
        };
        let (payload_b64, signature_b64) = match split_once_exec(signed.as_str(), self.separator()) {
            Some(parts) => parts,
            None => return Err(SessionError::MalformedCookie),
        };
        let payload = match base64_decode(payload_b64) {
            Ok(b) => b,
            Err(_) => return Err(SessionError::MalformedCookie),
        };
        let text = match utf8_to_string(payload.clone()) {
            Some(t) => t,
            None => return Err(SessionError::MalformedCookie),
        };
        let signature = match base64_decode(signature_b64) {
            Ok(b) => b,
            Err(_) => return Err(SessionError::MalformedCookie),
        };
        let expected = hmac_digest(self.key.as_slice(), payload.as_slice());
        if !bytes_equal(&signature, &expected) {
            return Err(SessionError::TamperDetected);
        }
        proof {
            lemma_split_parts(signed@);
            assert(genuine_parts(self.key(), payload_b64@, signature_b64@, payload@));
        }
        match Document::from_json(text.as_str()) {
            Some(d) => Ok(CookieSession::from_value(d)),
            None => Err(SessionError::CorruptDocument),
        }
    }

    /// The `Set-Cookie` value that carries the session: its JSON text and the
    /// signature of that text, each in URL-safe base64, joined by `.`.
    pub fn save_session(&self, session: &CookieSession) -> (r: String)
        ensures
            r@ == "signed_session"@ + seq!['='] + signed_value(self.key(), json_text(session.doc())),
            genuine_parts(
                self.key(),
                base64url_encode(encode_utf8(json_text(session.doc()))),
                base64url_encode(hmac_sha256(self.key(), encode_utf8(json_text(session.doc())))),
                encode_utf8(json_text(session.doc())),
            ),
    {
        let text = session.inner.to_json();
        let signature = get_signature(self.key.as_slice(), text.as_str());
        let mut value = base64_encode(text.as_str().as_bytes());
        value.append(".");
        value.append(base64_encode(signature.as_slice()).as_str());
        proof {
            reveal_strlit(".");
        }
        set_cookie_value(self.cookie_name(), value.as_str())
    }
}

fn bytes_equal(a: &Vec<u8>, b: &Vec<u8>) -> (r: bool)
    ensures
        r == (a@ == b@),
{
    if a.len() != b.len() {
        return false;
    }
    let mut i: usize = 0;
    while i < a.len()
        invariant
            a.len() == b.len(),
            i <= a.len(),
            forall|j: int| 0 <= j < i ==> a@[j] == b@[j],
        decreases a.len() - i,
    {
        if a[i] != b[i] {
            return false;
        }
        i = i + 1;
    }
    assert(a@ =~= b@);
    true
}

/// A session of one of the two kinds.
pub enum Session {
    Redis(RedisSession),
    Cookie(CookieSession),
}

impl Session {
    pub open spec fn doc(&self) -> Map<Seq<char>, serde_json::Value> {
        match self {
            Session::Redis(s) => s.doc(),
            Session::Cookie(s) => s.doc(),
        }
    }


    /// The value of key `key` of the document.
    pub fn get(&self, key: &str) -> (r: Option<serde_json::Value>)
        ensures
            r == self.doc().get(key@),
    {
        match self {
            Session::Redis(s) => s.get(key),
            Session::Cookie(s) => s.get(key),
        }
    }

    /// Gives key `key` of the document the value `value`; the session keeps
    /// its kind and its id.
    pub fn set(&mut self, key: &str, value: serde_json::Value)
        ensures
            final(self).doc() == old(self).doc().insert(key@, value),
            (*old(self) is Redis) <==> (*final(self) is Redis),
            *old(self) matches Session::Redis(a) ==> (*final(self) matches Session::Redis(b) && b.id()
                == a.id()),
    {
        match self {
            Session::Redis(s) => s.set(key, value),
            Session::Cookie(s) => s.set(key, value),
        }
    }

    pub fn value(&self) -> (r: &Document)
        ensures
            r@ == self.doc(),
    {
        match self {
            Session::Redis(s) => s.value(),
            Session::Cookie(s) => s.value(),
        }
    }
}

/// The session store that a service is configured with.
pub enum SessionProvider {
    Redis(RedisSessionProvider),
    Cookie(CookieSessionProvider),
}

/// What the signed-cookie provider's opening comes to, as an open step.
pub open spec fn cookie_open_step(
    key: Seq<u8>,
    cookies: Map<Seq<char>, Seq<char>>,
    r: Result<OpenStep, SessionError>,
) -> bool {
    match cookie_document(key, cookies) {
        Ok(d) => r matches Ok(OpenStep::Ready(Session::Cookie(s))) && s.doc() == d,
        Err(e) => r == Err::<OpenStep, SessionError>(e),
    }
}

/// What the remote-store provider's opening comes to, as an open step.
pub open spec fn redis_open_step(cookies: Map<Seq<char>, Seq<char>>, r: OpenStep) -> bool {
    if cookies.contains_key("session_id"@) {
        r matches OpenStep::Fetch { sid, key } && sid@ == cookies["session_id"@] && key@
            == session_key(sid@)
    } else {
        r matches OpenStep::Ready(Session::Redis(s)) && uuid_v4_text(s.id()) && s.doc() == Map::<
            Seq<char>,
            serde_json::Value,
        >::empty()
    }
}

/// What opening a session from a request's cookies comes to, by provider.
pub open spec fn provider_opens(
    p: SessionProvider,
    cookies: Map<Seq<char>, Seq<char>>,
    r: Result<OpenStep, SessionError>,
) -> bool {
    match p {
        SessionProvider::Redis(_) => (r matches Ok(step) && redis_open_step(cookies, step)),
        SessionProvider::Cookie(cp) => cookie_open_step(cp.key(), cookies, r),
    }
}

/// The cookie in which a provider finds its session.
pub open spec fn session_cookie_name(p: SessionProvider) -> Seq<char> {
    match p {
        SessionProvider::Redis(_) => "session_id"@,
        SessionProvider::Cookie(_) => "signed_session"@,
    }
}

/// Where a request carries no cookie of the provider's, opening its session
/// gives a new session with an empty document, and never an error.
pub proof fn lemma_no_cookie_fresh_session(
    p: SessionProvider,
    cookies: Map<Seq<char>, Seq<char>>,
    r: Result<OpenStep, SessionError>,
)
    requires
        provider_opens(p, cookies, r),
        !cookies.contains_key(session_cookie_name(p)),
    ensures
        r matches Ok(OpenStep::Ready(s)) && s.doc() == Map::<
            Seq<char>,
            serde_json::Value,
        >::empty(),
{
}

/// A signed-session cookie whose signature is not the HMAC of its payload
/// under the provider's key never opens: opening fails, as tampering.
pub proof fn lemma_tampered_cookie_refused(
    key: Seq<u8>,
    cookies: Map<Seq<char>, Seq<char>>,
    payload: Seq<char>,
    signature: Seq<char>,
)
    requires
        cookies.contains_key("signed_session"@),
        split_once(cookies["signed_session"@], '.') == Some((payload, signature)),
        base64url_decode(payload) is Some,
        valid_utf8(base64url_decode(payload)->Some_0),
        base64url_decode(signature) is Some,
        base64url_decode(signature)->Some_0 != hmac_sha256(key, base64url_decode(payload)->Some_0),
    ensures
        cookie_document(key, cookies) == Err::<Map<Seq<char>, serde_json::Value>, SessionError>(
            SessionError::TamperDetected,
        ),
{
}

/// Whatever the cookie, a signed-session cookie that opens carries the HMAC
/// of its payload under the provider's key.
pub proof fn lemma_opened_cookie_is_signed(key: Seq<u8>, cookies: Map<Seq<char>, Seq<char>>)
    requires
        cookies.contains_key("signed_session"@),
        cookie_document(key, cookies) is Ok,
    ensures
        split_once(cookies["signed_session"@], '.') is Some,
        base64url_decode(split_once(cookies["signed_session"@], '.')->Some_0.0) is Some,
        base64url_decode(split_once(cookies["signed_session"@], '.')->Some_0.1) == Some(
            hmac_sha256(
                key,
                base64url_decode(split_once(cookies["signed_session"@], '.')->Some_0.0)->Some_0,
            ),
        ),
{
}

/// Round trip through the remote store: the key that a request carrying the
/// session's id cookie fetches is the key that saving the session wrote, and
/// the text written there opens to the session's document, wherever serde_json
/// reads that document's text back to it. (It does not for every document:
/// its reader refuses nesting deeper than it allows, its writer does not.)
pub proof fn lemma_store_round_trip(
    p: RedisSessionProvider,
    s: RedisSession,
    saved: SaveStep,
    cookies: Map<Seq<char>, Seq<char>>,
    fetch: OpenStep,
)
    requires
        SessionProvider::Redis(p).save_session_spec(Session::Redis(s), Ok(saved)),
        cookies.contains_key("session_id"@),
        cookies["session_id"@] == s.id(),
        redis_open_step(cookies, fetch),
        json_document(json_text(s.doc())) == Some(s.doc()),
    ensures
        fetch is Fetch,
        fetch->sid@ == s.id(),
        saved.store is Some,
        fetch->key@ == saved.store->Some_0.0@,
        stored_document(Some(saved.store->Some_0.1@)) == Ok::<
            Map<Seq<char>, serde_json::Value>,
            SessionError,
        >(s.doc()),
{
}

/// What one request sets in a remote-store session is what the next request
/// carrying the session's id cookie reads: where `s2` is `s` with key `k` set
/// to `v`, saving `s2` writes under the key that the next request fetches a
/// text that opens to a document holding `v` under `k` (wherever serde_json
/// reads the document's text back to it).
pub proof fn lemma_set_value_reads_back(
    p: RedisSessionProvider,
    s: RedisSession,
    s2: RedisSession,
    k: Seq<char>,
    v: serde_json::Value,
    saved: SaveStep,
    cookies: Map<Seq<char>, Seq<char>>,
    fetch: OpenStep,
)
    requires
        s2.id() == s.id(),
        s2.doc() == s.doc().insert(k, v),
        SessionProvider::Redis(p).save_session_spec(Session::Redis(s2), Ok(saved)),
        cookies.contains_key("session_id"@),
        cookies["session_id"@] == s.id(),
        redis_open_step(cookies, fetch),
        json_document(json_text(s2.doc())) == Some(s2.doc()),
    ensures
        fetch is Fetch,
        saved.store is Some,
        fetch->key@ == saved.store->Some_0.0@,
        stored_document(Some(saved.store->Some_0.1@)) is Ok,
        stored_document(Some(saved.store->Some_0.1@))->Ok_0.contains_key(k),
        stored_document(Some(saved.store->Some_0.1@))->Ok_0[k] == v,
{
    lemma_store_round_trip(p, s2, saved, cookies, fetch);
}

impl SessionProvider {
    /// What saving a session comes to: the remote-store provider writes the
    /// document's JSON text under the session's key and sets the id cookie; the signed-cookie provider
    /// writes nothing and sets the signed cookie.
    pub open spec fn save_session_spec(self, session: Session, r: Result<SaveStep, SessionError>) -> bool {
        match (self, session) {
            (SessionProvider::Redis(_), Session::Redis(s)) => (r matches Ok(step) && (
            step.store matches Some((k, t)) && k@ == session_key(s.id()) && t@ == json_text(s.doc()))
                && step.set_cookie@ == "session_id"@ + seq!['='] + s.id()),
            (SessionProvider::Cookie(p), Session::Cookie(s)) => (r matches Ok(step)
                && step.store is None && step.set_cookie@ == "signed_session"@ + seq!['=']
                + signed_value(p.key(), json_text(s.doc()))),
            _ => r == Err::<SaveStep, SessionError>(SessionError::WrongProvider),
        }
    }

    /// The first step of opening the session that a request's cookies name.
    pub fn open_session(&self, cookie_map: &CookieMap) -> (r: Result<OpenStep, SessionError>)
        requires
            cookie_map.wf(),
        ensures
            provider_opens(*self, cookie_map@, r),
    {
        match self {
            SessionProvider::Redis(p) => Ok(p.open_session(cookie_map)),
            SessionProvider::Cookie(p) => match p.open_session(cookie_map) {
                Ok(s) => Ok(OpenStep::Ready(Session::Cookie(s))),
                Err(e) => Err(e),
            },
        }
    }

    /// The session `sid`, from what the remote store answered for its key.
    pub fn finish_open(&self, sid: &str, stored: Option<String>) -> (r: Result<Session, SessionError>)
        ensures
            match self {
                SessionProvider::Redis(_) => match r {
                    Ok(s) => (s matches Session::Redis(rs) && rs.id() == sid@
                        && stored_document(opt_string_view(stored)) == Ok::<
                        Map<Seq<char>, serde_json::Value>,
                        SessionError,
                    >(rs.doc())),
                    Err(e) => stored_document(opt_string_view(stored)) == Err::<
                        Map<Seq<char>, serde_json::Value>,
                        SessionError,
                    >(e),
                },
                SessionProvider::Cookie(_) => r == Err::<Session, SessionError>(
                    SessionError::WrongProvider,
                ),
            },
    {
        match self {
            SessionProvider::Redis(p) => match p.finish_open(sid, stored) {
                Ok(s) => Ok(Session::Redis(s)),
                Err(e) => Err(e),
            },
            SessionProvider::Cookie(_) => Err(SessionError::WrongProvider),
        }
    }

    /// What persisting the session takes; a session of the other kind is an
    /// error.
    pub fn save_session(&self, session: &Session) -> (r: Result<SaveStep, SessionError>)
        ensures
            self.save_session_spec(*session, r),
    {
        match (self, session) {
            (SessionProvider::Redis(p), Session::Redis(s)) => Ok(p.save_session(s)),
            (SessionProvider::Cookie(p), Session::Cookie(s)) => Ok(
                SaveStep { store: None, set_cookie: p.save_session(s) },
            ),
            _ => Err(SessionError::WrongProvider),
        }
    }
}

} // verus!
