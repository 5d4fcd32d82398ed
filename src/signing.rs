use vstd::prelude::*;
use vstd::utf8::encode_utf8;
use crate::auth::Key;
use crate::error::{ErrorInfo, CODE_EMPTY_CLIENT_ID};
use crate::outside::{
    base64_of, encode_base64, hmac_sha256, hmac_sha256_of, is_ascii_alphanumeric, now_millis,
    random_alphanumeric,
};

verus! {

/// Length of a generated nonce.
pub const NONCE_LENGTH: usize = 16;

/// The byte `\n` that ends each field of the signed text.
pub const NEWLINE: u8 = 10;

/// The ASCII digits of `n`, most significant first.
pub open spec fn digits(n: nat) -> Seq<u8>
    decreases n,
{
    if n < 10 {
        seq![(48 + n) as u8]
    } else {
        digits(n / 10).push((48 + n % 10) as u8)
    }
}

/// `n` written in decimal, with a leading `-` when negative.
pub open spec fn decimal(n: int) -> Seq<u8> {
    if n < 0 {
        seq![45u8] + digits((-n) as nat)
    } else {
        digits(n as nat)
    }
}

/// The UTF-8 bytes of an optional text, empty when absent.
pub open spec fn opt_bytes(o: Option<String>) -> Seq<u8> {
    match o {
        Some(s) => encode_utf8(s@),
        None => Seq::empty(),
    }
}

/// The decimal bytes of an optional integer, empty when absent.
pub open spec fn opt_decimal(o: Option<i64>) -> Seq<u8> {
    match o {
        Some(n) => decimal(n as int),
        None => Seq::empty(),
    }
}

/// A field of the signed text: its bytes, then a newline.
pub open spec fn line(b: Seq<u8>) -> Seq<u8> {
    b.push(NEWLINE)
}

/// The canonical text that a token request's MAC covers: key name, ttl,
/// capability, client id, timestamp in milliseconds and nonce, each ended
/// by a newline, absent fields written as empty.
pub open spec fn canonical_bytes(key_name: Seq<char>, req: TokenRequest) -> Seq<u8> {
    line(encode_utf8(key_name)) + line(opt_decimal(req.ttl)) + line(opt_bytes(req.capability))
        + line(opt_bytes(req.client_id)) + line(decimal(req.timestamp as int))
        + line(encode_utf8(req.nonce@))
}

/// The MAC of a token request under a key: base64 of the HMAC-SHA256,
/// keyed by the secret, of the canonical text.
pub open spec fn mac_of(key: Key, req: TokenRequest) -> Seq<char> {
    base64_of(hmac_sha256_of(encode_utf8(key.value@), canonical_bytes(key.name@, req)))
}

/// The parameters of a token to request. All are optional; defaults are
/// chosen when signing and never written back.
#[derive(Clone, Debug)]
pub struct TokenParams {
    pub capability: Option<String>,
    pub client_id: Option<String>,
    pub nonce: Option<String>,
    /// Milliseconds since the Unix epoch.
    pub timestamp: Option<i64>,
    /// Seconds.
    pub ttl: Option<i64>,
}

/// `p + x + q` and `p + y + q` differ when `x` and `y` do.
proof fn lemma_middle_differs(p: Seq<u8>, x: Seq<u8>, y: Seq<u8>, q: Seq<u8>)
    requires
        x != y,
    ensures
        p + x + q != p + y + q,
{
    if p + x + q == p + y + q {
        let s = p + x + q;
        assert(s.len() == (p + y + q).len());
        assert(x.len() == y.len());
        assert(s.subrange(p.len() as int, (p.len() + x.len()) as int) =~= x);
        assert((p + y + q).subrange(p.len() as int, (p.len() + y.len()) as int) =~= y);
    }
}

/// Distinct texts have distinct UTF-8 bytes.
proof fn lemma_encode_injective(a: Seq<char>, b: Seq<char>)
    requires
        a != b,
    ensures
        encode_utf8(a) != encode_utf8(b),
{
    vstd::utf8::encode_utf8_decode_utf8(a);
    vstd::utf8::encode_utf8_decode_utf8(b);
}

/// Distinct numbers have distinct decimal digits.
proof fn lemma_digits_injective(n: nat, m: nat)
    requires
        n != m,
    ensures
        digits(n) != digits(m),
    decreases n + m,
{
    lemma_digits_nonempty(n / 10);
    lemma_digits_nonempty(m / 10);
    if n < 10 && m < 10 {
        assert(digits(n)[0] != digits(m)[0]);
    } else if n < 10 {
        assert(digits(m).len() > 1);
    } else if m < 10 {
        assert(digits(n).len() > 1);
    } else if n % 10 != m % 10 {
        assert(digits(n).last() != digits(m).last());
    } else {
        assert(n / 10 != m / 10);
        lemma_digits_injective(n / 10, m / 10);
        if digits(n) == digits(m) {
            assert(digits(n / 10) =~= digits(n).drop_last());
            assert(digits(m / 10) =~= digits(m).drop_last());
        }
    }
}

/// Every digit is an ASCII digit.
proof fn lemma_digits_are_digits(n: nat)
    ensures
        48 <= digits(n)[0] <= 57,
    decreases n,
{
    if n >= 10 {
        lemma_digits_are_digits(n / 10);
        lemma_digits_nonempty(n / 10);
    }
}

/// Distinct integers have distinct decimal texts.
proof fn lemma_decimal_injective(n: int, m: int)
    requires
        n != m,
    ensures
        decimal(n) != decimal(m),
{
    if n < 0 && m < 0 {
        lemma_digits_injective((-n) as nat, (-m) as nat);
        if decimal(n) == decimal(m) {
            assert(digits((-n) as nat) =~= decimal(n).drop_first());
            assert(digits((-m) as nat) =~= decimal(m).drop_first());
        }
    } else if n < 0 {
        lemma_digits_are_digits(m as nat);
        assert(decimal(n)[0] != decimal(m)[0]);
    } else if m < 0 {
        lemma_digits_are_digits(n as nat);
        assert(decimal(n)[0] != decimal(m)[0]);
    } else {
        lemma_digits_injective(n as nat, m as nat);
    }
}

/// Two optional texts differ in their signed bytes unless they have the
/// same view, or one is absent and the other empty.
pub open spec fn texts_differ(x: Option<String>, y: Option<String>) -> bool {
    opt_view(x) != opt_view(y) && !(x is None && present_empty(y)) && !(y is None && present_empty(x))
}

/// A present text that is empty.
pub open spec fn present_empty(o: Option<String>) -> bool {
    o matches Some(t) && t@.len() == 0
}

proof fn lemma_opt_bytes_differ(x: Option<String>, y: Option<String>)
    requires
        texts_differ(x, y),
    ensures
        opt_bytes(x) != opt_bytes(y),
{
    match (x, y) {
        (Some(a), Some(b)) => lemma_encode_injective(a@, b@),
        (Some(a), None) => lemma_encode_nonempty(a@),
        (None, Some(b)) => lemma_encode_nonempty(b@),
        (None, None) => {},
    }
}

proof fn lemma_line_injective(x: Seq<u8>, y: Seq<u8>)
    requires
        x != y,
    ensures
        line(x) != line(y),
{
    if line(x) == line(y) {
        assert(line(x).drop_last() =~= x);
        assert(line(y).drop_last() =~= y);
    }
}

/// Joining six pieces gives different results when exactly one piece
/// differs.
proof fn lemma_one_of_six_differs(a: Seq<Seq<u8>>, b: Seq<Seq<u8>>, j: int)
    requires
        a.len() == 6,
        b.len() == 6,
        0 <= j < 6,
        a[j] != b[j],
        forall|i: int| 0 <= i < 6 && i != j ==> a[i] == b[i],
    ensures
        a[0] + a[1] + a[2] + a[3] + a[4] + a[5] != b[0] + b[1] + b[2] + b[3] + b[4] + b[5],
{
    let e = Seq::<u8>::empty();
    if j == 0 {
        let q = a[1] + a[2] + a[3] + a[4] + a[5];
        lemma_middle_differs(e, a[0], b[0], q);
        assert(e + a[0] + q =~= a[0] + a[1] + a[2] + a[3] + a[4] + a[5]);
        assert(e + b[0] + q =~= b[0] + b[1] + b[2] + b[3] + b[4] + b[5]);
    } else if j == 1 {
        let q = a[2] + a[3] + a[4] + a[5];
        lemma_middle_differs(a[0], a[1], b[1], q);
        assert(a[0] + a[1] + q =~= a[0] + a[1] + a[2] + a[3] + a[4] + a[5]);
        assert(a[0] + b[1] + q =~= b[0] + b[1] + b[2] + b[3] + b[4] + b[5]);
    } else if j == 2 {
        let q = a[3] + a[4] + a[5];
        lemma_middle_differs(a[0] + a[1], a[2], b[2], q);
        assert(a[0] + a[1] + a[2] + q =~= a[0] + a[1] + a[2] + a[3] + a[4] + a[5]);
        assert(a[0] + a[1] + b[2] + q =~= b[0] + b[1] + b[2] + b[3] + b[4] + b[5]);
    } else if j == 3 {
        let q = a[4] + a[5];
        lemma_middle_differs(a[0] + a[1] + a[2], a[3], b[3], q);
        assert(a[0] + a[1] + a[2] + a[3] + q =~= a[0] + a[1] + a[2] + a[3] + a[4] + a[5]);
        assert(a[0] + a[1] + a[2] + b[3] + q =~= b[0] + b[1] + b[2] + b[3] + b[4] + b[5]);
    } else if j == 4 {
        lemma_middle_differs(a[0] + a[1] + a[2] + a[3], a[4], b[4], a[5]);
    } else {
        let p = a[0] + a[1] + a[2] + a[3] + a[4];
        lemma_middle_differs(p, a[5], b[5], e);
        assert(p + a[5] + e =~= a[0] + a[1] + a[2] + a[3] + a[4] + a[5]);
        assert(p + b[5] + e =~= b[0] + b[1] + b[2] + b[3] + b[4] + b[5]);
    }
}

/// The six lines of the signed text.
pub open spec fn canonical_lines(key_name: Seq<char>, req: TokenRequest) -> Seq<Seq<u8>> {
    seq![
        line(encode_utf8(key_name)),
        line(opt_decimal(req.ttl)),
        line(opt_bytes(req.capability)),
        line(opt_bytes(req.client_id)),
        line(decimal(req.timestamp as int)),
        line(encode_utf8(req.nonce@)),
    ]
}

proof fn lemma_opt_decimal_differs(x: Option<i64>, y: Option<i64>)
    requires
        x != y,
    ensures
        opt_decimal(x) != opt_decimal(y),
{
    match (x, y) {
        (Some(m), Some(n)) => lemma_decimal_injective(m as int, n as int),
        (Some(m), None) => if m >= 0 {
            lemma_digits_nonempty(m as nat);
        },
        (None, Some(n)) => if n >= 0 {
            lemma_digits_nonempty(n as nat);
        },
        (None, None) => {},
    }
}

/// The signed text of two requests, under key names `ka` and `kb`, differs
/// when exactly one signed input differs: the key name, the ttl, the
/// capability or client id (other than absent against empty), the
/// timestamp or the nonce.
pub proof fn lemma_changed_field_changes_text(
    ka: Seq<char>,
    a: TokenRequest,
    kb: Seq<char>,
    b: TokenRequest,
    field: int,
)
    requires
        0 <= field < 6,
        (field == 0) == (ka != kb),
        (field == 1) == (a.ttl != b.ttl),
        field == 2 ==> texts_differ(a.capability, b.capability),
        field != 2 ==> opt_view(a.capability) == opt_view(b.capability),
        field == 3 ==> texts_differ(a.client_id, b.client_id),
        field != 3 ==> opt_view(a.client_id) == opt_view(b.client_id),
        (field == 4) == (a.timestamp != b.timestamp),
        (field == 5) == (a.nonce@ != b.nonce@),
    ensures
        canonical_bytes(ka, a) != canonical_bytes(kb, b),
{
    let la = canonical_lines(ka, a);
    let lb = canonical_lines(kb, b);
    if field == 0 {
        lemma_encode_injective(ka, kb);
    } else if field == 1 {
        lemma_opt_decimal_differs(a.ttl, b.ttl);
    } else if field == 2 {
        lemma_opt_bytes_differ(a.capability, b.capability);
    } else if field == 3 {
        lemma_opt_bytes_differ(a.client_id, b.client_id);
    } else if field == 4 {
        lemma_decimal_injective(a.timestamp as int, b.timestamp as int);
    } else {
        lemma_encode_injective(a.nonce@, b.nonce@);
    }
    if field != 2 {
        assert(opt_bytes(a.capability) == opt_bytes(b.capability));
    }
    if field != 3 {
        assert(opt_bytes(a.client_id) == opt_bytes(b.client_id));
    }
    if field == 0 {
        lemma_line_injective(encode_utf8(ka), encode_utf8(kb));
    } else if field == 1 {
        lemma_line_injective(opt_decimal(a.ttl), opt_decimal(b.ttl));
    } else if field == 2 {
        lemma_line_injective(opt_bytes(a.capability), opt_bytes(b.capability));
    } else if field == 3 {
        lemma_line_injective(opt_bytes(a.client_id), opt_bytes(b.client_id));
    } else if field == 4 {
        lemma_line_injective(decimal(a.timestamp as int), decimal(b.timestamp as int));
    } else {
        lemma_line_injective(encode_utf8(a.nonce@), encode_utf8(b.nonce@));
    }
    assert(forall|i: int| 0 <= i < 6 && i != field ==> la[i] == lb[i]);
    lemma_one_of_six_differs(la, lb, field);
}

/// Signing fixed parameters, with their timestamp and nonce given, by a
/// fixed key always gives the same MAC.
pub proof fn lemma_signing_reproducible(
    params: TokenParams,
    key: Key,
    a: TokenRequest,
    b: TokenRequest,
)
    requires
        params.timestamp is Some,
        params.nonce is Some,
        signed_by(params, key, Ok(a)),
        signed_by(params, key, Ok(b)),
    ensures
        a.mac matches Some(ma) && b.mac matches Some(mb) && ma@ == mb@,
{
    lemma_mac_deterministic(key, a, b);
}

impl Default for TokenParams {
    fn default() -> (r: TokenParams)
        ensures
            r == TokenParams::new_spec(),
    {
        TokenParams::new()
    }
}

/// A request for a token, signed by an API key.
#[derive(Clone, Debug)]
pub struct TokenRequest {
    pub key_name: String,
    /// Milliseconds since the Unix epoch.
    pub timestamp: i64,
    pub capability: Option<String>,
    pub client_id: Option<String>,
    pub mac: Option<String>,
    pub nonce: String,
    pub ttl: Option<i64>,
}

/// A present client id that is empty.
pub open spec fn empty_client_id(o: Option<String>) -> bool {
    o matches Some(c) && c@.len() == 0
}

/// An optional text as its view.
pub open spec fn opt_view(o: Option<String>) -> Option<Seq<char>> {
    match o {
        Some(s) => Some(s@),
        None => None,
    }
}

/// Signing is a function of the key and the signed fields alone: two
/// requests that agree on ttl, capability, client id, timestamp and nonce
/// get the same MAC under the same key.
pub proof fn lemma_mac_deterministic(key: Key, a: TokenRequest, b: TokenRequest)
    requires
        a.ttl == b.ttl,
        opt_view(a.capability) == opt_view(b.capability),
        opt_view(a.client_id) == opt_view(b.client_id),
        a.timestamp == b.timestamp,
        a.nonce@ == b.nonce@,
    ensures
        mac_of(key, a) == mac_of(key, b),
{
    assert(opt_bytes(a.capability) == opt_bytes(b.capability));
    assert(opt_bytes(a.client_id) == opt_bytes(b.client_id));
}

proof fn lemma_encode_nonempty(s: Seq<char>)
    requires
        s.len() > 0,
    ensures
        encode_utf8(s).len() > 0,
{
    assert(vstd::utf8::encode_scalar(s[0] as u32).len() > 0);
}

proof fn lemma_digits_nonempty(n: nat)
    ensures
        digits(n).len() > 0,
    decreases n,
{
    if n >= 10 {
        lemma_digits_nonempty(n / 10);
    }
}

/// `r` is a signing of `params` by `key`: refused exactly when the client
/// id is present and empty; else a request that carries the key name and
/// the parameters, with the given timestamp and nonce where present (a
/// fresh nonce is sixteen ASCII letters and digits), and the MAC of it all.
pub open spec fn signed_by(params: TokenParams, key: Key, r: Result<TokenRequest, ErrorInfo>) -> bool {
    &&& empty_client_id(params.client_id) <==> r is Err
    &&& match r {
        Err(e) => e.code == CODE_EMPTY_CLIENT_ID,
        Ok(req) => {
            &&& req.key_name@ == key.name@
            &&& req.capability == params.capability
            &&& req.client_id == params.client_id
            &&& req.ttl == params.ttl
            &&& (params.timestamp matches Some(t) ==> req.timestamp == t)
            &&& (params.nonce matches Some(n) ==> req.nonce == n)
            &&& (params.nonce is None ==> req.nonce@.len() == NONCE_LENGTH && forall|i: int|
                0 <= i < req.nonce@.len() ==> is_ascii_alphanumeric(#[trigger] req.nonce@[i]))
            &&& req.mac matches Some(m) && m@ == mac_of(key, req)
        },
    }
}

impl TokenParams {
    /// No parameter set.
    pub open spec fn new_spec() -> TokenParams {
        TokenParams { capability: None, client_id: None, nonce: None, timestamp: None, ttl: None }
    }

    pub fn new() -> (r: TokenParams)
        ensures
            r == TokenParams::new_spec(),
    {
        TokenParams { capability: None, client_id: None, nonce: None, timestamp: None, ttl: None }
    }

    /// Sign these parameters with `key`. An empty client id is refused;
    /// a missing timestamp becomes the current time and a missing nonce a
    /// fresh random one of sixteen letters and digits.
    pub fn sign(self, key: &Key) -> (r: Result<TokenRequest, ErrorInfo>)
        ensures
            signed_by(self, *key, r),
    {
        if let Some(ref client_id) = self.client_id {
            if client_id.as_str().is_empty() {
                return Err(ErrorInfo::new(CODE_EMPTY_CLIENT_ID, "client_id can't be an empty string"));
            }
        }
        let timestamp = match self.timestamp {
            Some(t) => t,
            None => now_millis(),
        };
        let nonce = match self.nonce {
            Some(n) => n,
            None => random_alphanumeric(NONCE_LENGTH),
        };
        let mut req = TokenRequest {
            key_name: key.name.clone(),
            timestamp,
            capability: self.capability,
            client_id: self.client_id,
            mac: None,
            nonce,
            ttl: self.ttl,
        };
        let mac = compute_mac(key, &req);
        req.mac = Some(mac);
        Ok(req)
    }
}

/// The decimal digits of `n`, most significant first.
fn push_digits(out: &mut Vec<u8>, n: u64)
    ensures
        final(out)@ == old(out)@ + digits(n as nat),
    decreases n,
{
    if n >= 10 {
        push_digits(out, n / 10);
    }
    out.push((48 + n % 10) as u8);
    proof {
        assert(final(out)@ =~= old(out)@ + digits(n as nat));
    }
}

/// Append `n` in decimal.
fn push_decimal(out: &mut Vec<u8>, n: i64)
    ensures
        final(out)@ == old(out)@ + decimal(n as int),
{
    if n < 0 {
        out.push(45u8);
        let m: u64 = if n == i64::MIN { 9223372036854775808u64 } else { (-n) as u64 };
        push_digits(out, m);
        proof {
            assert(final(out)@ =~= old(out)@ + decimal(n as int));
        }
    } else {
        push_digits(out, n as u64);
    }
}

/// Append some bytes and a newline.
fn push_line(out: &mut Vec<u8>, b: &Vec<u8>)
    ensures
        final(out)@ == old(out)@ + line(b@),
{
    let mut i: usize = 0;
    while i < b.len()
        invariant
            i <= b@.len(),
            out@ == old(out)@ + b@.subrange(0, i as int),
        decreases b@.len() - i,
    {
        out.push(b[i]);
        proof {
            assert(b@.subrange(0, i as int + 1) =~= b@.subrange(0, i as int).push(b@[i as int]));
        }
        i = i + 1;
    }
    out.push(NEWLINE);
    proof {
        assert(b@.subrange(0, b@.len() as int) =~= b@);
        assert(final(out)@ =~= old(out)@ + line(b@));
    }
}

/// The UTF-8 bytes of an optional text, empty when absent.
fn option_bytes(o: &Option<String>) -> (r: Vec<u8>)
    ensures
        r@ == opt_bytes(*o),
{
    match o {
        Some(s) => s.as_str().as_bytes_vec(),
        None => Vec::new(),
    }
}

/// The MAC of `req` under `key`: base64 of the HMAC-SHA256, keyed by the
/// key's secret, of the canonical text of the request.
pub fn compute_mac(key: &Key, req: &TokenRequest) -> (r: String)
    ensures
        r@ == mac_of(*key, *req),
{
    let mut msg: Vec<u8> = Vec::new();
    push_line(&mut msg, &key.name.as_str().as_bytes_vec());
    let mut ttl: Vec<u8> = Vec::new();
    if let Some(t) = req.ttl {
        push_decimal(&mut ttl, t);
    }
    push_line(&mut msg, &ttl);
    push_line(&mut msg, &option_bytes(&req.capability));
    push_line(&mut msg, &option_bytes(&req.client_id));
    let mut ts: Vec<u8> = Vec::new();
    push_decimal(&mut ts, req.timestamp);
    push_line(&mut msg, &ts);
    push_line(&mut msg, &req.nonce.as_str().as_bytes_vec());
    proof {
        assert(ttl@ =~= opt_decimal(req.ttl));
        assert(ts@ =~= decimal(req.timestamp as int));
        assert(msg@ =~= canonical_bytes(key.name@, *req));
    }
    let digest = hmac_sha256(&key.value.as_str().as_bytes_vec(), &msg);
    encode_base64(&digest)
}

} // verus!
