use vstd::prelude::*;
use hmac::Mac;
use rand::Rng;

verus! {

/// What HMAC-SHA256 gives for a key and a message.
pub uninterp spec fn hmac_sha256_of(key: Seq<u8>, msg: Seq<u8>) -> Seq<u8>;

/// The standard base64 alphabet.
pub open spec fn base64_alphabet() -> Seq<char> {
    seq![
        'A', 'B', 'C', 'D', 'E', 'F', 'G', 'H', 'I', 'J', 'K', 'L', 'M', 'N', 'O', 'P', 'Q',
        'R', 'S', 'T', 'U', 'V', 'W', 'X', 'Y', 'Z', 'a', 'b', 'c', 'd', 'e', 'f', 'g', 'h',
        'i', 'j', 'k', 'l', 'm', 'n', 'o', 'p', 'q', 'r', 's', 't', 'u', 'v', 'w', 'x', 'y',
        'z', '0', '1', '2', '3', '4', '5', '6', '7', '8', '9', '+', '/'
    ]
}

/// The standard, padded base64 text of some bytes: each group of three
/// bytes becomes four characters of six bits each; a final group of one or
/// two bytes is filled with zero bits and padded with `=`.
pub open spec fn base64_of(data: Seq<u8>) -> Seq<char>
    decreases data.len(),
{
    let abc = base64_alphabet();
    if data.len() == 0 {
        seq![]
    } else if data.len() == 1 {
        let a = data[0] as int;
        seq![abc[a / 4], abc[(a % 4) * 16], '=', '=']
    } else if data.len() == 2 {
        let (a, b) = (data[0] as int, data[1] as int);
        seq![abc[a / 4], abc[(a % 4) * 16 + b / 16], abc[(b % 16) * 4], '=']
    } else {
        let (a, b, c) = (data[0] as int, data[1] as int, data[2] as int);
        seq![abc[a / 4], abc[(a % 4) * 16 + b / 16], abc[(b % 16) * 4 + c / 64], abc[c % 64]]
            + base64_of(data.subrange(3, data.len() as int))
    }
}

/// The essence (`type/subtype`, parameters dropped) of a
/// Content-Type value, or `None` where it is no media type.
pub uninterp spec fn mime_essence_of(s: Seq<char>) -> Option<Seq<char>>;

/// ASCII letters and digits.
pub open spec fn is_ascii_alphanumeric(c: char) -> bool {
    ('a' <= c && c <= 'z') || ('A' <= c && c <= 'Z') || ('0' <= c && c <= '9')
}

/// Relies on hmac's `Hmac::<Sha256>` (`new_from_slice`, `update`,
/// `finalize`): the digest of `msg` under `key`. `new_from_slice` accepts
/// keys of any length (longer ones are hashed first), so it never fails.
#[verifier::external_body]
pub(crate) fn hmac_sha256(key: &Vec<u8>, msg: &Vec<u8>) -> (r: Vec<u8>)
    ensures
        r@ == hmac_sha256_of(key@, msg@),
{
    let mut mac = hmac::Hmac::<sha2::Sha256>::new_from_slice(key).expect("any key length");
    mac.update(msg);
    mac.finalize().into_bytes().to_vec()
}

/// Relies on `base64::encode`, whose `STANDARD` configuration uses the
/// standard alphabet with padding.
#[verifier::external_body]
pub(crate) fn encode_base64(data: &Vec<u8>) -> (r: String)
    ensures
        r@ == base64_of(data@),
{
    base64::encode(data)
}

/// Relies on rand's `thread_rng` sampled with `Alphanumeric`, which draws
/// each character from `A-Z`, `a-z` and `0-9`.
#[verifier::external_body]
pub(crate) fn random_alphanumeric(len: usize) -> (r: String)
    ensures
        r@.len() == len,
        forall|i: int| 0 <= i < r@.len() ==> is_ascii_alphanumeric(#[trigger] r@[i]),
{
    rand::thread_rng().sample_iter(&rand::distributions::Alphanumeric).take(len).map(char::from).collect()
}

/// Relies on chrono's `Utc::now().timestamp_millis()`: the current time in
/// milliseconds since the Unix epoch. Nothing is promised of its value.
#[verifier::external_body]
pub(crate) fn now_millis() -> (r: i64) {
    chrono::Utc::now().timestamp_millis()
}

/// Relies on parsing a `mime::Mime` from the header text and reading its
/// `essence_str`.
#[verifier::external_body]
pub(crate) fn mime_essence(s: &str) -> (r: Option<String>)
    ensures
        match r {
            Some(e) => mime_essence_of(s@) == Some(e@),
            None => mime_essence_of(s@) is None,
        },
{
    s.parse::<mime::Mime>().ok().map(|m| m.essence_str().to_string())
}

} // verus!
