use vstd::prelude::*;
use hmac::{Hmac, Mac};
use sha2::Sha256;

verus! {

/// The HMAC-SHA256 tag of the UTF-8 bytes of `msg`, keyed by the UTF-8 bytes of `key`.
pub uninterp spec fn hmac_sha256_of(key: Seq<char>, msg: Seq<char>) -> Seq<u8>;

/// Lower-case hexadecimal digit of `n < 16`.
pub open spec fn hex_digit(n: nat) -> char {
    if n < 10 {
        crate::text::digit_char(n)
    } else if n == 10 {
        'a'
    } else if n == 11 {
        'b'
    } else if n == 12 {
        'c'
    } else if n == 13 {
        'd'
    } else if n == 14 {
        'e'
    } else {
        'f'
    }
}

/// Two lower-case hexadecimal digits per byte, high digit first.
pub open spec fn hex_text(b: Seq<u8>) -> Seq<char>
    decreases b.len(),
{
    if b.len() == 0 {
        seq![]
    } else {
        hex_text(b.drop_last()) + seq![
            hex_digit(b.last() as nat / 16),
            hex_digit(b.last() as nat % 16),
        ]
    }
}

/// The message that is signed: timestamp, key, receive window and body, back to back.
pub open spec fn signed_message(
    timestamp: Seq<char>,
    api_key: Seq<char>,
    recv_window: Seq<char>,
    body: Seq<char>,
) -> Seq<char> {
    timestamp + api_key + recv_window + body
}

/// The signature the exchange expects for a request.
pub open spec fn signature_text(
    timestamp: Seq<char>,
    api_key: Seq<char>,
    recv_window: Seq<char>,
    body: Seq<char>,
    api_secret: Seq<char>,
) -> Seq<char> {
    hex_text(hmac_sha256_of(api_secret, signed_message(timestamp, api_key, recv_window, body)))
}

/// Relies on hmac's `Hmac<Sha256>` (`new_from_slice`, which takes a key of any
/// length, then `update` and `finalize`) for the 32-byte tag of `msg` under `key`.
#[verifier::external_body]
fn hmac_sha256(key: &str, msg: &str) -> (r: Vec<u8>)
    ensures
        r@ == hmac_sha256_of(key@, msg@),
        r@.len() == 32,
{
    let mut mac = Hmac::<Sha256>::new_from_slice(key.as_bytes()).expect("any key length");
    mac.update(msg.as_bytes());
    mac.finalize().into_bytes().to_vec()
}

/// Relies on `hex::encode`: two lower-case digits per byte, in order.
#[verifier::external_body]
fn to_hex(b: &[u8]) -> (r: String)
    ensures
        r@ == hex_text(b@),
{
    hex::encode(b)
}

/// Hex HMAC-SHA256 over `timestamp || api_key || recv_window || body`, keyed by `api_secret`.
pub fn generate_post_signature(
    timestamp: &str,
    api_key: &str,
    recv_window: &str,
    body: &str,
    api_secret: &str,
) -> (r: String)
    ensures
        r@ == signature_text(timestamp@, api_key@, recv_window@, body@, api_secret@),
        r@.len() == 64,
{
    let mut message = String::from_str(timestamp);
    message.append(api_key);
    message.append(recv_window);
    message.append(body);
    let tag = hmac_sha256(api_secret, message.as_str());
    proof {
        lemma_hex_text_len(tag@);
    }
    to_hex(tag.as_slice())
}

/// Signing is a function of its inputs: the same five values give the same signature.
pub proof fn lemma_signature_deterministic(
    timestamp: Seq<char>,
    api_key: Seq<char>,
    recv_window: Seq<char>,
    body: Seq<char>,
    api_secret: Seq<char>,
    first: Seq<char>,
    second: Seq<char>,
)
    requires
        first == signature_text(timestamp, api_key, recv_window, body, api_secret),
        second == signature_text(timestamp, api_key, recv_window, body, api_secret),
    ensures
        first == second,
        first.len() == 2 * hmac_sha256_of(api_secret, signed_message(timestamp, api_key, recv_window, body)).len(),
{
    lemma_hex_text_len(hmac_sha256_of(api_secret, signed_message(timestamp, api_key, recv_window, body)));
}

pub proof fn lemma_hex_text_len(b: Seq<u8>)
    ensures
        hex_text(b).len() == 2 * b.len(),
    decreases b.len(),
{
    if b.len() > 0 {
        lemma_hex_text_len(b.drop_last());
    }
}

} // verus!
