//! Request signatures: HMAC-SHA256 in lowercase hexadecimal.
use hmac::Mac;
use vstd::prelude::*;

verus! {

/// The HMAC-SHA256 of a message under a key, both taken in UTF-8.
pub uninterp spec fn hmac_sha256(key: Seq<char>, message: Seq<char>) -> Seq<u8>;

/// `hmac::Hmac::<sha2::Sha256>`, keyed with `new_from_slice` (which takes a key
/// of any length), fed with `update` and read with `finalize`: its result is a
/// function of key and message and has 32 bytes.
#[verifier::external_body]
fn mac_of(key: &str, message: &str) -> (mac: Vec<u8>)
    ensures
        mac@ == hmac_sha256(key@, message@),
        mac@.len() == 32,
{
    let mut mac = hmac::Hmac::<sha2::Sha256>::new_from_slice(key.as_bytes()).expect("key");
    mac.update(message.as_bytes());
    mac.finalize().into_bytes().to_vec()
}

/// The character of a hexadecimal digit.
pub open spec fn hex_digit(d: int) -> char {
    if d < 10 {
        (48 + d) as char
    } else {
        (87 + d) as char
    }
}

/// Two lowercase hexadecimal digits for each byte.
pub open spec fn hex_text(bytes: Seq<u8>) -> Seq<char>
    decreases bytes.len(),
{
    if bytes.len() == 0 {
        seq![]
    } else {
        hex_text(bytes.drop_last()).push(hex_digit(bytes.last() as int / 16)).push(
            hex_digit(bytes.last() as int % 16),
        )
    }
}

/// `hex::encode`: each byte as two lowercase hexadecimal digits.
#[verifier::external_body]
fn to_hex(bytes: &Vec<u8>) -> (s: String)
    ensures
        s@ == hex_text(bytes@),
{
    hex::encode(bytes)
}

/// The signature of a payload under a secret.
pub open spec fn signature_text(secret: Seq<char>, payload: Seq<char>) -> Seq<char> {
    hex_text(hmac_sha256(secret, payload))
}

/// Hexadecimal text is twice as long as the bytes.
pub proof fn lemma_hex_len(bytes: Seq<u8>)
    ensures
        hex_text(bytes).len() == 2 * bytes.len(),
    decreases bytes.len(),
{
    if bytes.len() > 0 {
        lemma_hex_len(bytes.drop_last());
    }
}

/// Signs a payload: 64 hexadecimal digits.
pub fn sign(secret: &str, payload: &str) -> (signature: String)
    ensures
        signature@ == signature_text(secret@, payload@),
        signature@.len() == 64,
{
    let mac = mac_of(secret, payload);
    proof {
        lemma_hex_len(mac@);
    }
    to_hex(&mac)
}

} // verus!
