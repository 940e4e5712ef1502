use vstd::prelude::*;
use vstd::string::*;
use vstd::utf8::encode_utf8;
use crate::email::Email;

verus! {

/// The HMAC-SHA256 tag of `msg` under `key`.
pub uninterp spec fn hmac_sha256_of(key: Seq<u8>, msg: Seq<u8>) -> Seq<u8>;

/// The standard, padded base64 text of `b`.
pub uninterp spec fn base64_of(b: Seq<u8>) -> Seq<char>;

/// Relies on `hmac::Hmac<sha2::Sha256>` (`Mac::new_from_slice`, which takes
/// a key of any length, then `update` and `finalize`): the 32-byte tag
/// depends on the key and the message alone.
#[verifier::external_body]
fn hmac_sha256(key: &[u8], msg: &[u8]) -> (r: Vec<u8>)
    ensures
        r@ == hmac_sha256_of(key@, msg@),
        r@.len() == 32,
{
    let mut mac = <hmac::Hmac<sha2::Sha256> as hmac::Mac>::new_from_slice(key).expect(
        "HMAC can take key of any size",
    );
    hmac::Mac::update(&mut mac, msg);
    hmac::Mac::finalize(mac).into_bytes().to_vec()
}

/// Relies on `base64::Engine::encode` with
/// `base64::engine::general_purpose::STANDARD`: the result depends on the
/// bytes alone, and is padded to four characters for each started group of
/// three bytes. It panics where that length overflows `usize`.
#[verifier::external_body]
fn base64_encode(b: &[u8]) -> (r: String)
    requires
        4 * ((b@.len() + 2) / 3) <= usize::MAX,
    ensures
        r@ == base64_of(b@),
        r@.len() == 4 * ((b@.len() + 2) / 3),
{
    base64::Engine::encode(&base64::engine::general_purpose::STANDARD, b)
}

/// The secret hash that an identity provider asks for with a client
/// secret: the base64 text of the HMAC-SHA256 tag, under the client secret,
/// of the UTF-8 bytes of the email address followed by those of the client
/// id.
pub fn client_secret_hash(email: &Email, client_id: &str, client_secret: &str) -> (r: String)
    ensures
        r@ == base64_of(
            hmac_sha256_of(
                encode_utf8(client_secret@),
                encode_utf8(email@) + encode_utf8(client_id@),
            ),
        ),
        r@.len() == 44,
{
    let mut msg = email.value().as_str().as_bytes_vec();
    let mut rest = client_id.as_bytes_vec();
    msg.append(&mut rest);
    let tag = hmac_sha256(client_secret.as_bytes(), msg.as_slice());
    base64_encode(tag.as_slice())
}

} // verus!
