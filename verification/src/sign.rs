//! RSA keys and SHA256-with-RSA (PKCS #1 v1.5) signatures, as WeChat Pay v3
//! uses them: the merchant signs with its PKCS #8 private key, and checks the
//! platform's signatures with the platform's public key.

use crate::codec::{base64_encode_spec, base64_standard_encode, sha256, sha256_digest};
use rsa::pkcs8::{DecodePrivateKey, DecodePublicKey};
use vstd::prelude::*;
use vstd::utf8::encode_utf8;

verus! {

#[verifier::external_type_specification]
#[verifier::external_body]
pub struct ExRsaPrivateKey(rsa::RsaPrivateKey);

#[verifier::external_type_specification]
#[verifier::external_body]
pub struct ExRsaPublicKey(rsa::RsaPublicKey);

/// Whether a PEM text holds a PKCS #8 RSA private key that `rsa` accepts.
pub uninterp spec fn pkcs8_private_key_decodes(pem: Seq<char>) -> bool;

/// The PKCS #1 v1.5 SHA-256 signature that the key of `pem` makes of a digest,
/// or `None` where `rsa` refuses to sign it.
pub uninterp spec fn rsa_pkcs1v15_sha256_signature(pem: Seq<char>, digest: Seq<u8>) -> Option<
    Seq<u8>,
>;

/// Whether a PEM text holds an RSA public key (SubjectPublicKeyInfo) that `rsa`
/// accepts.
pub uninterp spec fn spki_public_key_decodes(pem: Seq<char>) -> bool;

/// The outcome of checking a PKCS #1 v1.5 SHA-256 signature of a digest with
/// the key of `pem`; an error carries the text of `rsa::Error`.
pub uninterp spec fn rsa_pkcs1v15_sha256_check(
    pem: Seq<char>,
    digest: Seq<u8>,
    signature: Seq<u8>,
) -> Result<(), Seq<char>>;

/// A decoded RSA private key, seen as the PEM text it was decoded from.
pub struct PrivateKey {
    key: rsa::RsaPrivateKey,
    pem: Ghost<Seq<char>>,
}

impl View for PrivateKey {
    type V = Seq<char>;

    closed spec fn view(&self) -> Seq<char> {
        self.pem@
    }
}

/// A decoded RSA public key, seen as the PEM text it was decoded from.
pub struct PublicKey {
    key: rsa::RsaPublicKey,
    pem: Ghost<Seq<char>>,
}

impl View for PublicKey {
    type V = Seq<char>;

    closed spec fn view(&self) -> Seq<char> {
        self.pem@
    }
}

/// Calls `RsaPrivateKey::from_pkcs8_pem`; whether it succeeds is named. The
/// key that comes out is seen as the text it came from.
#[verifier::external_body]
fn decode_private_key(pem: &str) -> (r: Option<PrivateKey>)
    ensures
        r is Some <==> pkcs8_private_key_decodes(pem@),
        r matches Some(k) ==> k@ == pem@,
{
    match rsa::RsaPrivateKey::from_pkcs8_pem(pem) {
        Ok(key) => Some(PrivateKey { key, pem: Ghost(pem@) }),
        Err(_) => None,
    }
}

/// Calls `RsaPublicKey::from_public_key_pem`; whether it succeeds is named.
/// The key that comes out is seen as the text it came from.
#[verifier::external_body]
pub(crate) fn decode_public_key(pem: &str) -> (r: Option<PublicKey>)
    ensures
        r is Some <==> spki_public_key_decodes(pem@),
        r matches Some(k) ==> k@ == pem@,
{
    match rsa::RsaPublicKey::from_public_key_pem(pem) {
        Ok(key) => Some(PublicKey { key, pem: Ghost(pem@) }),
        Err(_) => None,
    }
}

/// Calls `RsaPrivateKey::sign` with `Pkcs1v15Sign::new::<Sha256>()`. Signing
/// without a random generator is deterministic, so the signature is named. Like
/// every `Vec<u8>`, it holds at most `isize::MAX` bytes.
#[verifier::external_body]
fn rsa_sign_digest(key: &PrivateKey, digest: &[u8]) -> (r: Option<Vec<u8>>)
    ensures
        match r {
            Some(s) => rsa_pkcs1v15_sha256_signature(key@, digest@) == Some(s@),
            None => rsa_pkcs1v15_sha256_signature(key@, digest@) is None,
        },
        r matches Some(s) ==> s@.len() <= isize::MAX,
{
    key.key.sign(rsa::Pkcs1v15Sign::new::<rsa::sha2::Sha256>(), digest).ok()
}

/// Calls `RsaPublicKey::verify` with `Pkcs1v15Sign::new::<Sha256>()`; the
/// outcome, with the text of the error, is named.
#[verifier::external_body]
pub(crate) fn rsa_verify_digest(key: &PublicKey, digest: &[u8], signature: &[u8]) -> (r: Result<
    (),
    String,
>)
    ensures
        match r {
            Ok(_) => rsa_pkcs1v15_sha256_check(key@, digest@, signature@) == Ok::<(), Seq<char>>(()),
            Err(e) => rsa_pkcs1v15_sha256_check(key@, digest@, signature@) == Err::<(), Seq<char>>(e@),
        },
{
    key.key.verify(rsa::Pkcs1v15Sign::new::<rsa::sha2::Sha256>(), digest, signature).map_err(
        |e| e.to_string(),
    )
}

/// The Base64 text of the SHA256-with-RSA signature of `content` (its UTF-8
/// bytes) under the private key of `pem`; `None` where the key cannot be
/// decoded or cannot sign.
pub open spec fn signature_text(pem: Seq<char>, content: Seq<char>) -> Option<Seq<char>> {
    if !pkcs8_private_key_decodes(pem) {
        None
    } else {
        match rsa_pkcs1v15_sha256_signature(pem, sha256(encode_utf8(content))) {
            Some(sig) => Some(base64_encode_spec(sig)),
            None => None,
        }
    }
}

/// Signs `content` with the private key of `private_key`, if it can.
pub(crate) fn sign_content(private_key: &str, content: &str) -> (r: Option<String>)
    ensures
        match r {
            Some(s) => signature_text(private_key@, content@) == Some(s@),
            None => signature_text(private_key@, content@) is None,
        },
{
    let key = match decode_private_key(private_key) {
        Some(k) => k,
        None => return None,
    };
    let digest = sha256_digest(content.as_bytes());
    match rsa_sign_digest(&key, digest.as_slice()) {
        Some(sig) => {
            assert((sig@.len() + 2) / 3 * 4 <= usize::MAX) by (nonlinear_arith)
                requires
                    sig@.len() <= isize::MAX,
                    isize::MAX * 2 < usize::MAX,
            ;
            Some(base64_standard_encode(sig.as_slice()))
        },
        None => None,
    }
}

/// The SHA256-with-RSA signature of `content`, in Base64, made with the PKCS
/// #8 private key in `private_key`. The key must decode and sign: where it
/// cannot, [`try_sha256_sign`] answers `None`.
pub fn sha256_sign(private_key: &str, content: &str) -> (s: String)
    requires
        signature_text(private_key@, content@) is Some,
    ensures
        signature_text(private_key@, content@) == Some(s@),
{
    match sign_content(private_key, content) {
        Some(s) => s,
        None => String::new(),
    }
}

/// Whether [`sha256_sign`] can sign `content` with `private_key`.
pub fn can_sign(private_key: &str, content: &str) -> (b: bool)
    ensures
        b == signature_text(private_key@, content@) is Some,
{
    sign_content(private_key, content).is_some()
}

/// [`sha256_sign`] where the key can sign, `None` where it cannot.
pub fn try_sha256_sign(private_key: &str, content: &str) -> (r: Option<String>)
    ensures
        match r {
            Some(s) => signature_text(private_key@, content@) == Some(s@),
            None => signature_text(private_key@, content@) is None,
        },
{
    sign_content(private_key, content)
}

} // verus!
