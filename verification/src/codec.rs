//! Base64, SHA-256, random identifiers and the clock, as the protocol uses
//! them. Each outside call stands behind one trusted item.

use crate::error::DecodeError;
use crate::text::{lemma_remove_char_absent, lemma_remove_char_append, remove_char};
use aes_gcm::aead::{Aead, KeyInit, Payload};
use base64::Engine;
use rsa::sha2::Digest;
use vstd::prelude::*;

verus! {

/// The character of the standard Base64 alphabet (RFC 4648) for a 6-bit value.
pub open spec fn base64_char(v: int) -> char {
    if v < 26 {
        ((v + 65) as u8) as char
    } else if v < 52 {
        ((v - 26 + 97) as u8) as char
    } else if v < 62 {
        ((v - 52 + 48) as u8) as char
    } else if v == 62 {
        '+'
    } else {
        '/'
    }
}

/// Standard Base64 with `=` padding (RFC 4648, section 4): every three bytes
/// become four characters; a final group of one or two bytes is padded.
pub open spec fn base64_encode_spec(b: Seq<u8>) -> Seq<char>
    decreases b.len(),
{
    if b.len() == 0 {
        Seq::empty()
    } else {
        let x = b[0] as int;
        if b.len() == 1 {
            seq![base64_char(x / 4), base64_char((x % 4) * 16), '=', '=']
        } else {
            let y = b[1] as int;
            if b.len() == 2 {
                seq![
                    base64_char(x / 4),
                    base64_char((x % 4) * 16 + y / 16),
                    base64_char((y % 16) * 4),
                    '=',
                ]
            } else {
                let z = b[2] as int;
                seq![
                    base64_char(x / 4),
                    base64_char((x % 4) * 16 + y / 16),
                    base64_char((y % 16) * 4 + z / 64),
                    base64_char(z % 64),
                ] + base64_encode_spec(b.subrange(3, b.len() as int))
            }
        }
    }
}

/// Base64 text holds no line feed.
pub proof fn lemma_base64_no_newline(b: Seq<u8>)
    ensures
        !base64_encode_spec(b).contains('\n'),
    decreases b.len(),
{
    let e = base64_encode_spec(b);
    if b.len() > 2 {
        lemma_base64_no_newline(b.subrange(3, b.len() as int));
    }
    assert forall|i: int| 0 <= i < e.len() implies e[i] != '\n' by {
        if b.len() > 2 && i >= 4 {
            let r = base64_encode_spec(b.subrange(3, b.len() as int));
            assert(e[i] == r[i - 4]);
            if r[i - 4] == '\n' {
                assert(r.contains('\n'));
            }
        }
    }
}

/// What the standard Base64 engine decodes `input` to, or why it refuses it.
pub uninterp spec fn base64_standard_decode(input: Seq<u8>) -> Result<Seq<u8>, DecodeError>;

/// Calls `base64::engine::general_purpose::STANDARD.encode`, which writes the
/// standard alphabet with padding; it panics only when the output length
/// overflows `usize`, which `requires` rules out.
#[verifier::external_body]
pub(crate) fn base64_standard_encode(bytes: &[u8]) -> (s: String)
    requires
        (bytes@.len() + 2) / 3 * 4 <= usize::MAX,
    ensures
        s@ == base64_encode_spec(bytes@),
{
    base64::engine::general_purpose::STANDARD.encode(bytes)
}

/// Calls `base64::engine::general_purpose::STANDARD.decode` and carries its
/// error over case by case; the result is named, not stated.
#[verifier::external_body]
pub(crate) fn base64_standard_decode_bytes(input: &[u8]) -> (r: Result<Vec<u8>, DecodeError>)
    ensures
        match r {
            Ok(v) => base64_standard_decode(input@) == Ok::<Seq<u8>, DecodeError>(v@),
            Err(e) => base64_standard_decode(input@) == Err::<Seq<u8>, DecodeError>(e),
        },
{
    match base64::engine::general_purpose::STANDARD.decode(input) {
        Ok(v) => Ok(v),
        Err(base64::DecodeError::InvalidByte(i, b)) => Err(DecodeError::InvalidByte(i, b)),
        Err(base64::DecodeError::InvalidLength) => Err(DecodeError::InvalidLength),
        Err(base64::DecodeError::InvalidLastSymbol(i, b)) => Err(DecodeError::InvalidLastSymbol(i, b)),
        Err(base64::DecodeError::InvalidPadding) => Err(DecodeError::InvalidPadding),
    }
}

/// The SHA-256 digest of a byte sequence.
pub uninterp spec fn sha256(data: Seq<u8>) -> Seq<u8>;

/// Calls `Sha256::new().chain_update(data).finalize()` from the `sha2` crate
/// that `rsa` re-exports; the digest is named, and is 32 bytes long.
#[verifier::external_body]
pub(crate) fn sha256_digest(data: &[u8]) -> (d: Vec<u8>)
    ensures
        d@ == sha256(data@),
        d@.len() == 32,
{
    rsa::sha2::Sha256::new().chain_update(data).finalize().to_vec()
}

/// A lower-case hexadecimal digit.
pub open spec fn is_lower_hex(c: char) -> bool {
    ('0' <= c && c <= '9') || ('a' <= c && c <= 'f')
}

/// An upper-case hexadecimal digit.
pub open spec fn is_upper_hex(c: char) -> bool {
    ('0' <= c && c <= '9') || ('A' <= c && c <= 'F')
}

/// The hyphenated lower-case text of a version-4 UUID:
/// `xxxxxxxx-xxxx-4xxx-Yxxx-xxxxxxxxxxxx`, with `Y` one of `8 9 a b`.
pub open spec fn is_uuid_v4_text(s: Seq<char>) -> bool {
    &&& s.len() == 36
    &&& forall|i: int|
        0 <= i < 36 ==> if i == 8 || i == 13 || i == 18 || i == 23 {
            s[i] == '-'
        } else {
            is_lower_hex(s[i])
        }
    &&& s[14] == '4'
    &&& (s[19] == '8' || s[19] == '9' || s[19] == 'a' || s[19] == 'b')
}

/// Calls `uuid::Uuid::new_v4().to_string()`: a random version-4 UUID in its
/// hyphenated lower-case form. Which one comes out is left open.
#[verifier::external_body]
pub(crate) fn random_uuid_v4_text() -> (s: String)
    ensures
        is_uuid_v4_text(s@),
{
    uuid::Uuid::new_v4().to_string()
}

/// The hexadecimal digits of a UUID text: the text without its hyphens.
pub open spec fn uuid_digits(u: Seq<char>) -> Seq<char> {
    remove_char(u, '-')
}

/// A version-4 UUID text has 32 lower-case hexadecimal digits.
pub proof fn lemma_uuid_digits(u: Seq<char>)
    requires
        is_uuid_v4_text(u),
    ensures
        uuid_digits(u).len() == 32,
        forall|i: int| 0 <= i < 32 ==> is_lower_hex(#[trigger] uuid_digits(u)[i]),
        uuid_digits(u) == u.subrange(0, 8) + u.subrange(9, 13) + u.subrange(14, 18) + u.subrange(
            19,
            23,
        ) + u.subrange(24, 36),
{
    let h = seq!['-'];
    let a = u.subrange(0, 8);
    let b = u.subrange(9, 13);
    let c = u.subrange(14, 18);
    let d = u.subrange(19, 23);
    let e = u.subrange(24, 36);
    assert(u =~= a + h + b + h + c + h + d + h + e);
    assert forall|i: int| 0 <= i < a.len() implies a[i] != '-' by { assert(a[i] == u[i]); }
    assert forall|i: int| 0 <= i < b.len() implies b[i] != '-' by { assert(b[i] == u[i + 9]); }
    assert forall|i: int| 0 <= i < c.len() implies c[i] != '-' by { assert(c[i] == u[i + 14]); }
    assert forall|i: int| 0 <= i < d.len() implies d[i] != '-' by { assert(d[i] == u[i + 19]); }
    assert forall|i: int| 0 <= i < e.len() implies e[i] != '-' by { assert(e[i] == u[i + 24]); }
    lemma_remove_char_absent(a, '-');
    lemma_remove_char_absent(b, '-');
    lemma_remove_char_absent(c, '-');
    lemma_remove_char_absent(d, '-');
    lemma_remove_char_absent(e, '-');
    assert(remove_char(h, '-') == Seq::<char>::empty()) by {
        assert(h.drop_last() == Seq::<char>::empty());
        assert(h.last() == '-');
        assert(remove_char(Seq::<char>::empty(), '-') == Seq::<char>::empty());
    }
    lemma_remove_char_append(a, h, '-');
    lemma_remove_char_append(a + h, b, '-');
    lemma_remove_char_append(a + h + b, h, '-');
    lemma_remove_char_append(a + h + b + h, c, '-');
    lemma_remove_char_append(a + h + b + h + c, h, '-');
    lemma_remove_char_append(a + h + b + h + c + h, d, '-');
    lemma_remove_char_append(a + h + b + h + c + h + d, h, '-');
    lemma_remove_char_append(a + h + b + h + c + h + d + h, e, '-');
    let r = a + b + c + d + e;
    assert(uuid_digits(u) =~= r);
    assert forall|i: int| 0 <= i < 32 implies is_lower_hex(#[trigger] uuid_digits(u)[i]) by {
        if i < 8 {
            assert(r[i] == u[i]);
        } else if i < 12 {
            assert(r[i] == u[i + 1]);
        } else if i < 16 {
            assert(r[i] == u[i + 2]);
        } else if i < 20 {
            assert(r[i] == u[i + 3]);
        } else {
            assert(r[i] == u[i + 4]);
        }
    }
}

/// Calls `chrono::Local::now().timestamp()`: the current Unix time in seconds.
/// Nothing is promised of the value.
#[verifier::external_body]
pub(crate) fn now_unix_seconds() -> (t: i64) {
    chrono::Local::now().timestamp()
}

/// What AES-256-GCM decryption makes of a ciphertext (with its 16-byte tag at
/// the end) under a key, a nonce and associated data; `None` where the tag does
/// not match.
pub uninterp spec fn aes256gcm_open(
    key: Seq<u8>,
    nonce: Seq<u8>,
    ciphertext: Seq<u8>,
    aad: Seq<u8>,
) -> Option<Seq<u8>>;

/// Calls `Aes256Gcm::new(key.into()).decrypt(nonce.into(), Payload { msg, aad })`
/// from `aes-gcm`. The key must be 32 bytes and the nonce 12 (else the
/// conversions panic). The plaintext is named; it is the ciphertext less its
/// tag, and the error's text is `aead::Error`.
#[verifier::external_body]
pub(crate) fn aes256gcm_decrypt(key: &[u8], nonce: &[u8], ciphertext: &[u8], aad: &[u8]) -> (r:
    Result<Vec<u8>, String>)
    requires
        key@.len() == 32,
        nonce@.len() == 12,
    ensures
        match r {
            Ok(p) => aes256gcm_open(key@, nonce@, ciphertext@, aad@) == Some(p@),
            Err(_) => aes256gcm_open(key@, nonce@, ciphertext@, aad@) is None,
        },
        r matches Ok(p) ==> p@.len() + 16 == ciphertext@.len(),
        ciphertext@.len() < 16 ==> r is Err,
        r matches Err(m) ==> m@ == "aead::Error"@,
{
    let cipher = aes_gcm::Aes256Gcm::new(key.into());
    cipher.decrypt(nonce.into(), Payload { msg: ciphertext, aad }).map_err(|e| e.to_string())
}

} // verus!
