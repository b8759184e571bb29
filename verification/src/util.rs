//! Utilities: Base64, random order numbers, and reading the platform's X.509
//! certificate.

use crate::codec::{
    base64_encode_spec, base64_standard_decode, base64_standard_decode_bytes, base64_standard_encode,
    is_lower_hex, is_uuid_v4_text, lemma_base64_no_newline, lemma_uuid_digits, random_uuid_v4_text, uuid_digits,
};
use crate::error::{CertError, DecodeError};
use crate::text::{
    lemma_first_index, lemma_remove_char_absent, lemma_remove_char_append, lemma_split_at_sep,
    lemma_split_no_sep, remove_char, remove_char_exec, split_by, string_of, chars_of,
};
use vstd::prelude::*;

verus! {

/// A random order number: the 32 lower-case hexadecimal digits of a random
/// version-4 UUID.
pub fn random_trade_no() -> (s: String)
    ensures
        exists|u: Seq<char>| is_uuid_v4_text(u) && s@ == uuid_digits(u),
        s@.len() == 32,
        forall|i: int| 0 <= i < 32 ==> is_lower_hex(#[trigger] s@[i]),
{
    let u = random_uuid_v4_text();
    proof {
        lemma_uuid_digits(u@);
    }
    remove_char_exec(u.as_str(), '-')
}

/// Standard Base64, with padding.
pub fn base64_encode(content: &[u8]) -> (s: String)
    requires
        (content@.len() + 2) / 3 * 4 <= usize::MAX,
    ensures
        s@ == base64_encode_spec(content@),
{
    base64_standard_encode(content)
}

/// Decodes standard Base64.
pub fn base64_decode(content: &[u8]) -> (r: Result<Vec<u8>, DecodeError>)
    ensures
        match r {
            Ok(v) => base64_standard_decode(content@) == Ok::<Seq<u8>, DecodeError>(v@),
            Err(e) => base64_standard_decode(content@) == Err::<Seq<u8>, DecodeError>(e),
        },
{
    base64_standard_decode_bytes(content)
}

/// The binary content of the first PEM block of a text, if it has one.
pub uninterp spec fn pem_contents(input: Seq<u8>) -> Option<Seq<u8>>;

/// The DER SubjectPublicKeyInfo of an X.509 certificate, if `der` starts with
/// one.
pub uninterp spec fn x509_public_key_info(der: Seq<u8>) -> Option<Seq<u8>>;

/// The validity of an X.509 certificate, if `der` starts with one: the start
/// and end instants in nanoseconds since the Unix epoch, and the end in
/// seconds.
pub uninterp spec fn x509_validity(der: Seq<u8>) -> Option<(int, int, int)>;

/// Calls `pem::parse(input)` and takes its `contents()`; the content is
/// named. Like every `Vec<u8>`, it holds at most `isize::MAX` bytes.
#[verifier::external_body]
fn pem_decode(input: &[u8]) -> (r: Option<Vec<u8>>)
    ensures
        match r {
            Some(v) => pem_contents(input@) == Some(v@),
            None => pem_contents(input@) is None,
        },
        r matches Some(v) ==> v@.len() <= isize::MAX,
{
    match pem::parse(input) {
        Ok(p) => Some(p.contents().to_vec()),
        Err(_) => None,
    }
}

/// Calls `x509_parser::parse_x509_certificate(der)` and takes the raw bytes of
/// `public_key()`; they are named, and are part of `der`.
#[verifier::external_body]
fn x509_public_key_der(der: &[u8]) -> (r: Option<Vec<u8>>)
    ensures
        match r {
            Some(v) => x509_public_key_info(der@) == Some(v@),
            None => x509_public_key_info(der@) is None,
        },
        r matches Some(v) ==> v@.len() <= der@.len(),
{
    match x509_parser::parse_x509_certificate(der) {
        Ok((_, cert)) => Some(cert.public_key().raw.to_vec()),
        Err(_) => None,
    }
}

/// Calls `x509_parser::parse_x509_certificate(der)` and reads `validity`:
/// `not_before` and `not_after` as Unix nanoseconds, and `not_after.timestamp()`;
/// they are named.
#[verifier::external_body]
fn x509_validity_times(der: &[u8]) -> (r: Option<(i128, i128, i64)>)
    ensures
        match r {
            Some(v) => x509_validity(der@) == Some((v.0 as int, v.1 as int, v.2 as int)),
            None => x509_validity(der@) is None,
        },
{
    match x509_parser::parse_x509_certificate(der) {
        Ok((_, cert)) => Some(
            (
                cert.validity.not_before.to_datetime().unix_timestamp_nanos(),
                cert.validity.not_after.to_datetime().unix_timestamp_nanos(),
                cert.validity.not_after.timestamp(),
            ),
        ),
        Err(_) => None,
    }
}

/// Calls `x509_parser::time::ASN1Time::now()` and gives it in Unix nanoseconds.
/// Nothing is promised of the value.
#[verifier::external_body]
fn now_unix_nanos() -> (t: i128) {
    x509_parser::time::ASN1Time::now().to_datetime().unix_timestamp_nanos()
}

/// A text cut into lines of `width` characters (the last one may be shorter),
/// joined by line feeds.
pub open spec fn chunk_lines(s: Seq<char>, width: nat) -> Seq<char>
    decreases s.len(),
{
    if width == 0 || s.len() <= width {
        s
    } else {
        s.subrange(0, width as int) + seq!['\n'] + chunk_lines(
            s.subrange(width as int, s.len() as int),
            width,
        )
    }
}

/// A public key in PEM: the Base64 text of its DER, in lines of 64
/// characters, between the `PUBLIC KEY` markers.
pub open spec fn public_key_pem(b64: Seq<char>) -> Seq<char> {
    "-----BEGIN PUBLIC KEY-----\n"@ + chunk_lines(b64, 64) + "\n-----END PUBLIC KEY-----\n"@
}

fn push_range(out: &mut Vec<char>, v: &Vec<char>, from: usize, to: usize)
    requires
        from <= to <= v.len(),
    ensures
        final(out)@ == old(out)@ + v@.subrange(from as int, to as int),
{
    let mut k = from;
    while k < to
        invariant
            from <= k <= to,
            to <= v.len(),
            out@ == old(out)@ + v@.subrange(from as int, k as int),
        decreases to - k,
    {
        out.push(v[k]);
        k = k + 1;
        assert(out@ =~= old(out)@ + v@.subrange(from as int, k as int));
    }
}

/// Cuts `s` into lines of 64 characters joined by line feeds.
fn chunk_lines_exec(s: &str) -> (r: String)
    ensures
        r@ == chunk_lines(s@, 64),
{
    let v = chars_of(s);
    let mut out: Vec<char> = Vec::new();
    let mut start: usize = 0;
    assert(v@.subrange(0, v@.len() as int) == v@);
    assert(out@ + chunk_lines(v@, 64) =~= chunk_lines(v@, 64));
    while v.len() - start > 64
        invariant
            v@ == s@,
            start <= v.len(),
            out@ + chunk_lines(v@.subrange(start as int, v@.len() as int), 64) == chunk_lines(s@, 64),
        decreases v.len() - start,
    {
        let ghost rest = v@.subrange(start as int, v@.len() as int);
        let ghost before = out@;
        push_range(&mut out, &v, start, start + 64);
        out.push('\n');
        assert(rest.subrange(0, 64) == v@.subrange(start as int, start + 64));
        assert(rest.subrange(64, rest.len() as int) == v@.subrange(start + 64, v@.len() as int));
        assert(out@ == before + rest.subrange(0, 64) + seq!['\n']);
        start = start + 64;
    }
    let ghost before = out@;
    push_range(&mut out, &v, start, v.len());
    assert(out@ == chunk_lines(s@, 64));
    string_of(&out)
}

/// The public key of the X.509 certificate in the PEM text `content`, in PEM.
pub fn x509_to_pem(content: &[u8]) -> (r: Result<String, CertError>)
    ensures
        match pem_contents(content@) {
            None => r == Err::<String, CertError>(CertError::Pem),
            Some(der) => match x509_public_key_info(der) {
                None => r == Err::<String, CertError>(CertError::X509),
                Some(key) => r matches Ok(t) && t@ == public_key_pem(base64_encode_spec(key)),
            },
        },
{
    let der = match pem_decode(content) {
        Some(d) => d,
        None => return Err(CertError::Pem),
    };
    let key = match x509_public_key_der(der.as_slice()) {
        Some(k) => k,
        None => return Err(CertError::X509),
    };
    assert((key@.len() + 2) / 3 * 4 <= usize::MAX) by (nonlinear_arith)
        requires
            key@.len() <= isize::MAX,
            isize::MAX * 2 < usize::MAX,
    ;
    let pub_key = base64_standard_encode(key.as_slice());
    let lines = chunk_lines_exec(pub_key.as_str());
    let mut pem = String::from_str("-----BEGIN PUBLIC KEY-----\n");
    pem.append(lines.as_str());
    pem.append("\n-----END PUBLIC KEY-----\n");
    Ok(pem)
}

/// `t` lies in `[lo, hi]`.
pub open spec fn within(lo: int, hi: int, t: int) -> bool {
    lo <= t && t <= hi
}

/// Whether the instant `now` lies in the validity `[not_before, not_after]`
/// (all in Unix nanoseconds).
pub fn is_valid_at(not_before: i128, not_after: i128, now: i128) -> (b: bool)
    ensures
        b == (not_before <= now && now <= not_after),
{
    not_before <= now && now <= not_after
}

/// Whether the X.509 certificate in the PEM text `content` is valid at the
/// instant `now` (Unix nanoseconds), and when it expires (Unix seconds).
pub fn x509_is_valid_at(content: &[u8], now: i128) -> (r: Result<(bool, i64), CertError>)
    ensures
        match pem_contents(content@) {
            None => r == Err::<(bool, i64), CertError>(CertError::Pem),
            Some(der) => match x509_validity(der) {
                None => r == Err::<(bool, i64), CertError>(CertError::X509),
                Some(v) => r == Ok::<(bool, i64), CertError>(
                    (within(v.0, v.1, now as int), v.2 as i64),
                ),
            },
        },
{
    let der = match pem_decode(content) {
        Some(d) => d,
        None => return Err(CertError::Pem),
    };
    match x509_validity_times(der.as_slice()) {
        Some((not_before, not_after, expire)) => Ok(
            (is_valid_at(not_before, not_after, now), expire),
        ),
        None => Err(CertError::X509),
    }
}

/// Whether the X.509 certificate in the PEM text `content` is valid now, and
/// when it expires (Unix seconds).
pub fn x509_is_valid(content: &[u8]) -> (r: Result<(bool, i64), CertError>)
    ensures
        match pem_contents(content@) {
            None => r == Err::<(bool, i64), CertError>(CertError::Pem),
            Some(der) => match x509_validity(der) {
                None => r == Err::<(bool, i64), CertError>(CertError::X509),
                Some(v) => exists|now: i128|
                    r == Ok::<(bool, i64), CertError>((#[trigger] within(v.0, v.1, now as int), v.2 as i64)),
            },
        },
{
    let now = now_unix_nanos();
    let r = x509_is_valid_at(content, now);
    proof {
        if let Some(der) = pem_contents(content@) {
            if let Some(v) = x509_validity(der) {
                let w = within(v.0, v.1, now as int);
            }
        }
    }
    r
}

/// A text cut into pieces of `width` characters; the last one may be shorter.
pub open spec fn chunks(s: Seq<char>, width: nat) -> Seq<Seq<char>>
    decreases s.len(),
{
    if width == 0 || s.len() <= width {
        seq![s]
    } else {
        seq![s.subrange(0, width as int)] + chunks(s.subrange(width as int, s.len() as int), width)
    }
}

/// Cutting a text without line feeds into lines keeps every character: taking
/// the line feeds out again gives the text back.
pub proof fn lemma_chunk_lines_unsplit(s: Seq<char>, width: nat)
    requires
        width > 0,
        !s.contains('\n'),
    ensures
        remove_char(chunk_lines(s, width), '\n') == s,
    decreases s.len(),
{
    if s.len() <= width {
        assert forall|i: int| 0 <= i < s.len() implies s[i] != '\n' by {
            if s[i] == '\n' {
                assert(s.contains('\n'));
            }
        }
        lemma_remove_char_absent(s, '\n');
    } else {
        let a = s.subrange(0, width as int);
        let b = s.subrange(width as int, s.len() as int);
        let nl = seq!['\n'];
        assert forall|i: int| 0 <= i < a.len() implies a[i] != '\n' by {
            if a[i] == '\n' {
                assert(s[i] == '\n');
                assert(s.contains('\n'));
            }
        }
        assert(!b.contains('\n')) by {
            if b.contains('\n') {
                let k = choose|k: int| 0 <= k < b.len() && b[k] == '\n';
                assert(s[k + width] == '\n');
                assert(s.contains('\n'));
            }
        }
        lemma_chunk_lines_unsplit(b, width);
        lemma_remove_char_absent(a, '\n');
        lemma_remove_char_append(a, nl, '\n');
        lemma_remove_char_append(a + nl, chunk_lines(b, width), '\n');
        assert(remove_char(nl, '\n') == Seq::<char>::empty()) by {
            assert(nl.drop_last() == Seq::<char>::empty());
            assert(nl.last() == '\n');
            assert(remove_char(Seq::<char>::empty(), '\n') == Seq::<char>::empty());
        }
        assert(s =~= a + b);
    }
}

/// The lines of a text cut into lines are its pieces of `width` characters.
pub proof fn lemma_chunk_lines_split(s: Seq<char>, width: nat)
    requires
        width > 0,
        !s.contains('\n'),
    ensures
        split_by(chunk_lines(s, width), '\n') == chunks(s, width),
    decreases s.len(),
{
    if s.len() <= width {
        lemma_split_no_sep(s, '\n');
    } else {
        let a = s.subrange(0, width as int);
        let b = s.subrange(width as int, s.len() as int);
        assert(!a.contains('\n')) by {
            if a.contains('\n') {
                let k = choose|k: int| 0 <= k < a.len() && a[k] == '\n';
                assert(s[k] == '\n');
                assert(s.contains('\n'));
            }
        }
        assert(!b.contains('\n')) by {
            if b.contains('\n') {
                let k = choose|k: int| 0 <= k < b.len() && b[k] == '\n';
                assert(s[k + width] == '\n');
                assert(s.contains('\n'));
            }
        }
        lemma_chunk_lines_split(b, width);
        lemma_split_at_sep(a, '\n', chunk_lines(b, width));
        lemma_split_no_sep(a, '\n');
    }
}

/// Every piece is at most `width` characters long, and every piece but the
/// last exactly `width`.
pub proof fn lemma_chunks_width(s: Seq<char>, width: nat)
    requires
        width > 0,
    ensures
        forall|i: int| 0 <= i < chunks(s, width).len() ==> #[trigger] chunks(s, width)[i].len() <= width,
        forall|i: int| 0 <= i < chunks(s, width).len() - 1 ==> #[trigger] chunks(s, width)[i].len() == width,
    decreases s.len(),
{
    if s.len() > width {
        let b = s.subrange(width as int, s.len() as int);
        lemma_chunks_width(b, width);
        let c = chunks(s, width);
        assert forall|i: int| 0 <= i < c.len() implies #[trigger] c[i].len() <= width by {
            if i > 0 {
                assert(c[i] == chunks(b, width)[i - 1]);
            }
        }
        assert forall|i: int| 0 <= i < c.len() - 1 implies #[trigger] c[i].len() == width by {
            if i > 0 {
                assert(c[i] == chunks(b, width)[i - 1]);
            }
        }
    }
}

/// In the PEM text of a public key, the lines between the markers are the
/// Base64 text of the key cut into pieces of 64 characters, and joining them
/// back gives that text.
pub proof fn lemma_public_key_pem_lines(key: Seq<u8>)
    ensures
        remove_char(chunk_lines(base64_encode_spec(key), 64), '\n') == base64_encode_spec(key),
        split_by(chunk_lines(base64_encode_spec(key), 64), '\n') == chunks(base64_encode_spec(key), 64),
        forall|i: int|
            0 <= i < chunks(base64_encode_spec(key), 64).len() ==> #[trigger] chunks(
                base64_encode_spec(key),
                64,
            )[i].len() <= 64,
{
    lemma_base64_no_newline(key);
    lemma_chunk_lines_unsplit(base64_encode_spec(key), 64);
    lemma_chunk_lines_split(base64_encode_spec(key), 64);
    lemma_chunks_width(base64_encode_spec(key), 64);
}

} // verus!
