//! The errors that the library reports.

use vstd::prelude::*;

verus! {

/// Why a text was rejected as standard Base64 (the cases of
/// `base64::DecodeError`).
#[derive(Debug, Clone, Copy, PartialEq, Eq)]
pub enum DecodeError {
    /// A byte outside the alphabet, with its offset.
    InvalidByte(usize, u8),
    /// The length leaves a 6-bit remainder.
    InvalidLength,
    /// The last symbol carries bits that decoding would drop, with its offset.
    InvalidLastSymbol(usize, u8),
    /// Missing or misplaced padding.
    InvalidPadding,
}

/// Failure of a WeChat Pay operation.
#[derive(Debug, Clone, PartialEq, Eq)]
pub enum PayError {
    /// The server answered with an error.
    WechatError(String),
    /// A JSON text could not be read or written; the text of the error.
    JsonError(String),
    /// A callback could not be decrypted; the reason.
    DecryptError(String),
    /// A Base64 text could not be decoded.
    DecodeError(DecodeError),
    /// A signature could not be checked or did not match; the reason.
    VerifyError(String),
    /// No `weixin://` link in the H5 page.
    WeixinNotFound,
}

/// Why a certificate could not be read.
#[derive(Debug, Clone, Copy, PartialEq, Eq)]
pub enum CertError {
    /// The input is not PEM.
    Pem,
    /// The PEM content is not a DER X.509 certificate.
    X509,
}

} // verus!
