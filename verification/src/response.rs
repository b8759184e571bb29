//! The answers of the WeChat Pay API.

use vstd::prelude::*;

verus! {

/// An answer body of the API.
pub trait ResponseTrait {

}

/// Answer to a Native payment.
#[derive(Debug, Clone, PartialEq, Eq)]
pub struct NativeResponse {
    pub code: Option<String>,
    pub message: Option<String>,
    /// The link to render as a QR code.
    pub code_url: Option<String>,
}

impl ResponseTrait for NativeResponse {

}

/// What a client needs to start a prepaid payment: the fields it signs and the
/// signature.
#[derive(Debug, Clone, PartialEq, Eq)]
pub struct SignData {
    pub app_id: String,
    pub sign_type: String,
    pub package: String,
    pub nonce_str: String,
    pub timestamp: String,
    pub pay_sign: String,
}

/// Answer to a JSAPI payment.
#[derive(Debug, Clone, PartialEq, Eq)]
pub struct JsapiResponse {
    pub code: Option<String>,
    pub message: Option<String>,
    /// The prepay session id, valid for two hours.
    pub prepay_id: Option<String>,
    /// The data the client signs with, once filled in.
    pub sign_data: Option<SignData>,
}

impl ResponseTrait for JsapiResponse {

}

/// Answer to an App payment.
#[derive(Debug, Clone, PartialEq, Eq)]
pub struct AppResponse {
    pub code: Option<String>,
    pub message: Option<String>,
    /// The prepay session id, valid for two hours.
    pub prepay_id: Option<String>,
    /// The data the client signs with, once filled in.
    pub sign_data: Option<SignData>,
}

impl ResponseTrait for AppResponse {

}

/// Answer to a mini-program payment.
#[derive(Debug, Clone, PartialEq, Eq)]
pub struct MicroResponse {
    pub code: Option<String>,
    pub message: Option<String>,
    /// The prepay session id, valid for two hours.
    pub prepay_id: Option<String>,
    /// The data the client signs with, once filled in.
    pub sign_data: Option<SignData>,
}

impl ResponseTrait for MicroResponse {

}

/// Answer to an H5 payment.
#[derive(Debug, Clone, PartialEq, Eq)]
pub struct H5Response {
    pub code: Option<String>,
    pub message: Option<String>,
    /// The page that opens the WeChat cashier, valid for five minutes.
    pub h5_url: Option<String>,
}

impl ResponseTrait for H5Response {

}

/// An encrypted platform certificate.
#[derive(Debug, Clone, PartialEq, Eq)]
pub struct EncryptCertificate {
    pub algorithm: String,
    pub nonce: String,
    pub associated_data: String,
    pub ciphertext: String,
}

/// A platform certificate and its validity.
#[derive(Debug, Clone, PartialEq, Eq)]
pub struct Certificate {
    pub serial_no: String,
    pub effective_time: String,
    pub expire_time: String,
    pub encrypt_certificate: EncryptCertificate,
}

/// Answer to the certificate download.
#[derive(Debug, Clone, PartialEq, Eq)]
pub struct CertificateResponse {
    pub data: Option<Vec<Certificate>>,
}

impl ResponseTrait for CertificateResponse {

}

/// The error answer of the API.
#[derive(Debug, Clone, PartialEq, Eq)]
pub struct ErrorResponse {
    /// Error code.
    pub code: Option<String>,
    /// Error message.
    pub message: Option<String>,
}

/// An answer that is either the expected body (`Success`) or an error body
/// (`Failure`).
#[derive(Debug, Clone, PartialEq, Eq)]
pub enum WeChatResponse<T> {
    Success(T),
    Failure(ErrorResponse),
}

impl<T> ResponseTrait for WeChatResponse<T> {

}

impl<T> WeChatResponse<T> {
    /// Whether the answer is the expected body.
    pub fn is_success(&self) -> (b: bool)
        ensures
            b == self is Success,
    {
        match self {
            WeChatResponse::Success(_) => true,
            WeChatResponse::Failure(_) => false,
        }
    }

    /// The expected body, if that is what the answer is.
    pub fn ok(&self) -> (r: Option<&T>)
        ensures
            match self {
                WeChatResponse::Success(t) => r == Some(t),
                WeChatResponse::Failure(_) => r is None,
            },
    {
        match self {
            WeChatResponse::Success(response) => Some(response),
            WeChatResponse::Failure(_) => None,
        }
    }

    /// The error body, if that is what the answer is.
    pub fn err(&self) -> (r: Option<&ErrorResponse>)
        ensures
            match self {
                WeChatResponse::Success(_) => r is None,
                WeChatResponse::Failure(e) => r == Some(e),
            },
    {
        match self {
            WeChatResponse::Success(_) => None,
            WeChatResponse::Failure(error_response) => Some(error_response),
        }
    }
}

/// Exactly one of `ok` and `err` answers something, and `is_success` tells
/// which.
pub proof fn lemma_response_ok_or_err<T>(r: WeChatResponse<T>)
    ensures
        (r is Success) != (r is Failure),
{
}

/// Answer to a refund.
#[derive(Debug, Clone, PartialEq, Eq)]
pub struct RefundsResponse {
    pub refund_id: String,
    pub out_refund_no: String,
    pub transaction_id: String,
    pub out_trade_no: String,
    pub channel: String,
    pub user_received_account: String,
    pub success_time: Option<String>,
    pub create_time: String,
    pub status: String,
    pub funds_account: String,
    pub amount: RefundsAmountResponse,
    pub promotion_detail: Option<Vec<RefundsPromotionDetailResponse>>,
}

impl ResponseTrait for RefundsResponse {

}

/// Amounts of a refund answer.
#[derive(Debug, Clone, PartialEq, Eq)]
pub struct RefundsAmountResponse {
    pub total: i32,
    pub refund: i32,
    pub from: Option<Vec<RefundsFromResponse>>,
    pub payer_total: i32,
    pub payer_refund: i32,
    pub settlement_refund: i32,
    pub settlement_total: i32,
    pub discount_refund: i32,
    pub currency: String,
    pub refund_fee: Option<i32>,
}

/// An account that paid part of a refund.
#[derive(Debug, Clone, PartialEq, Eq)]
pub struct RefundsFromResponse {
    pub account: String,
    pub amount: i32,
}

/// A coupon refunded.
#[derive(Debug, Clone, PartialEq, Eq)]
pub struct RefundsPromotionDetailResponse {
    pub promotion_id: String,
    pub scope: String,
    /// The coupon's funding type (`type` in JSON).
    pub promotion_type: String,
    pub amount: i32,
    pub refund_amount: i32,
    pub goods_detail: Option<Vec<RefundsGoodsDetailResponse>>,
}

/// An item of a refund answer.
#[derive(Debug, Clone, PartialEq, Eq)]
pub struct RefundsGoodsDetailResponse {
    pub merchant_goods_id: Option<String>,
    pub wechatpay_goods_id: Option<String>,
    pub goods_name: Option<String>,
    pub unit_price: i32,
    pub refund_amount: i32,
    pub refund_quantity: i32,
}

} // verus!
