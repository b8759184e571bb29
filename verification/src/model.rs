//! The parameters of the payment and refund requests, and the content of the
//! payment callback.

use vstd::prelude::*;

verus! {

/// A request body that can be written as the JSON text the API expects.
pub trait ParamsTrait {
    fn to_json(&self) -> String;
}

/// Currency of an amount.
#[derive(Debug, Clone, Copy, PartialEq, Eq)]
pub enum Currency {
    CNY,
}

impl Currency {
    /// The ISO 4217 code, as the API writes it.
    pub fn to_string(&self) -> (s: String)
        ensures
            s@ == "CNY"@,
    {
        match self {
            Currency::CNY => String::from_str("CNY"),
        }
    }
}

/// Order amount.
#[derive(Debug, Clone, Copy, PartialEq, Eq)]
pub struct AmountInfo {
    /// Total amount of the order, in fen.
    pub total: i32,
}

impl From<i32> for AmountInfo {
    fn from(value: i32) -> (a: Self) {
        AmountInfo { total: value }
    }
}

impl vstd::std_specs::convert::FromSpecImpl<i32> for AmountInfo {
    open spec fn obeys_from_spec() -> bool {
        true
    }

    open spec fn from_spec(value: i32) -> AmountInfo {
        AmountInfo { total: value }
    }
}

/// The paying user.
#[derive(Debug, Clone, PartialEq, Eq)]
pub struct PayerInfo {
    /// The user's id under the merchant's appid.
    pub openid: String,
}

impl PayerInfo {
    /// The payer with the given openid.
    pub fn from_openid(openid: &str) -> (p: PayerInfo)
        ensures
            p.openid@ == openid@,
    {
        PayerInfo { openid: String::from_str(openid) }
    }
}

impl<'a> From<&'a str> for PayerInfo {
    /// The payer whose openid is `value`, as it is.
    fn from(value: &'a str) -> (p: Self)
        ensures
            p.openid@ == value@,
    {
        PayerInfo::from_openid(value)
    }
}

/// A string has no spec-level constructor, so `from` is described by
/// [`PayerInfo::from_openid`], which it calls.
impl<'a> vstd::std_specs::convert::FromSpecImpl<&'a str> for PayerInfo {
    open spec fn obeys_from_spec() -> bool {
        false
    }

    open spec fn from_spec(value: &'a str) -> PayerInfo {
        arbitrary()
    }
}

/// One item of an order.
#[derive(Debug, Clone, PartialEq, Eq)]
pub struct GoodsDetail {
    /// The merchant's code of the item.
    pub merchant_goods_id: String,
    /// Quantity bought.
    pub quantity: i32,
    /// Unit price, in fen.
    pub unit_price: i32,
    /// WeChat Pay's code of the item.
    pub wechatpay_goods_id: Option<String>,
    /// Name of the item.
    pub goods_name: Option<String>,
}

/// Discount details of an order.
#[derive(Debug, Clone, PartialEq, Eq)]
pub struct OrderDetail {
    /// Original price of the whole receipt.
    pub cost_price: Option<i32>,
    /// Receipt id.
    pub invoice_id: Option<String>,
    /// The items.
    pub goods_detail: Vec<GoodsDetail>,
}

/// A merchant's store.
#[derive(Debug, Clone, PartialEq, Eq)]
pub struct StoreInfo {
    /// Store id.
    pub id: String,
    /// Store name.
    pub name: Option<String>,
    /// Area code.
    pub area_code: Option<String>,
    /// Address.
    pub address: Option<String>,
}

/// Where the payment takes place.
#[derive(Debug, Clone, PartialEq, Eq)]
pub struct SceneInfo {
    /// The user's client IP (v4 or v6).
    pub payer_client_ip: String,
    /// The merchant's device id.
    pub device_id: Option<String>,
    /// The merchant's store.
    pub store_info: Option<StoreInfo>,
}

/// Kind of H5 scene.
#[derive(Debug, Clone, Copy, PartialEq, Eq)]
pub enum H5Type {
    Ios,
    Android,
    Wap,
}

impl H5Type {
    /// The name the API uses for the scene type.
    pub fn to_string(&self) -> (s: String)
        ensures
            s@ == match self {
                H5Type::Ios => "iOS"@,
                H5Type::Android => "Android"@,
                H5Type::Wap => "Wap"@,
            },
    {
        match self {
            H5Type::Ios => String::from_str("iOS"),
            H5Type::Android => String::from_str("Android"),
            H5Type::Wap => String::from_str("Wap"),
        }
    }
}

/// H5 scene details.
#[derive(Debug, Clone, PartialEq, Eq)]
pub struct H5Info {
    /// Scene type (written `type` in JSON).
    pub h5_type: String,
    /// Application name.
    pub app_name: Option<String>,
    /// Web site URL.
    pub app_url: Option<String>,
    /// iOS bundle id.
    pub bundle_id: Option<String>,
    /// Android package name.
    pub package_name: Option<String>,
}

/// Where an H5 payment takes place.
#[derive(Debug, Clone, PartialEq, Eq)]
pub struct H5SceneInfo {
    /// The user's client IP (v4 or v6).
    pub payer_client_ip: String,
    /// H5 scene details.
    pub h5_info: H5Info,
    /// The merchant's device id.
    pub device_id: Option<String>,
    /// The merchant's store.
    pub store_info: Option<StoreInfo>,
}

impl H5SceneInfo {
    /// A `Wap` scene for the given client IP, application name and URL.
    pub fn new(payer_client_ip: &str, app_name: &str, app_url: &str) -> (s: Self)
        ensures
            s.payer_client_ip@ == payer_client_ip@,
            s.h5_info.h5_type@ == "Wap"@,
            s.h5_info.app_name matches Some(n) && n@ == app_name@,
            s.h5_info.app_url matches Some(u) && u@ == app_url@,
            s.h5_info.bundle_id is None,
            s.h5_info.package_name is None,
            s.device_id is None,
            s.store_info is None,
    {
        H5SceneInfo {
            payer_client_ip: String::from_str(payer_client_ip),
            h5_info: H5Info {
                h5_type: H5Type::Wap.to_string(),
                app_name: Some(String::from_str(app_name)),
                app_url: Some(String::from_str(app_url)),
                bundle_id: None,
                package_name: None,
            },
            device_id: None,
            store_info: None,
        }
    }
}

/// Parameters of a JSAPI payment.
#[derive(Debug, Clone, PartialEq, Eq)]
pub struct JsapiParams {
    /// Description of the goods.
    pub description: String,
    /// The merchant's order number.
    pub out_trade_no: String,
    /// Order amount.
    pub amount: AmountInfo,
    /// The payer.
    pub payer: PayerInfo,
    /// Data returned as is in queries and callbacks.
    pub attach: Option<String>,
    /// Discount details.
    pub detail: Option<OrderDetail>,
    /// Expiry time (RFC 3339).
    pub time_expire: Option<String>,
    /// Scene.
    pub scene_info: Option<SceneInfo>,
}

impl JsapiParams {
    /// The parameters with the given description, order number, amount and
    /// payer, and no optional field.
    pub fn new(description: &str, out_trade_no: &str, amount: AmountInfo, payer: PayerInfo) -> (p: Self)
        ensures
            p.description@ == description@,
            p.out_trade_no@ == out_trade_no@,
            p.amount == amount,
            p.payer == payer,
            p.attach is None,
            p.detail is None,
            p.time_expire is None,
            p.scene_info is None,
    {
        JsapiParams {
            description: String::from_str(description),
            out_trade_no: String::from_str(out_trade_no),
            amount,
            payer,
            time_expire: None,
            attach: None,
            detail: None,
            scene_info: None,
        }
    }
}

/// Parameters of a mini-program payment.
#[derive(Debug, Clone, PartialEq, Eq)]
pub struct MicroParams {
    /// Description of the goods.
    pub description: String,
    /// The merchant's order number.
    pub out_trade_no: String,
    /// Order amount.
    pub amount: AmountInfo,
    /// The payer.
    pub payer: PayerInfo,
    /// Data returned as is in queries and callbacks.
    pub attach: Option<String>,
    /// Discount details.
    pub detail: Option<OrderDetail>,
    /// Expiry time (RFC 3339).
    pub time_expire: Option<String>,
    /// Scene.
    pub scene_info: Option<SceneInfo>,
}

impl MicroParams {
    /// The parameters with the given description, order number, amount and
    /// payer, and no optional field.
    pub fn new(description: &str, out_trade_no: &str, amount: AmountInfo, payer: PayerInfo) -> (p: Self)
        ensures
            p.description@ == description@,
            p.out_trade_no@ == out_trade_no@,
            p.amount == amount,
            p.payer == payer,
            p.attach is None,
            p.detail is None,
            p.time_expire is None,
            p.scene_info is None,
    {
        MicroParams {
            description: String::from_str(description),
            out_trade_no: String::from_str(out_trade_no),
            amount,
            payer,
            time_expire: None,
            attach: None,
            detail: None,
            scene_info: None,
        }
    }
}

/// Settlement details.
#[derive(Debug, Clone, Copy, PartialEq, Eq)]
pub struct SettleInfo {
    /// Whether the payment is to be shared.
    pub profit_sharing: Option<bool>,
}

/// Parameters of a Native (QR code) payment.
#[derive(Debug, Clone, PartialEq, Eq)]
pub struct NativeParams {
    /// Description of the goods.
    pub description: String,
    /// The merchant's order number.
    pub out_trade_no: String,
    /// Order amount.
    pub amount: AmountInfo,
    /// Expiry time (RFC 3339).
    pub time_expire: Option<String>,
    /// Data returned as is in queries and callbacks.
    pub attach: Option<String>,
    /// Goods tag for discounts.
    pub goods_tag: Option<String>,
    /// Whether an e-invoice entry is offered.
    pub support_fapiao: Option<bool>,
    /// Scene.
    pub scene_info: Option<SceneInfo>,
    /// Settlement details.
    pub settle_info: Option<SettleInfo>,
}

impl NativeParams {
    /// The parameters with the given description, order number and amount, and
    /// no optional field.
    pub fn new(description: &str, out_trade_no: &str, amount: AmountInfo) -> (p: Self)
        ensures
            p.description@ == description@,
            p.out_trade_no@ == out_trade_no@,
            p.amount == amount,
            p.time_expire is None,
            p.attach is None,
            p.goods_tag is None,
            p.support_fapiao is None,
            p.scene_info is None,
            p.settle_info is None,
    {
        NativeParams {
            description: String::from_str(description),
            out_trade_no: String::from_str(out_trade_no),
            amount,
            time_expire: None,
            attach: None,
            goods_tag: None,
            support_fapiao: None,
            scene_info: None,
            settle_info: None,
        }
    }
}

/// Parameters of an App payment.
#[derive(Debug, Clone, PartialEq, Eq)]
pub struct AppParams {
    /// Description of the goods.
    pub description: String,
    /// The merchant's order number.
    pub out_trade_no: String,
    /// Order amount.
    pub amount: AmountInfo,
    /// Expiry time (RFC 3339).
    pub time_expire: Option<String>,
    /// Data returned as is in queries and callbacks.
    pub attach: Option<String>,
    /// Goods tag for discounts.
    pub goods_tag: Option<String>,
    /// Whether an e-invoice entry is offered.
    pub support_fapiao: Option<bool>,
    /// Discount details.
    pub detail: Option<OrderDetail>,
    /// Scene.
    pub scene_info: Option<SceneInfo>,
    /// Settlement details.
    pub settle_info: Option<SettleInfo>,
}

impl AppParams {
    /// The parameters with the given description, order number and amount, and
    /// no optional field.
    pub fn new(description: &str, out_trade_no: &str, amount: AmountInfo) -> (p: Self)
        ensures
            p.description@ == description@,
            p.out_trade_no@ == out_trade_no@,
            p.amount == amount,
            p.time_expire is None,
            p.attach is None,
            p.goods_tag is None,
            p.support_fapiao is None,
            p.detail is None,
            p.scene_info is None,
            p.settle_info is None,
    {
        AppParams {
            description: String::from_str(description),
            out_trade_no: String::from_str(out_trade_no),
            amount,
            time_expire: None,
            attach: None,
            goods_tag: None,
            support_fapiao: None,
            detail: None,
            scene_info: None,
            settle_info: None,
        }
    }
}

/// Parameters of an H5 payment.
#[derive(Debug, Clone, PartialEq, Eq)]
pub struct H5Params {
    /// Description of the goods.
    pub description: String,
    /// The merchant's order number.
    pub out_trade_no: String,
    /// Order amount.
    pub amount: AmountInfo,
    /// Expiry time (RFC 3339).
    pub time_expire: Option<String>,
    /// Data returned as is in queries and callbacks.
    pub attach: Option<String>,
    /// Goods tag for discounts.
    pub goods_tag: Option<String>,
    /// Whether an e-invoice entry is offered.
    pub support_fapiao: Option<bool>,
    /// Scene.
    pub scene_info: H5SceneInfo,
    /// Settlement details.
    pub settle_info: Option<SettleInfo>,
}

impl H5Params {
    /// The parameters with the given description, order number, amount and
    /// scene, and no optional field.
    pub fn new(description: &str, out_trade_no: &str, amount: AmountInfo, scene_info: H5SceneInfo) -> (p: Self)
        ensures
            p.description@ == description@,
            p.out_trade_no@ == out_trade_no@,
            p.amount == amount,
            p.scene_info == scene_info,
            p.time_expire is None,
            p.attach is None,
            p.goods_tag is None,
            p.support_fapiao is None,
            p.settle_info is None,
    {
        H5Params {
            description: String::from_str(description),
            out_trade_no: String::from_str(out_trade_no),
            amount,
            time_expire: None,
            attach: None,
            goods_tag: None,
            support_fapiao: None,
            scene_info,
            settle_info: None,
        }
    }
}

/// The encrypted resource of a payment callback.
#[derive(Debug, Clone, PartialEq, Eq)]
pub struct WechatPayNotifySource {
    pub algorithm: String,
    pub ciphertext: String,
    pub associated_data: Option<String>,
    pub original_type: String,
    pub nonce: String,
}

/// A payment callback.
#[derive(Debug, Clone, PartialEq, Eq)]
pub struct WechatPayNotify {
    pub id: String,
    pub create_time: String,
    pub event_type: String,
    pub resource_type: String,
    pub resource: WechatPayNotifySource,
    pub summary: String,
}

/// The decrypted content of a payment callback.
#[derive(Debug, Clone, PartialEq, Eq)]
pub struct WechatPayDecodeData {
    pub mchid: String,
    pub appid: String,
    pub out_trade_no: String,
    pub transaction_id: String,
    pub trade_type: String,
    pub trade_state: String,
    pub trade_state_desc: String,
    pub bank_type: String,
    pub attach: String,
    pub success_time: String,
    pub payer: PayerInfo,
    pub amount: AmountInfo,
}

/// Parameters of a refund.
#[derive(Debug, Clone, PartialEq, Eq)]
pub struct RefundsParams {
    /// WeChat Pay's order number (this or `out_trade_no` is given).
    pub transaction_id: Option<String>,
    /// The merchant's order number (this or `transaction_id` is given).
    pub out_trade_no: Option<String>,
    /// The merchant's refund number.
    pub out_refund_no: String,
    /// Reason shown to the user.
    pub reason: Option<String>,
    /// Callback URL of the refund result.
    pub notify_url: Option<String>,
    /// Account the refund is paid from.
    pub funds_account: Option<String>,
    /// Amounts.
    pub amount: RefundsAmountParams,
    /// Items refunded.
    pub goods_detail: Option<Vec<RefundsGoodsDetailParams>>,
}

/// Amounts of a refund.
#[derive(Debug, Clone, PartialEq, Eq)]
pub struct RefundsAmountParams {
    /// Amount refunded, in fen.
    pub refund: i32,
    /// Total of the original order, in fen.
    pub total: i32,
    /// Currency code; always `CNY`.
    pub currency: String,
    /// Accounts paying the refund.
    pub from: Option<Vec<RefundsFromParams>>,
}

/// An account paying part of a refund.
#[derive(Debug, Clone, PartialEq, Eq)]
pub struct RefundsFromParams {
    /// Account type.
    pub account: String,
    /// Amount, in fen.
    pub amount: i32,
}

/// An item refunded.
#[derive(Debug, Clone, PartialEq, Eq)]
pub struct RefundsGoodsDetailParams {
    pub merchant_goods_id: String,
    pub wechatpay_goods_id: Option<String>,
    pub goods_name: Option<String>,
    pub unit_price: i32,
    pub refund_amount: i32,
    pub refund_quantity: i32,
}

fn copy_option(s: Option<&str>) -> (r: Option<String>)
    ensures
        match s {
            Some(t) => r matches Some(u) && u@ == t@,
            None => r is None,
        },
{
    match s {
        Some(t) => Some(String::from_str(t)),
        None => None,
    }
}

impl RefundsParams {
    /// A refund of `refund` out of `total` fen, in CNY, for the order named by
    /// `transaction_id` or `out_trade_no`, with no optional field.
    pub fn new(
        out_refund_no: &str,
        total: i32,
        refund: i32,
        transaction_id: Option<&str>,
        out_trade_no: Option<&str>,
    ) -> (p: Self)
        ensures
            p.out_refund_no@ == out_refund_no@,
            p.amount.total == total,
            p.amount.refund == refund,
            p.amount.currency@ == "CNY"@,
            p.amount.from is None,
            match transaction_id {
                Some(t) => p.transaction_id matches Some(u) && u@ == t@,
                None => p.transaction_id is None,
            },
            match out_trade_no {
                Some(t) => p.out_trade_no matches Some(u) && u@ == t@,
                None => p.out_trade_no is None,
            },
            p.reason is None,
            p.notify_url is None,
            p.funds_account is None,
            p.goods_detail is None,
    {
        let amount = RefundsAmountParams {
            refund,
            total,
            currency: Currency::CNY.to_string(),
            from: None,
        };
        RefundsParams {
            transaction_id: copy_option(transaction_id),
            out_trade_no: copy_option(out_trade_no),
            out_refund_no: String::from_str(out_refund_no),
            reason: None,
            notify_url: None,
            funds_account: None,
            amount,
            goods_detail: None,
        }
    }
}

} // verus!
