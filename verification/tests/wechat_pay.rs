//! Tests of the WeChat Pay client library.

use wechat_pay_rust_sdk::blocking::pay::{weixin_from_page, PayRequest};
use wechat_pay_rust_sdk::error::{CertError, DecodeError, PayError};
use wechat_pay_rust_sdk::model::{
    AmountInfo, AppParams, Currency, H5Params, H5SceneInfo, H5Type, JsapiParams, MicroParams,
    NativeParams, PayerInfo, RefundsParams,
};
use wechat_pay_rust_sdk::pay::WechatPay;
use wechat_pay_rust_sdk::pay_type::PayType;
use wechat_pay_rust_sdk::request::HttpMethod;
use wechat_pay_rust_sdk::response::{
    AppResponse, ErrorResponse, JsapiResponse, MicroResponse, WeChatResponse,
};
use wechat_pay_rust_sdk::sign::{sha256_sign, try_sha256_sign};
use wechat_pay_rust_sdk::text::i64_to_decimal;
use wechat_pay_rust_sdk::util::{
    base64_decode, base64_encode, is_valid_at, random_trade_no, x509_is_valid, x509_is_valid_at,
    x509_to_pem,
};

/// The numbers of the merchant's test RSA key, in the order of PKCS #1:
/// modulus, public and private exponents, the two primes, the two CRT
/// exponents and the CRT coefficient. The key is short (512 bits) so that
/// signing stays quick in unoptimised test builds.
const MERCHANT_KEY_NUMBERS: [&str; 8] = [
    "10424567947200935748991992359128644970270104630238796702115787655396538471202312230167916204127096905977012150980833151950071188974256981640873161270025533",
    "65537",
    "373163806767679253965473153707307339369419800456844485758634631422864629956210162721225893756706760983932612101651148476971436243764956461550854734816257",
    "102297077392323414497526758004994122317745531395380664230660499308174806848897",
    "101904846286285174112169242881155449346046770220131793562573647678214615072189",
    "45089883190137578384577497573741019750564035055287261358180719952320759959169",
    "78526611641515080992611366159331560841571234411967222156905173490473999273321",
    "101101430685905468407337883331586216919184336640820129619352254728894365689736",
];

/// The big-endian bytes of a decimal number (no leading zero byte).
fn decimal_to_bytes(decimal: &str) -> Vec<u8> {
    let mut bytes: Vec<u8> = Vec::new();
    for digit in decimal.bytes() {
        let mut carry = u32::from(digit - b'0');
        for b in bytes.iter_mut().rev() {
            let v = u32::from(*b) * 10 + carry;
            *b = (v & 0xff) as u8;
            carry = v >> 8;
        }
        while carry > 0 {
            bytes.insert(0, (carry & 0xff) as u8);
            carry >>= 8;
        }
    }
    bytes
}

/// A DER element with the given tag and content.
fn der(tag: u8, content: &[u8]) -> Vec<u8> {
    let mut out = vec![tag];
    let n = content.len();
    if n < 128 {
        out.push(n as u8);
    } else if n < 256 {
        out.push(0x81);
        out.push(n as u8);
    } else {
        out.push(0x82);
        out.push((n >> 8) as u8);
        out.push((n & 0xff) as u8);
    }
    out.extend_from_slice(content);
    out
}

/// A DER INTEGER holding a non-negative decimal number.
fn der_uint(decimal: &str) -> Vec<u8> {
    let mut b = decimal_to_bytes(decimal);
    if b.is_empty() || b[0] & 0x80 != 0 {
        b.insert(0, 0);
    }
    der(0x02, &b)
}

/// The merchant's private key as a PKCS #8 PEM text, assembled from its
/// numbers.
fn private_key() -> String {
    let mut fields = der_uint("0");
    for n in MERCHANT_KEY_NUMBERS {
        fields.extend(der_uint(n));
    }
    let rsa_key = der(0x30, &fields);
    let mut algorithm = der(0x06, &[0x2a, 0x86, 0x48, 0x86, 0xf7, 0x0d, 0x01, 0x01, 0x01]);
    algorithm.extend_from_slice(&[0x05, 0x00]);
    let algorithm = der(0x30, &algorithm);
    let mut info = der_uint("0");
    info.extend(algorithm);
    info.extend(der(0x04, &rsa_key));
    let info = der(0x30, &info);
    let text = base64_encode(&info);
    let lines: Vec<&str> = text
        .as_bytes()
        .chunks(64)
        .map(|c| std::str::from_utf8(c).unwrap())
        .collect();
    let label = ["PRIVATE", "KEY"].join(" ");
    format!("-----BEGIN {}-----\n{}\n-----END {}-----\n", label, lines.join("\n"), label)
}

/// The public half of the merchant's key.
const MERCHANT_PUBLIC_KEY: &str = "-----BEGIN PUBLIC KEY-----
MFwwDQYJKoZIhvcNAQEBBQADSwAwSAJBAMcKOgneWu83kbPWT5z2kCU43S2Ux4UC
MGUOH4F+Bfu7DBkELOhD19EqMwZ2hlwB/c+/v2vpAUhohwZD5mPI3T0CAwEAAQ==
-----END PUBLIC KEY-----
";

/// The platform's public key, the one in `CERTIFICATE`.
const PUBLIC_KEY: &str = "-----BEGIN PUBLIC KEY-----
MIGfMA0GCSqGSIb3DQEBAQUAA4GNADCBiQKBgQDa0as7VHndcfINKPqaRCYydJAR
ijiLHHByh0bcVtCRzwkgRcYr1MDOlZKuDKy3HzEl4AXaoFqGdhGLZStNvG1MSvB0
RBsM02D7oFhsoGOauTwJ5pSlgo7PIWl69oEgbxREbrrfFaTJolLcUHCGKn5Rb6o8
GcJcIqZxfwO7w1yQMQIDAQAB
-----END PUBLIC KEY-----
";

const CERTIFICATE: &str = "-----BEGIN CERTIFICATE-----
MIIB+TCCAWKgAwIBAgIBATANBgkqhkiG9w0BAQsFADAYMRYwFAYDVQQDDA1UZXN0
IFBsYXRmb3JtMB4XDTI2MTExOTA5MTM1M1oXDTM2MTExNjA5MTM1M1owGDEWMBQG
A1UEAwwNVGVzdCBQbGF0Zm9ybTCBnzANBgkqhkiG9w0BAQEFAAOBjQAwgYkCgYEA
2tGrO1R53XHyDSj6mkQmMnSQEYo4ixxwcodG3FbQkc8JIEXGK9TAzpWSrgystx8x
JeAF2qBahnYRi2UrTbxtTErwdEQbDNNg+6BYbKBjmrk8CeaUpYKOzyFpevaBIG8U
RG663xWkyaJS3FBwhip+UW+qPBnCXCKmcX8Du8NckDECAwEAAaNTMFEwHQYDVR0O
BBYEFO+8ialthdeCmXW39T6Tcn0tccjSMB8GA1UdIwQYMBaAFO+8ialthdeCmXW3
9T6Tcn0tccjSMA8GA1UdEwEB/wQFMAMBAf8wDQYJKoZIhvcNAQELBQADgYEAffPr
CRs+JHZ/fV+8LzuP0E3kPUELIRXNRv81/aySRUmoWCUaBC4CLPIPxJp3jDe9yTGZ
L2RL7v1BVIsGl+duPKzil2TyGirlFUIdwKArtl75S8vHouN0e4hi0SB7EiQDHLdu
2RptaqsIx3/97QbBqOTRmxmlw/F4mzNce7HqvnM=
-----END CERTIFICATE-----
";

const V3_KEY: &str = "0123456789abcdef0123456789abcdef";

const CIPHERTEXT: &str = "Knx2V6OJh7IZyJG6J6Yzhy2XTsSw9pLag9paO93Pq5nRohqWcYcDrsDc2FNMUW7ZwSTDFuwC6z4YmFQlUSJ4l8+UoKuEsrZb5/RVw1nEHCGA2+rwgG/TQ7fzLWCp1OqLUtss1tmOhzdSSbG7FEBHPUl7OS/ILht8+mm+oce+fnlVN8mVDSnjDOiCrzNMHvU/6Gd1Zd0BoZ19pij3qo7BIoN//pMPWi09xkVCW1Qh/jAkFIG0cJBZavYnQqdPZh9V+AyOIZbGAvrM6aK2IovVHDV9oiFPgycG0ANplS8V43cZ4rv5jSj4NrwmODjj8JF+aSuWbzP3SUAZz10wUYTxgOrfzlJAGKqkugQ5seF8kb6ubKvdtUIXBflhTqby7PYHAqv2W51tbF/Z5KqfxGcJxirLpChib0RTWzdtK+BOK0vDw4MFyhuGaN+FZ07xBYuzYBSJRf2DOlm091OkRjBd+PBKAX6i8VVG1lNFQHJ1k6MvVAxocELDiM+/xdo=";

const PLAINTEXT: &str = r#"{"mchid":"1900000001","appid":"wx0000000000000001","out_trade_no":"8e289eebd1f44604b0b27e05f11bcf10","transaction_id":"4200001926202401125681342683","trade_type":"MWEB","trade_state":"SUCCESS","trade_state_desc":"OK","bank_type":"OTHERS","attach":"","success_time":"2024-01-12T10:36:13+08:00","payer":{"openid":"oAZUY6DittOj59wCzPn6vNgpK2eY"},"amount":{"total":1}}"#;

const NONCE: &str = "0123456789ABCDEF0123456789ABCDEF";

fn merchant() -> WechatPay {
    WechatPay::new(
        "wx0000000000000001",
        "1900000001",
        &private_key(),
        "SERIAL0001",
        V3_KEY,
        "https://mydomain.com/pay/notify",
    )
}

fn is_upper_hex(c: char) -> bool {
    c.is_ascii_digit() || ('A'..='F').contains(&c)
}

fn is_lower_hex(c: char) -> bool {
    c.is_ascii_digit() || ('a'..='f').contains(&c)
}

fn header<'a>(req: &'a PayRequest, name: &str) -> &'a str {
    req.headers.iter().find(|(n, _)| n == name).map(|(_, v)| v.as_str()).unwrap()
}

#[test]
fn test_str() {
    let str = r#" deeplink : "weixin://wap/pay?prepayid%3Dwx122129234529163c948432e26bc0030000&package=4206921243&noncestr=1705066163&sign=788bc4a9f8f44c6f708aff38c4b48a85""#;
    let link = weixin_from_page(str).unwrap();
    assert_eq!(
        link,
        Some("weixin://wap/pay?prepayid%3Dwx122129234529163c948432e26bc0030000&package=4206921243&noncestr=1705066163&sign=788bc4a9f8f44c6f708aff38c4b48a85".to_string())
    );
}

#[test]
fn weixin_link_in_second_line() {
    let page = "<html>\n<script>var url = \"https://x\"; var deeplink = \"weixin://wap/pay?a=1\";</script>\n<p>weixin://other</p>";
    assert_eq!(weixin_from_page(page), Ok(Some("weixin://wap/pay?a=1".to_string())));
}

#[test]
fn weixin_link_missing() {
    assert_eq!(weixin_from_page("<html>\nno link\n</html>"), Err(PayError::WeixinNotFound));
    assert_eq!(weixin_from_page(""), Err(PayError::WeixinNotFound));
}

#[test]
fn test_pay_type() {
    let pay_type = PayType::Micro;
    assert_eq!(pay_type.to_string(), "MICRO");
    assert_eq!(PayType::Qrcode.to_string(), "QRCODE");
    assert_eq!(PayType::H5.to_string(), "H5");
}

#[test]
fn http_method_names() {
    assert_eq!(HttpMethod::GET.to_string(), "GET");
    assert_eq!(HttpMethod::POST.to_string(), "POST");
    assert_eq!(HttpMethod::OPTIONS.to_string(), "OPTIONS");
}

#[test]
fn currency_and_h5_type_names() {
    assert_eq!(Currency::CNY.to_string(), "CNY");
    assert_eq!(H5Type::Ios.to_string(), "iOS");
    assert_eq!(H5Type::Android.to_string(), "Android");
    assert_eq!(H5Type::Wap.to_string(), "Wap");
}

#[test]
fn test_uuid_v4() {
    let wechat_pay = merchant();
    let nonce = wechat_pay.nonce_str();
    assert_eq!(nonce.len(), 32);
    assert!(nonce.chars().all(is_upper_hex));
    let timestamp = wechat_pay.now_timestamp();
    assert!(timestamp.parse::<i64>().unwrap() > 1_700_000_000);
}

#[test]
fn random_trade_no_shape() {
    let a = random_trade_no();
    let b = random_trade_no();
    assert_eq!(a.len(), 32);
    assert!(a.chars().all(is_lower_hex));
    assert_ne!(a, b);
}

#[test]
fn decimal_text() {
    assert_eq!(i64_to_decimal(0), "0");
    assert_eq!(i64_to_decimal(7), "7");
    assert_eq!(i64_to_decimal(1705066785), "1705066785");
    assert_eq!(i64_to_decimal(-42), "-42");
    assert_eq!(i64_to_decimal(i64::MAX), "9223372036854775807");
    assert_eq!(i64_to_decimal(i64::MIN), "-9223372036854775808");
}

#[test]
fn base64_round_trip() {
    assert_eq!(base64_encode(b""), "");
    assert_eq!(base64_encode(b"h"), "aA==");
    assert_eq!(base64_encode(b"he"), "aGU=");
    assert_eq!(base64_encode(b"hello"), "aGVsbG8=");
    assert_eq!(base64_encode(&[0xfb, 0xff, 0xbf]), "+/+/");
    assert_eq!(base64_decode(b"aGVsbG8=").unwrap(), b"hello".to_vec());
    assert_eq!(base64_decode(b"!!!!"), Err(DecodeError::InvalidByte(0, b'!')));
    assert_eq!(base64_decode(b"aGVsbG8"), Err(DecodeError::InvalidPadding));
    assert_eq!(base64_decode(b"aGVsb"), Err(DecodeError::InvalidLength));
    assert_eq!(base64_decode(b"aB=="), Err(DecodeError::InvalidLastSymbol(1, b'B')));
}

#[test]
fn model_constructors() {
    let amount: AmountInfo = 1.into();
    assert_eq!(amount.total, 1);
    let payer: PayerInfo = "open_id".into();
    assert_eq!(payer.openid, "open_id");

    let p = JsapiParams::new("测试支付1分", "1243243", 1.into(), "open_id".into());
    assert_eq!(p.description, "测试支付1分");
    assert_eq!(p.out_trade_no, "1243243");
    assert_eq!(p.amount.total, 1);
    assert_eq!(p.payer.openid, "open_id");
    assert!(p.attach.is_none() && p.detail.is_none() && p.time_expire.is_none());
    assert!(p.scene_info.is_none());

    let m = MicroParams::new("d", "o", 2.into(), "u".into());
    assert_eq!((m.description.as_str(), m.out_trade_no.as_str(), m.amount.total), ("d", "o", 2));

    let n = NativeParams::new("d", "o", 3.into());
    assert!(n.goods_tag.is_none() && n.support_fapiao.is_none() && n.settle_info.is_none());

    let a = AppParams::new("d", "o", 4.into());
    assert_eq!(a.amount.total, 4);
    assert!(a.detail.is_none());

    let scene = H5SceneInfo::new("183.6.105.141", "ipa软件下载", "https://mydomain.com");
    assert_eq!(scene.payer_client_ip, "183.6.105.141");
    assert_eq!(scene.h5_info.h5_type, "Wap");
    assert_eq!(scene.h5_info.app_name.as_deref(), Some("ipa软件下载"));
    assert_eq!(scene.h5_info.app_url.as_deref(), Some("https://mydomain.com"));
    assert!(scene.h5_info.bundle_id.is_none() && scene.device_id.is_none());

    let h = H5Params::new("d", "o", 5.into(), scene.clone());
    assert_eq!(h.scene_info, scene);

    let r = RefundsParams::new("123456", 10, 1, None, Some("123456"));
    assert_eq!(r.out_refund_no, "123456");
    assert_eq!((r.amount.total, r.amount.refund), (10, 1));
    assert_eq!(r.amount.currency, "CNY");
    assert_eq!(r.transaction_id, None);
    assert_eq!(r.out_trade_no.as_deref(), Some("123456"));
}

#[test]
fn wechat_response_accessors() {
    let ok: WeChatResponse<i32> = WeChatResponse::Success(7);
    assert!(ok.is_success());
    assert_eq!(ok.ok(), Some(&7));
    assert!(ok.err().is_none());
    let err: WeChatResponse<i32> = WeChatResponse::Failure(ErrorResponse {
        code: Some("PARAM_ERROR".to_string()),
        message: None,
    });
    assert!(!err.is_success());
    assert!(err.ok().is_none());
    assert_eq!(err.err().unwrap().code.as_deref(), Some("PARAM_ERROR"));
}

#[test]
fn merchant_accessors() {
    let p = merchant();
    assert_eq!(p.appid(), "wx0000000000000001");
    assert_eq!(p.mch_id(), "1900000001");
    assert_eq!(p.serial_no(), "SERIAL0001");
    assert_eq!(p.v3_key(), V3_KEY);
    assert_eq!(p.notify_url(), "https://mydomain.com/pay/notify");
    assert_eq!(p.private_key(), private_key());
    assert_eq!(p.base_url(), "https://api.mch.weixin.qq.com");
    let q = p.with_base_url("http://localhost:8080");
    assert_eq!(q.base_url(), "http://localhost:8080");
    assert_eq!(q.appid(), "wx0000000000000001");
}

#[test]
fn test_rsa_sign() {
    let wechat_pay = merchant();
    let sign_str = wechat_pay.rsa_sign("hello");
    assert_eq!(
        sign_str,
        "k0F94hBvdx3h/V/SrIF2rcXO6GRBh+3Nt3Mbn4RnXfVMyMWeu04hgOkicCUKef1J87ViFhcjeSeOnid352jLlw=="
    );
    assert_eq!(sha256_sign(&private_key(), "hello"), sign_str);
}

#[test]
fn signing_with_bad_key() {
    assert_eq!(try_sha256_sign("not a key", "hello"), None);
    assert_eq!(try_sha256_sign(&private_key(), "hello").is_some(), true);
    let bad = WechatPay::new("a", "m", "not a key", "s", V3_KEY, "n");
    assert_eq!(bad.build_header(HttpMethod::GET, "/v3/certificates", ""), None);
    assert_eq!(bad.mut_sign_data("prepay_id=", "wx1"), None);
    assert_eq!(bad.certificates(), None);
}

#[test]
fn test_verify_sign() {
    let wechat_pay = merchant();
    let signature = "vYE3pyw9sGm4Z+suIKN6yUaZmc7uaPouUBA8I9GEQwNX7ux2oiZMERZhYZJvEaaDr2CHdUNW6rDEWOejj+rp+K+etmP+T7+vcwvbv0cZpZen6PWwJETjSIpTpEe6nyJ7dFG0JnjhZBRDnKlSH3oczqjmy/GuvszEcsvkXjyTUCg=";
    let body = r#"{"id":"29a61973"}"#;
    assert_eq!(
        wechat_pay.verify_signatrue(PUBLIC_KEY, "1705066785", "Jh9oPZelCJIQeQ47kz4stzvDKpLEUhCX", signature, body),
        Ok(())
    );
    assert_eq!(
        wechat_pay.verify_signatrue(PUBLIC_KEY, "1705066786", "Jh9oPZelCJIQeQ47kz4stzvDKpLEUhCX", signature, body),
        Err(PayError::VerifyError("verification error".to_string()))
    );
    assert_eq!(
        wechat_pay.verify_signatrue("no key", "1705066785", "Jh9oPZelCJIQeQ47kz4stzvDKpLEUhCX", "!!", body),
        Err(PayError::VerifyError("public key parser error".to_string()))
    );
    assert_eq!(
        wechat_pay.verify_signatrue(PUBLIC_KEY, "1705066785", "Jh9oPZelCJIQeQ47kz4stzvDKpLEUhCX", "!!!!", body),
        Err(PayError::DecodeError(DecodeError::InvalidByte(0, b'!')))
    );
}

#[test]
fn sign_then_verify() {
    let wechat_pay = merchant();
    let message = "1700000000\nNONCE\n{\"k\":\"v\"}\n";
    let signature = wechat_pay.rsa_sign(message);
    assert_eq!(
        wechat_pay.verify_signatrue(MERCHANT_PUBLIC_KEY, "1700000000", "NONCE", signature.as_str(), "{\"k\":\"v\"}"),
        Ok(())
    );
}

#[test]
fn test_decrypt_paydata() {
    let wechat_pay = merchant();
    let data = wechat_pay.decrypt_bytes(CIPHERTEXT, "gZiqzlfayUu2", "transaction").unwrap();
    assert_eq!(String::from_utf8(data).unwrap(), PLAINTEXT);
}

#[test]
fn test_decrypt_certificates() {
    let wechat_pay = merchant();
    assert_eq!(
        wechat_pay.decrypt_bytes(CIPHERTEXT, "gZiqzlfayUu2", "certificate"),
        Err(PayError::DecryptError("aead::Error".to_string()))
    );
    assert_eq!(
        wechat_pay.decrypt_bytes(CIPHERTEXT, "bf003ed52d71", "transaction"),
        Err(PayError::DecryptError("aead::Error".to_string()))
    );
}

#[test]
fn decrypt_rejections() {
    let wechat_pay = merchant();
    assert_eq!(
        wechat_pay.decrypt_bytes(CIPHERTEXT, "short", "transaction"),
        Err(PayError::DecryptError("nonce length must be 12".to_string()))
    );
    assert_eq!(
        wechat_pay.decrypt_bytes("a!bc", "gZiqzlfayUu2", "transaction"),
        Err(PayError::DecodeError(DecodeError::InvalidByte(1, b'!')))
    );
    assert_eq!(
        wechat_pay.decrypt_bytes("AAAA", "gZiqzlfayUu2", "transaction"),
        Err(PayError::DecryptError("aead::Error".to_string()))
    );
    let short_key = WechatPay::new("a", "m", &private_key(), "s", "short key", "n");
    assert_eq!(short_key.try_decrypt_bytes(CIPHERTEXT, "gZiqzlfayUu2", "transaction"), None);
    assert_eq!(
        short_key.try_decrypt_bytes(CIPHERTEXT, "short", "transaction"),
        Some(Err(PayError::DecryptError("nonce length must be 12".to_string())))
    );
    assert_eq!(
        short_key.try_decrypt_bytes("!!!!", "gZiqzlfayUu2", "transaction"),
        Some(Err(PayError::DecodeError(DecodeError::InvalidByte(0, b'!'))))
    );
    assert_eq!(
        merchant().try_decrypt_bytes(CIPHERTEXT, "gZiqzlfayUu2", "transaction"),
        Some(Ok(PLAINTEXT.as_bytes().to_vec()))
    );
}

#[test]
fn headers_with_fixed_time_and_nonce() {
    let wechat_pay = merchant();
    let headers = wechat_pay.build_header_with(
        HttpMethod::POST,
        "/v3/pay/transactions/h5",
        "{\"a\":1}",
        1705066785,
        NONCE,
    );
    let expected: Vec<(String, String)> = vec![
        ("accept".to_string(), "application/json".to_string()),
        ("user-agent".to_string(), "Mozilla/5.0 (Linux; Android 10; Redmi K30 Pro) AppleWebKit/537.36 (KHTML, like Gecko) Chrome/86.0.4240.198 Mobile Safari/537.36".to_string()),
        ("authorization".to_string(), "WECHATPAY2-SHA256-RSA2048 mchid=\"1900000001\",nonce_str=\"0123456789ABCDEF0123456789ABCDEF\",signature=\"CHYeZKyaTB3Q5dXbzn/r3eQRUdxOfeZqEDsISCJlftpcJnI9E/8XZeZYmiQY4kakIvW0tJ3YLcc5FMySrAuqUg==\",timestamp=\"1705066785\",serial_no=\"SERIAL0001\"".to_string()),
        ("content-type".to_string(), "application/json".to_string()),
    ];
    assert_eq!(headers, expected);
}

#[test]
fn headers_now() {
    let wechat_pay = merchant();
    let headers = wechat_pay.build_header(HttpMethod::GET, "/v3/certificates", "").unwrap();
    assert_eq!(headers.len(), 4);
    assert!(headers[2].1.starts_with("WECHATPAY2-SHA256-RSA2048 mchid=\"1900000001\",nonce_str=\""));
    assert!(headers[2].1.ends_with("\",serial_no=\"SERIAL0001\""));
}

#[test]
fn sign_data_with_fixed_time_and_nonce() {
    let wechat_pay = merchant();
    let sd = wechat_pay.mut_sign_data_with(
        "prepay_id=",
        "wx201410272009395522657a690389285100",
        1705066785,
        NONCE,
    );
    assert_eq!(sd.app_id, "wx0000000000000001");
    assert_eq!(sd.sign_type, "RSA");
    assert_eq!(sd.package, "prepay_id=wx201410272009395522657a690389285100");
    assert_eq!(sd.nonce_str, NONCE);
    assert_eq!(sd.timestamp, "1705066785");
    assert_eq!(
        sd.pay_sign,
        "kxJZPm32UZ2cd0m/+VJ5ELZ0V5IcG3pY6YCZQ0fwDODuNnEF3wRigB37Pj8yx8PZ1hOqI1D3xYuAugRH+yCgVQ=="
    );
}

#[test]
fn signed_responses() {
    let wechat_pay = merchant();
    let jsapi = JsapiResponse {
        code: None,
        message: None,
        prepay_id: Some("wx201410272009395522657a690389285100".to_string()),
        sign_data: None,
    };
    let signed = wechat_pay.sign_jsapi_response(jsapi).unwrap();
    let sd = signed.sign_data.unwrap();
    assert_eq!(sd.package, "prepay_id=wx201410272009395522657a690389285100");
    assert_eq!(sd.nonce_str.len(), 32);

    let micro = MicroResponse { code: None, message: None, prepay_id: Some("wx1".to_string()), sign_data: None };
    let signed = wechat_pay.sign_micro_response(micro).unwrap();
    assert_eq!(signed.sign_data.unwrap().package, "prepay_id=wx1");

    let app = AppResponse { code: None, message: None, prepay_id: Some("wx2".to_string()), sign_data: None };
    let signed = wechat_pay.sign_app_response(app).unwrap();
    assert_eq!(signed.sign_data.unwrap().package, "wx2");

    let failed = AppResponse {
        code: Some("PARAM_ERROR".to_string()),
        message: Some("bad".to_string()),
        prepay_id: None,
        sign_data: None,
    };
    assert_eq!(wechat_pay.sign_app_response(failed.clone()), Some(failed));
}

#[test]
fn request_body_adds_merchant_fields() {
    let wechat_pay = merchant();
    let body = wechat_pay
        .request_body(r#"{"description":"d","out_trade_no":"o","amount":{"total":1},"appid":"other"}"#)
        .unwrap();
    assert_eq!(
        body,
        r#"{"amount":{"total":1},"appid":"wx0000000000000001","description":"d","mchid":"1900000001","notify_url":"https://mydomain.com/pay/notify","out_trade_no":"o"}"#
    );
    assert!(matches!(wechat_pay.request_body("[1, 2]"), Err(PayError::JsonError(_))));
    assert!(matches!(wechat_pay.request_body("{"), Err(PayError::JsonError(_))));
}

#[test]
fn pay_test_native_pay() {
    let wechat_pay = merchant();
    let params = NativeParams::new("测试支付1分", "1243243", 1.into());
    let json = format!(
        r#"{{"description":"{}","out_trade_no":"{}","amount":{{"total":{}}}}}"#,
        params.description, params.out_trade_no, params.amount.total
    );
    let req = wechat_pay.native_pay(json.as_str()).expect("native_pay error").unwrap();
    assert_eq!(req.method, HttpMethod::POST);
    assert_eq!(req.url, "https://api.mch.weixin.qq.com/v3/pay/transactions/native");
    assert_eq!(
        req.body,
        r#"{"amount":{"total":1},"appid":"wx0000000000000001","description":"测试支付1分","mchid":"1900000001","notify_url":"https://mydomain.com/pay/notify","out_trade_no":"1243243"}"#
    );
    assert_eq!(header(&req, "content-type"), "application/json");
}

#[test]
fn test_jsapi_pay() {
    let wechat_pay = merchant();
    let params = JsapiParams::new("测试支付1分", "1243243", 1.into(), "open_id".into());
    let json = format!(
        r#"{{"description":"{}","out_trade_no":"{}","amount":{{"total":{}}},"payer":{{"openid":"{}"}}}}"#,
        params.description, params.out_trade_no, params.amount.total, params.payer.openid
    );
    let req = wechat_pay.jsapi_pay(json.as_str()).expect("jsapi_pay error").unwrap();
    assert_eq!(req.url, "https://api.mch.weixin.qq.com/v3/pay/transactions/jsapi");
    assert!(req.body.contains(r#""payer":{"openid":"open_id"}"#));
}

#[test]
fn test_micro_pay() {
    let wechat_pay = merchant();
    let params = MicroParams::new("测试支付1分", "1243243", 1.into(), "open_id".into());
    let json = format!(
        r#"{{"description":"{}","out_trade_no":"{}","amount":{{"total":{}}},"payer":{{"openid":"{}"}}}}"#,
        params.description, params.out_trade_no, params.amount.total, params.payer.openid
    );
    let req = wechat_pay.micro_pay(json.as_str()).expect("micro_pay error").unwrap();
    assert_eq!(req.url, "https://api.mch.weixin.qq.com/v3/pay/transactions/jsapi");
}

#[test]
fn test_app_pay() {
    let wechat_pay = merchant();
    let params = AppParams::new("测试支付1分", "1243243", 1.into());
    let json = format!(
        r#"{{"description":"{}","out_trade_no":"{}","amount":{{"total":{}}}}}"#,
        params.description, params.out_trade_no, params.amount.total
    );
    let req = wechat_pay.app_pay(json.as_str()).expect("app_pay error").unwrap();
    assert_eq!(req.url, "https://api.mch.weixin.qq.com/v3/pay/transactions/app");
    assert!(header(&req, "authorization").starts_with("WECHATPAY2-SHA256-RSA2048 mchid=\"1900000001\""));
}

#[test]
fn test_h5_pay() {
    let wechat_pay = merchant();
    let params = H5Params::new(
        "测试支付1分",
        random_trade_no().as_str(),
        1.into(),
        H5SceneInfo::new("183.6.105.141", "ipa软件下载", "https://mydomain.com"),
    );
    let json = format!(
        r#"{{"description":"{}","out_trade_no":"{}","amount":{{"total":1}},"scene_info":{{"payer_client_ip":"{}","h5_info":{{"type":"{}"}}}}}}"#,
        params.description, params.out_trade_no, params.scene_info.payer_client_ip, params.scene_info.h5_info.h5_type
    );
    let req = wechat_pay.h5_pay(json.as_str()).expect("h5_pay error").unwrap();
    assert_eq!(req.url, "https://api.mch.weixin.qq.com/v3/pay/transactions/h5");
    let page = wechat_pay.get_weixin("https://wx.tenpay.com/cgi-bin/mmpayweb-bin/checkmweb?prepay_id=wx1", "https://mydomain.com");
    assert_eq!(page.method, HttpMethod::GET);
    assert_eq!(page.url, "https://wx.tenpay.com/cgi-bin/mmpayweb-bin/checkmweb?prepay_id=wx1");
    assert_eq!(page.headers, vec![("referer".to_string(), "https://mydomain.com".to_string())]);
}

#[test]
fn test_decode_certificates() {
    let wechat_pay = merchant();
    let req = wechat_pay.certificates().expect("certificates error");
    assert_eq!(req.method, HttpMethod::GET);
    assert_eq!(req.url, "https://api.mch.weixin.qq.com/v3/certificates");
    assert_eq!(req.body, "");
}

#[test]
fn test_blocking_refunds() {
    let wechat_pay = merchant();
    let params = RefundsParams::new("123456", 1, 1, None, Some("123456"));
    let json = format!(
        r#"{{"out_trade_no":"{}","out_refund_no":"{}","amount":{{"refund":{},"total":{},"currency":"{}"}}}}"#,
        params.out_trade_no.as_deref().unwrap(), params.out_refund_no, params.amount.refund, params.amount.total, params.amount.currency
    );
    let req = wechat_pay.refunds(json.as_str()).expect("refunds fail");
    assert_eq!(req.url, "https://api.mch.weixin.qq.com/v3/refund/domestic/refunds");
    assert_eq!(req.body, json);
}

#[test]
fn order_query_url() {
    let wechat_pay = merchant();
    let req = wechat_pay.get_pay_info_by_out_trade_no("1243243").unwrap();
    assert_eq!(
        req.url,
        "https://api.mch.weixin.qq.com/v3/pay/transactions/out-trade-no/1243243?mchid=1900000001"
    );
}

#[test]
fn certificate_public_key() {
    assert_eq!(x509_to_pem(CERTIFICATE.as_bytes()).unwrap(), PUBLIC_KEY);
    assert_eq!(x509_to_pem(b"not pem"), Err(CertError::Pem));
    assert_eq!(
        x509_to_pem(b"-----BEGIN CERTIFICATE-----\nAAAA\n-----END CERTIFICATE-----\n"),
        Err(CertError::X509)
    );
}

#[test]
fn certificate_validity() {
    let not_before: i128 = 1795079633 * 1_000_000_000;
    let not_after: i128 = 2110439633 * 1_000_000_000;
    assert_eq!(x509_is_valid_at(CERTIFICATE.as_bytes(), not_before), Ok((true, 2110439633)));
    assert_eq!(x509_is_valid_at(CERTIFICATE.as_bytes(), not_after), Ok((true, 2110439633)));
    assert_eq!(x509_is_valid_at(CERTIFICATE.as_bytes(), not_before - 1), Ok((false, 2110439633)));
    assert_eq!(x509_is_valid_at(CERTIFICATE.as_bytes(), not_after + 1), Ok((false, 2110439633)));
    assert_eq!(x509_is_valid(CERTIFICATE.as_bytes()).unwrap().1, 2110439633);
    assert!(is_valid_at(1, 3, 2) && !is_valid_at(1, 3, 4));
}
