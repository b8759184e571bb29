//! The merchant client: its configuration, the signing of requests and of
//! client payment data, and the checking and decryption of callbacks.

use crate::codec::{
    aes256gcm_decrypt, aes256gcm_open, base64_standard_decode, base64_standard_decode_bytes,
    sha256, sha256_digest, is_lower_hex, is_upper_hex, is_uuid_v4_text, lemma_uuid_digits, now_unix_seconds,
    random_uuid_v4_text, uuid_digits,
};
use crate::request::{method_name, HttpMethod};
use crate::error::PayError;
use crate::response::{AppResponse, JsapiResponse, MicroResponse, SignData};
use crate::sign::{
    decode_public_key, rsa_pkcs1v15_sha256_check, rsa_verify_digest, sha256_sign, try_sha256_sign,
    signature_text, spki_public_key_decodes,
};
use crate::text::{
    ascii_upper, ascii_uppercase, ascii_uppercase_exec, decimal_text, i64_to_decimal,
    remove_char_exec,
};
use vstd::prelude::*;
use vstd::utf8::encode_utf8;

verus! {

/// A merchant's WeChat Pay client.
#[derive(Debug)]
pub struct WechatPay {
    appid: String,
    mch_id: String,
    private_key: String,
    serial_no: String,
    v3_key: String,
    notify_url: String,
    base_url: String,
}

/// The API host that requests go to unless another one is set.
pub open spec fn default_base_url() -> Seq<char> {
    "https://api.mch.weixin.qq.com"@
}

/// The text of a nonce made from a UUID: its hexadecimal digits in upper case.
pub open spec fn nonce_of_uuid(u: Seq<char>) -> Seq<char> {
    ascii_uppercase(uuid_digits(u))
}

/// A nonce as the client makes them: the digits of a random version-4 UUID, in
/// upper case.
pub open spec fn is_nonce(n: Seq<char>) -> bool {
    exists|u: Seq<char>| is_uuid_v4_text(u) && n == nonce_of_uuid(u)
}

/// Every nonce is 32 upper-case hexadecimal digits.
pub proof fn lemma_nonce_shape(n: Seq<char>)
    requires
        is_nonce(n),
    ensures
        n.len() == 32,
        forall|i: int| 0 <= i < 32 ==> is_upper_hex(#[trigger] n[i]),
{
    let u = choose|u: Seq<char>| is_uuid_v4_text(u) && n == nonce_of_uuid(u);
    lemma_uuid_digits(u);
    assert forall|i: int| 0 <= i < 32 implies is_upper_hex(#[trigger] n[i]) by {
        let c = uuid_digits(u)[i];
        assert(is_lower_hex(c));
        assert(n[i] == ascii_upper(c));
        if 'a' <= c && c <= 'f' {
            assert(97 <= c as u8 <= 102);
        }
    }
}

impl WechatPay {
    pub closed spec fn appid_view(&self) -> Seq<char> {
        self.appid@
    }

    pub closed spec fn mch_id_view(&self) -> Seq<char> {
        self.mch_id@
    }

    pub closed spec fn private_key_view(&self) -> Seq<char> {
        self.private_key@
    }

    pub closed spec fn serial_no_view(&self) -> Seq<char> {
        self.serial_no@
    }

    pub closed spec fn v3_key_view(&self) -> Seq<char> {
        self.v3_key@
    }

    pub closed spec fn notify_url_view(&self) -> Seq<char> {
        self.notify_url@
    }

    pub closed spec fn base_url_view(&self) -> Seq<char> {
        self.base_url@
    }

    /// A client with the given merchant data, sending to the default host.
    pub fn new(
        appid: &str,
        mch_id: &str,
        private_key: &str,
        serial_no: &str,
        v3_key: &str,
        notify_url: &str,
    ) -> (p: Self)
        ensures
            p.appid_view() == appid@,
            p.mch_id_view() == mch_id@,
            p.private_key_view() == private_key@,
            p.serial_no_view() == serial_no@,
            p.v3_key_view() == v3_key@,
            p.notify_url_view() == notify_url@,
            p.base_url_view() == default_base_url(),
    {
        WechatPay {
            appid: String::from_str(appid),
            mch_id: String::from_str(mch_id),
            private_key: String::from_str(private_key),
            serial_no: String::from_str(serial_no),
            v3_key: String::from_str(v3_key),
            notify_url: String::from_str(notify_url),
            base_url: String::from_str("https://api.mch.weixin.qq.com"),
        }
    }

    /// The same client, sending to another host.
    pub fn with_base_url(self, base_url: &str) -> (p: Self)
        ensures
            p.appid_view() == self.appid_view(),
            p.mch_id_view() == self.mch_id_view(),
            p.private_key_view() == self.private_key_view(),
            p.serial_no_view() == self.serial_no_view(),
            p.v3_key_view() == self.v3_key_view(),
            p.notify_url_view() == self.notify_url_view(),
            p.base_url_view() == base_url@,
    {
        let mut p = self;
        p.base_url = String::from_str(base_url);
        p
    }

    pub fn appid(&self) -> (s: String)
        ensures
            s@ == self.appid_view(),
    {
        self.appid.clone()
    }

    pub fn mch_id(&self) -> (s: String)
        ensures
            s@ == self.mch_id_view(),
    {
        self.mch_id.clone()
    }

    pub fn private_key(&self) -> (s: String)
        ensures
            s@ == self.private_key_view(),
    {
        self.private_key.clone()
    }

    pub fn serial_no(&self) -> (s: String)
        ensures
            s@ == self.serial_no_view(),
    {
        self.serial_no.clone()
    }

    pub fn v3_key(&self) -> (s: String)
        ensures
            s@ == self.v3_key_view(),
    {
        self.v3_key.clone()
    }

    pub fn notify_url(&self) -> (s: String)
        ensures
            s@ == self.notify_url_view(),
    {
        self.notify_url.clone()
    }

    pub fn base_url(&self) -> (s: String)
        ensures
            s@ == self.base_url_view(),
    {
        self.base_url.clone()
    }

    /// The current Unix time, in seconds, as decimal text.
    pub fn now_timestamp(&self) -> (s: String)
        ensures
            exists|t: i64| s@ == decimal_text(t as int),
    {
        let t = now_unix_seconds();
        i64_to_decimal(t)
    }

    /// A fresh nonce: the digits of a random UUID, in upper case.
    pub fn nonce_str(&self) -> (s: String)
        ensures
            is_nonce(s@),
            s@.len() == 32,
            forall|i: int| 0 <= i < 32 ==> is_upper_hex(#[trigger] s@[i]),
    {
        let u = random_uuid_v4_text();
        let digits = remove_char_exec(u.as_str(), '-');
        let s = ascii_uppercase_exec(digits.as_str());
        assert(s@ == nonce_of_uuid(u@));
        proof {
            lemma_nonce_shape(s@);
        }
        s
    }

    /// The SHA256-with-RSA signature of `content` under the merchant's key, in
    /// Base64. The key must be able to sign.
    pub fn rsa_sign(&self, content: &str) -> (s: String)
        requires
            signature_text(self.private_key_view(), content@) is Some,
        ensures
            signature_text(self.private_key_view(), content@) == Some(s@),
    {
        sha256_sign(self.private_key.as_str(), content)
    }
}


/// The message that signs a request: method, path, timestamp, nonce and body,
/// each followed by a line feed.
pub open spec fn request_message(
    method: HttpMethod,
    url: Seq<char>,
    timestamp: i64,
    nonce: Seq<char>,
    body: Seq<char>,
) -> Seq<char> {
    method_name(method) + "\n"@ + url + "\n"@ + decimal_text(timestamp as int) + "\n"@ + nonce
        + "\n"@ + body + "\n"@
}

/// The `Authorization` header value of a request.
pub open spec fn authorization_text(
    mch_id: Seq<char>,
    nonce: Seq<char>,
    signature: Seq<char>,
    timestamp: i64,
    serial_no: Seq<char>,
) -> Seq<char> {
    "WECHATPAY2-SHA256-RSA2048 mchid=\""@ + mch_id + "\",nonce_str=\""@ + nonce
        + "\",signature=\""@ + signature + "\",timestamp=\""@ + decimal_text(timestamp as int)
        + "\",serial_no=\""@ + serial_no + "\""@
}

/// The `User-Agent` that requests carry.
pub open spec fn user_agent() -> Seq<char> {
    "Mozilla/5.0 (Linux; Android 10; Redmi K30 Pro) AppleWebKit/537.36 (KHTML, like Gecko) Chrome/86.0.4240.198 Mobile Safari/537.36"@
}

/// The headers of a request with the given `Authorization` value, in the order
/// they are set.
pub open spec fn header_pairs(authorization: Seq<char>) -> Seq<(Seq<char>, Seq<char>)> {
    seq![
        ("accept"@, "application/json"@),
        ("user-agent"@, user_agent()),
        ("authorization"@, authorization),
        ("content-type"@, "application/json"@),
    ]
}

/// Header names and values as texts.
pub open spec fn pairs_view(h: Seq<(String, String)>) -> Seq<(Seq<char>, Seq<char>)> {
    h.map_values(|p: (String, String)| (p.0@, p.1@))
}

fn request_message_exec(
    method: HttpMethod,
    url: &str,
    timestamp: i64,
    nonce: &str,
    body: &str,
) -> (s: String)
    ensures
        s@ == request_message(method, url@, timestamp, nonce@, body@),
{
    let mut s = method.to_string();
    s.append("\n");
    s.append(url);
    s.append("\n");
    let t = i64_to_decimal(timestamp);
    s.append(t.as_str());
    s.append("\n");
    s.append(nonce);
    s.append("\n");
    s.append(body);
    s.append("\n");
    s
}

fn authorization_exec(
    mch_id: &str,
    nonce: &str,
    signature: &str,
    timestamp: i64,
    serial_no: &str,
) -> (s: String)
    ensures
        s@ == authorization_text(mch_id@, nonce@, signature@, timestamp, serial_no@),
{
    let mut s = String::from_str("WECHATPAY2-SHA256-RSA2048 mchid=\"");
    s.append(mch_id);
    s.append("\",nonce_str=\"");
    s.append(nonce);
    s.append("\",signature=\"");
    s.append(signature);
    s.append("\",timestamp=\"");
    let t = i64_to_decimal(timestamp);
    s.append(t.as_str());
    s.append("\",serial_no=\"");
    s.append(serial_no);
    s.append("\"");
    s
}

impl WechatPay {
    /// Whether the merchant's key can sign the request with the given time and
    /// nonce.
    pub open spec fn request_signable(
        &self,
        method: HttpMethod,
        url: Seq<char>,
        body: Seq<char>,
        timestamp: i64,
        nonce: Seq<char>,
    ) -> bool {
        signature_text(self.private_key_view(), request_message(method, url, timestamp, nonce, body))
            is Some
    }

    /// The headers of the request with the given time and nonce.
    pub open spec fn request_headers(
        &self,
        method: HttpMethod,
        url: Seq<char>,
        body: Seq<char>,
        timestamp: i64,
        nonce: Seq<char>,
    ) -> Seq<(Seq<char>, Seq<char>)> {
        header_pairs(
            authorization_text(
                self.mch_id_view(),
                nonce,
                signature_text(
                    self.private_key_view(),
                    request_message(method, url, timestamp, nonce, body),
                )->0,
                timestamp,
                self.serial_no_view(),
            ),
        )
    }

    /// The headers of a request whose message has the signature `signature`.
    fn headers_with_signature(
        &self,
        method: HttpMethod,
        url: &str,
        body: &str,
        timestamp: i64,
        nonce_str: &str,
        signature: String,
    ) -> (h: Vec<(String, String)>)
        requires
            signature_text(
                self.private_key_view(),
                request_message(method, url@, timestamp, nonce_str@, body@),
            ) == Some(signature@),
        ensures
            pairs_view(h@) == self.request_headers(method, url@, body@, timestamp, nonce_str@),
    {
        let authorization = authorization_exec(
            self.mch_id.as_str(),
            nonce_str,
            signature.as_str(),
            timestamp,
            self.serial_no.as_str(),
        );
        let mut h: Vec<(String, String)> = Vec::new();
        h.push((String::from_str("accept"), String::from_str("application/json")));
        h.push(
            (
                String::from_str("user-agent"),
                String::from_str(
                    "Mozilla/5.0 (Linux; Android 10; Redmi K30 Pro) AppleWebKit/537.36 (KHTML, like Gecko) Chrome/86.0.4240.198 Mobile Safari/537.36",
                ),
            ),
        );
        h.push((String::from_str("authorization"), authorization));
        h.push((String::from_str("content-type"), String::from_str("application/json")));
        assert(pairs_view(h@) =~= self.request_headers(method, url@, body@, timestamp, nonce_str@));
        h
    }

    /// The headers of a request to `url` with `body`, signed at `timestamp`
    /// with `nonce_str`. The key must be able to sign.
    pub fn build_header_with(
        &self,
        method: HttpMethod,
        url: &str,
        body: &str,
        timestamp: i64,
        nonce_str: &str,
    ) -> (h: Vec<(String, String)>)
        requires
            self.request_signable(method, url@, body@, timestamp, nonce_str@),
        ensures
            pairs_view(h@) == self.request_headers(method, url@, body@, timestamp, nonce_str@),
    {
        let message = request_message_exec(method, url, timestamp, nonce_str, body);
        let signature = self.rsa_sign(message.as_str());
        self.headers_with_signature(method, url, body, timestamp, nonce_str, signature)
    }

    /// The headers of a request to `url` with `body`, signed now with a fresh
    /// nonce; `None` where the merchant's key cannot sign.
    pub fn build_header(&self, method: HttpMethod, url: &str, body: &str) -> (r: Option<
        Vec<(String, String)>,
    >)
        ensures
            exists|t: i64, n: Seq<char>|
                #![trigger self.request_signable(method, url@, body@, t, n)]
                is_nonce(n) && match r {
                    Some(h) => self.request_signable(method, url@, body@, t, n) && pairs_view(h@)
                        == self.request_headers(method, url@, body@, t, n),
                    None => !self.request_signable(method, url@, body@, t, n),
                },
    {
        let timestamp = now_unix_seconds();
        let nonce = self.nonce_str();
        let message = request_message_exec(method, url, timestamp, nonce.as_str(), body);
        let r = match try_sha256_sign(self.private_key.as_str(), message.as_str()) {
            Some(signature) => Some(
                self.headers_with_signature(method, url, body, timestamp, nonce.as_str(), signature),
            ),
            None => None,
        };
        assert(is_nonce(nonce@) && match r {
            Some(h) => self.request_signable(method, url@, body@, timestamp, nonce@) && pairs_view(h@)
                == self.request_headers(method, url@, body@, timestamp, nonce@),
            None => !self.request_signable(method, url@, body@, timestamp, nonce@),
        });
        r
    }
}


/// The message that the client signs for a prepaid payment.
pub open spec fn pay_sign_message(
    app_id: Seq<char>,
    timestamp: Seq<char>,
    nonce: Seq<char>,
    package: Seq<char>,
) -> Seq<char> {
    app_id + "\n"@ + timestamp + "\n"@ + nonce + "\n"@ + package + "\n"@
}

/// The message of a callback that the platform signs: timestamp, nonce and
/// body, each followed by a line feed.
pub open spec fn notify_message(timestamp: Seq<char>, nonce: Seq<char>, body: Seq<char>) -> Seq<
    char,
> {
    timestamp + "\n"@ + nonce + "\n"@ + body + "\n"@
}

/// What checking a callback's signature gives: an error if the public key
/// does not decode, if the signature is not Base64, or if it does not match.
pub open spec fn verify_outcome(
    pub_key: Seq<char>,
    timestamp: Seq<char>,
    nonce: Seq<char>,
    signature: Seq<char>,
    body: Seq<char>,
    r: Result<(), PayError>,
) -> bool {
    if !spki_public_key_decodes(pub_key) {
        r matches Err(PayError::VerifyError(m)) && m@ == "public key parser error"@
    } else {
        match base64_standard_decode(encode_utf8(signature)) {
            Err(e) => r == Err::<(), PayError>(PayError::DecodeError(e)),
            Ok(sig) => match rsa_pkcs1v15_sha256_check(
                pub_key,
                sha256(encode_utf8(notify_message(timestamp, nonce, body))),
                sig,
            ) {
                Ok(_) => r is Ok,
                Err(t) => r matches Err(PayError::VerifyError(m)) && m@ == t,
            },
        }
    }
}

fn three_lines(a: &str, b: &str, c: &str) -> (s: String)
    ensures
        s@ == a@ + "\n"@ + b@ + "\n"@ + c@ + "\n"@,
{
    let mut s = String::from_str(a);
    s.append("\n");
    s.append(b);
    s.append("\n");
    s.append(c);
    s.append("\n");
    s
}

impl WechatPay {
    /// Whether the merchant's key can sign the payment data of `package` with
    /// the given time and nonce.
    pub open spec fn sign_data_signable(
        &self,
        package: Seq<char>,
        timestamp: i64,
        nonce: Seq<char>,
    ) -> bool {
        signature_text(
            self.private_key_view(),
            pay_sign_message(self.appid_view(), decimal_text(timestamp as int), nonce, package),
        ) is Some
    }

    /// `sd` is the payment data of `package`, signed at `timestamp` with `nonce`.
    pub open spec fn is_sign_data(
        &self,
        package: Seq<char>,
        timestamp: i64,
        nonce: Seq<char>,
        sd: SignData,
    ) -> bool {
        &&& sd.app_id@ == self.appid_view()
        &&& sd.sign_type@ == "RSA"@
        &&& sd.package@ == package
        &&& sd.nonce_str@ == nonce
        &&& sd.timestamp@ == decimal_text(timestamp as int)
        &&& signature_text(
            self.private_key_view(),
            pay_sign_message(self.appid_view(), decimal_text(timestamp as int), nonce, package),
        ) == Some(sd.pay_sign@)
    }

    /// The payment data of `package`, at `timestamp` with `nonce_str`, whose
    /// message has the signature `signature`.
    fn sign_data_with_signature(
        &self,
        package: String,
        now_time: String,
        timestamp: i64,
        nonce_str: &str,
        signature: String,
    ) -> (sd: SignData)
        requires
            now_time@ == decimal_text(timestamp as int),
            signature_text(
                self.private_key_view(),
                pay_sign_message(self.appid_view(), now_time@, nonce_str@, package@),
            ) == Some(signature@),
        ensures
            self.is_sign_data(package@, timestamp, nonce_str@, sd),
    {
        SignData {
            app_id: self.appid.clone(),
            sign_type: String::from_str("RSA"),
            package,
            nonce_str: String::from_str(nonce_str),
            timestamp: now_time,
            pay_sign: signature,
        }
    }

    /// The payment data of `prefix` followed by `prepay_id`, signed at
    /// `timestamp` with `nonce_str`. The key must be able to sign.
    pub fn mut_sign_data_with(
        &self,
        prefix: &str,
        prepay_id: &str,
        timestamp: i64,
        nonce_str: &str,
    ) -> (sd: SignData)
        requires
            self.sign_data_signable(prefix@ + prepay_id@, timestamp, nonce_str@),
        ensures
            self.is_sign_data(prefix@ + prepay_id@, timestamp, nonce_str@, sd),
    {
        let mut package = String::from_str(prefix);
        package.append(prepay_id);
        let now_time = i64_to_decimal(timestamp);
        let mut message = three_lines(self.appid.as_str(), now_time.as_str(), nonce_str);
        message.append(package.as_str());
        message.append("\n");
        let signed = self.rsa_sign(message.as_str());
        self.sign_data_with_signature(package, now_time, timestamp, nonce_str, signed)
    }

    /// The payment data of `prefix` followed by `prepay_id`, signed now with a
    /// fresh nonce; `None` where the merchant's key cannot sign.
    pub fn mut_sign_data(&self, prefix: &str, prepay_id: &str) -> (r: Option<SignData>)
        ensures
            exists|t: i64, n: Seq<char>|
                #![trigger self.sign_data_signable(prefix@ + prepay_id@, t, n)]
                is_nonce(n) && match r {
                    Some(sd) => self.sign_data_signable(prefix@ + prepay_id@, t, n)
                        && self.is_sign_data(prefix@ + prepay_id@, t, n, sd),
                    None => !self.sign_data_signable(prefix@ + prepay_id@, t, n),
                },
    {
        let timestamp = now_unix_seconds();
        let nonce = self.nonce_str();
        let mut package = String::from_str(prefix);
        package.append(prepay_id);
        let now_time = i64_to_decimal(timestamp);
        let mut message = three_lines(self.appid.as_str(), now_time.as_str(), nonce.as_str());
        message.append(package.as_str());
        message.append("\n");
        let r = match try_sha256_sign(self.private_key.as_str(), message.as_str()) {
            Some(signed) => Some(
                self.sign_data_with_signature(package, now_time, timestamp, nonce.as_str(), signed),
            ),
            None => None,
        };
        assert(is_nonce(nonce@) && match r {
            Some(sd) => self.sign_data_signable(prefix@ + prepay_id@, timestamp, nonce@)
                && self.is_sign_data(prefix@ + prepay_id@, timestamp, nonce@, sd),
            None => !self.sign_data_signable(prefix@ + prepay_id@, timestamp, nonce@),
        });
        r
    }

    /// Checks the platform's signature `signatrue` (Base64) of a callback with
    /// the platform's public key `pub_key` (PEM).
    pub fn verify_signatrue(
        &self,
        pub_key: &str,
        timestamp: &str,
        nonce: &str,
        signatrue: &str,
        body: &str,
    ) -> (r: Result<(), PayError>)
        ensures
            verify_outcome(pub_key@, timestamp@, nonce@, signatrue@, body@, r),
    {
        let message = three_lines(timestamp, nonce, body);
        let key = match decode_public_key(pub_key) {
            Some(k) => k,
            None => {
                return Err(PayError::VerifyError(String::from_str("public key parser error")));
            },
        };
        let hashed = sha256_digest(message.as_str().as_bytes());
        let signature = match base64_standard_decode_bytes(signatrue.as_bytes()) {
            Ok(s) => s,
            Err(e) => {
                return Err(PayError::DecodeError(e));
            },
        };
        match rsa_verify_digest(&key, hashed.as_slice(), signature.as_slice()) {
            Ok(_) => Ok(()),
            Err(m) => Err(PayError::VerifyError(m)),
        }
    }
}


/// What decrypting a callback resource gives: an error if the nonce is not 12
/// bytes or the ciphertext not Base64, else the AES-256-GCM plaintext under
/// the merchant's APIv3 key, or an error where the tag does not match.
pub open spec fn decrypt_outcome(
    v3_key: Seq<char>,
    ciphertext: Seq<char>,
    nonce: Seq<char>,
    associated_data: Seq<char>,
    r: Result<Vec<u8>, PayError>,
) -> bool {
    if encode_utf8(nonce).len() != 12 {
        r matches Err(PayError::DecryptError(m)) && m@ == "nonce length must be 12"@
    } else {
        match base64_standard_decode(encode_utf8(ciphertext)) {
            Err(e) => r == Err::<Vec<u8>, PayError>(PayError::DecodeError(e)),
            Ok(c) => match aes256gcm_open(
                encode_utf8(v3_key),
                encode_utf8(nonce),
                c,
                encode_utf8(associated_data),
            ) {
                Some(p) => r matches Ok(v) && v@ == p,
                None => r matches Err(PayError::DecryptError(m)) && m@ == "aead::Error"@,
            },
        }
    }
}

/// Decryption reaches the cipher only with a 32-byte key: the APIv3 key must
/// be 32 bytes wherever the nonce is 12 bytes and the ciphertext is Base64.
pub open spec fn decrypt_key_fits(v3_key: Seq<char>, ciphertext: Seq<char>, nonce: Seq<char>) -> bool {
    encode_utf8(nonce).len() == 12 && base64_standard_decode(encode_utf8(ciphertext)) is Ok
        ==> encode_utf8(v3_key).len() == 32
}

impl WechatPay {
    /// Decrypts the resource of a callback (or a platform certificate): the
    /// Base64 `ciphertext` under the APIv3 key, with a 12-byte `nonce` and
    /// `associated_data`. Where the nonce and ciphertext are good, the APIv3 key
    /// must be 32 bytes; [`WechatPay::try_decrypt_bytes`] answers `None` where
    /// it is not.
    pub fn decrypt_bytes(&self, ciphertext: &str, nonce: &str, associated_data: &str) -> (r: Result<
        Vec<u8>,
        PayError,
    >)
        requires
            decrypt_key_fits(self.v3_key_view(), ciphertext@, nonce@),
        ensures
            decrypt_outcome(self.v3_key_view(), ciphertext@, nonce@, associated_data@, r),
    {
        if nonce.as_bytes().len() != 12 {
            return Err(PayError::DecryptError(String::from_str("nonce length must be 12")));
        }
        let decoded = match base64_standard_decode_bytes(ciphertext.as_bytes()) {
            Ok(c) => c,
            Err(e) => {
                return Err(PayError::DecodeError(e));
            },
        };
        let aes_key = self.v3_key.as_str().as_bytes();
        match aes256gcm_decrypt(
            aes_key,
            nonce.as_bytes(),
            decoded.as_slice(),
            associated_data.as_bytes(),
        ) {
            Ok(plaintext) => Ok(plaintext),
            Err(m) => Err(PayError::DecryptError(m)),
        }
    }

    /// [`WechatPay::decrypt_bytes`] where the APIv3 key fits, `None` where the
    /// key is not 32 bytes and decryption would reach the cipher.
    pub fn try_decrypt_bytes(&self, ciphertext: &str, nonce: &str, associated_data: &str) -> (r:
        Option<Result<Vec<u8>, PayError>>)
        ensures
            r is None <==> !decrypt_key_fits(self.v3_key_view(), ciphertext@, nonce@),
            r matches Some(x) ==> decrypt_outcome(
                self.v3_key_view(),
                ciphertext@,
                nonce@,
                associated_data@,
                x,
            ),
    {
        if self.v3_key.as_str().as_bytes().len() == 32 || nonce.as_bytes().len() != 12 {
            return Some(self.decrypt_bytes(ciphertext, nonce, associated_data));
        }
        match base64_standard_decode_bytes(ciphertext.as_bytes()) {
            Ok(_) => None,
            Err(_) => Some(self.decrypt_bytes(ciphertext, nonce, associated_data)),
        }
    }

    /// Adds the signed payment data to a JSAPI answer that carries a prepay id
    /// (package `prepay_id=<id>`); `None` where the merchant's key cannot sign.
    pub fn sign_jsapi_response(&self, result: JsapiResponse) -> (r: Option<JsapiResponse>)
        ensures
            match result.prepay_id {
                None => r == Some(result),
                Some(id) => exists|t: i64, n: Seq<char>|
                    #![trigger self.sign_data_signable("prepay_id="@ + id@, t, n)]
                    is_nonce(n) && match r {
                        Some(x) => {
                            &&& self.sign_data_signable("prepay_id="@ + id@, t, n)
                            &&& x.code == result.code
                            &&& x.message == result.message
                            &&& x.prepay_id == result.prepay_id
                            &&& x.sign_data matches Some(sd) && self.is_sign_data(
                                "prepay_id="@ + id@,
                                t,
                                n,
                                sd,
                            )
                        },
                        None => !self.sign_data_signable("prepay_id="@ + id@, t, n),
                    },
            },
    {
        let mut result = result;
        match &result.prepay_id {
            Some(prepay_id) => match self.mut_sign_data("prepay_id=", prepay_id.as_str()) {
                Some(sd) => {
                    result.sign_data = Some(sd);
                    Some(result)
                },
                None => None,
            },
            None => Some(result),
        }
    }

    /// Adds the signed payment data to a mini-program answer that carries a
    /// prepay id (package `prepay_id=<id>`); `None` where the merchant's key
    /// cannot sign.
    pub fn sign_micro_response(&self, result: MicroResponse) -> (r: Option<MicroResponse>)
        ensures
            match result.prepay_id {
                None => r == Some(result),
                Some(id) => exists|t: i64, n: Seq<char>|
                    #![trigger self.sign_data_signable("prepay_id="@ + id@, t, n)]
                    is_nonce(n) && match r {
                        Some(x) => {
                            &&& self.sign_data_signable("prepay_id="@ + id@, t, n)
                            &&& x.code == result.code
                            &&& x.message == result.message
                            &&& x.prepay_id == result.prepay_id
                            &&& x.sign_data matches Some(sd) && self.is_sign_data(
                                "prepay_id="@ + id@,
                                t,
                                n,
                                sd,
                            )
                        },
                        None => !self.sign_data_signable("prepay_id="@ + id@, t, n),
                    },
            },
    {
        let mut result = result;
        match &result.prepay_id {
            Some(prepay_id) => match self.mut_sign_data("prepay_id=", prepay_id.as_str()) {
                Some(sd) => {
                    result.sign_data = Some(sd);
                    Some(result)
                },
                None => None,
            },
            None => Some(result),
        }
    }

    /// Adds the signed payment data to an App answer that carries a prepay id
    /// (the package is the id itself); `None` where the merchant's key cannot
    /// sign.
    pub fn sign_app_response(&self, result: AppResponse) -> (r: Option<AppResponse>)
        ensures
            match result.prepay_id {
                None => r == Some(result),
                Some(id) => exists|t: i64, n: Seq<char>|
                    #![trigger self.sign_data_signable(""@ + id@, t, n)]
                    is_nonce(n) && match r {
                        Some(x) => {
                            &&& self.sign_data_signable(""@ + id@, t, n)
                            &&& x.code == result.code
                            &&& x.message == result.message
                            &&& x.prepay_id == result.prepay_id
                            &&& x.sign_data matches Some(sd) && self.is_sign_data(
                                ""@ + id@,
                                t,
                                n,
                                sd,
                            )
                        },
                        None => !self.sign_data_signable(""@ + id@, t, n),
                    },
            },
    {
        let mut result = result;
        match &result.prepay_id {
            Some(prepay_id) => match self.mut_sign_data("", prepay_id.as_str()) {
                Some(sd) => {
                    result.sign_data = Some(sd);
                    Some(result)
                },
                None => None,
            },
            None => Some(result),
        }
    }
}

} // verus!
