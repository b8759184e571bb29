//! Each API call as a prepared request (method, URL, signed headers, body),
//! and the reading of what comes back where the library decides it.

use crate::error::PayError;
use crate::json::{
    json_insert_string, json_object_from_str, json_object_parse, json_object_text,
    json_object_to_string, json_string_members,
};
use crate::pay::{is_nonce, pairs_view, WechatPay};
use crate::request::HttpMethod;
use crate::text::{
    chars_of, contains_text, find_piece, first_containing, lemma_first_containing_member,
    lemma_piece_contains, lemma_split_pieces, split_by, string_of,
};
use vstd::prelude::*;

verus! {

/// A request ready to be sent.
#[derive(Debug, Clone, PartialEq, Eq)]
pub struct PayRequest {
    pub method: HttpMethod,
    /// The full URL.
    pub url: String,
    /// Header names and values, in the order they are set.
    pub headers: Vec<(String, String)>,
    pub body: String,
}

impl WechatPay {
    /// The members of a payment body: those of the parameters, with `appid`,
    /// `mchid` and `notify_url` set to the merchant's.
    pub open spec fn body_members(&self, params: Map<Seq<char>, Option<Seq<char>>>) -> Map<
        Seq<char>,
        Option<Seq<char>>,
    > {
        params.insert("appid"@, Some(self.appid_view())).insert("mchid"@, Some(self.mch_id_view())).insert(
            "notify_url"@,
            Some(self.notify_url_view()),
        )
    }

    /// A payment body holds the merchant's `appid`, `mchid` and `notify_url`,
    /// whatever the parameters held under those keys, and every other member
    /// of the parameters as it was, and nothing else.
    pub proof fn lemma_body_members(&self, params: Map<Seq<char>, Option<Seq<char>>>)
        ensures
            self.body_members(params)["appid"@] == Some(self.appid_view()),
            self.body_members(params)["mchid"@] == Some(self.mch_id_view()),
            self.body_members(params)["notify_url"@] == Some(self.notify_url_view()),
            forall|k: Seq<char>|
                k != "appid"@ && k != "mchid"@ && k != "notify_url"@ ==> (#[trigger] self.body_members(
                    params,
                ).dom().contains(k) <==> params.dom().contains(k)),
            forall|k: Seq<char>|
                k != "appid"@ && k != "mchid"@ && k != "notify_url"@ && params.dom().contains(k)
                    ==> #[trigger] self.body_members(params)[k] == params[k],
            self.body_members(params).dom() == params.dom().insert("appid"@).insert(
                "mchid"@,
            ).insert("notify_url"@),
    {
        reveal_strlit("appid");
        reveal_strlit("mchid");
        reveal_strlit("notify_url");
        assert("appid"@ != "mchid"@) by {
            assert("appid"@[0] != "mchid"@[0]);
        }
        assert("appid"@ != "notify_url"@) by {
            assert("appid"@[0] != "notify_url"@[0]);
        }
        assert("mchid"@ != "notify_url"@) by {
            assert("mchid"@[0] != "notify_url"@[0]);
        }
    }

    /// `req` is the request to `path` with `body`, signed at `timestamp` with
    /// `nonce`.
    pub open spec fn is_request(
        &self,
        method: HttpMethod,
        path: Seq<char>,
        body: Seq<char>,
        timestamp: i64,
        nonce: Seq<char>,
        req: PayRequest,
    ) -> bool {
        &&& req.method == method
        &&& req.url@ == self.base_url_view() + path
        &&& req.body@ == body
        &&& pairs_view(req.headers@) == self.request_headers(method, path, body, timestamp, nonce)
    }

    /// What preparing a request gives: for some time and nonce, the signed
    /// request, or `None` where the merchant's key cannot sign.
    pub open spec fn prepared(
        &self,
        method: HttpMethod,
        path: Seq<char>,
        body: Seq<char>,
        r: Option<PayRequest>,
    ) -> bool {
        exists|t: i64, n: Seq<char>|
            #![trigger self.request_signable(method, path, body, t, n)]
            is_nonce(n) && match r {
                Some(req) => self.request_signable(method, path, body, t, n) && self.is_request(
                    method,
                    path,
                    body,
                    t,
                    n,
                    req,
                ),
                None => !self.request_signable(method, path, body, t, n),
            }
    }

    /// What building a payment body from the parameters' JSON gives.
    pub open spec fn body_outcome(&self, params_json: Seq<char>, r: Result<String, PayError>) -> bool {
        match json_object_parse(params_json) {
            Err(t) => r matches Err(PayError::JsonError(e)) && e@ == t,
            Ok(p) => exists|m: serde_json::Map<String, serde_json::Value>|
                #[trigger] json_string_members(m) == self.body_members(p) && match json_object_text(m) {
                    Ok(t) => r matches Ok(b) && b@ == t,
                    Err(t) => r matches Err(PayError::JsonError(e)) && e@ == t,
                },
        }
    }

    /// What preparing a payment request from the parameters' JSON gives.
    pub open spec fn pay_outcome(
        &self,
        method: HttpMethod,
        path: Seq<char>,
        params_json: Seq<char>,
        r: Result<Option<PayRequest>, PayError>,
    ) -> bool {
        match json_object_parse(params_json) {
            Err(t) => r matches Err(PayError::JsonError(e)) && e@ == t,
            Ok(p) => exists|m: serde_json::Map<String, serde_json::Value>|
                #[trigger] json_string_members(m) == self.body_members(p) && match json_object_text(m) {
                    Ok(t) => r matches Ok(o) && self.prepared(method, path, t, o),
                    Err(t) => r matches Err(PayError::JsonError(e)) && e@ == t,
                },
        }
    }

    /// The body of a payment: the parameters' JSON object with the merchant's
    /// `appid`, `mchid` and `notify_url`.
    pub fn request_body(&self, params_json: &str) -> (r: Result<String, PayError>)
        ensures
            self.body_outcome(params_json@, r),
    {
        let mut map = match json_object_from_str(params_json) {
            Ok(m) => m,
            Err(e) => return Err(PayError::JsonError(e)),
        };
        let ghost p = json_string_members(map);
        json_insert_string(&mut map, String::from_str("appid"), self.appid());
        json_insert_string(&mut map, String::from_str("mchid"), self.mch_id());
        json_insert_string(&mut map, String::from_str("notify_url"), self.notify_url());
        assert(json_string_members(map) == self.body_members(p));
        match json_object_to_string(&map) {
            Ok(body) => Ok(body),
            Err(e) => Err(PayError::JsonError(e)),
        }
    }

    /// The request `method` to `path` with `body`, signed now with a fresh
    /// nonce; `None` where the merchant's key cannot sign.
    pub fn prepare_request(&self, method: HttpMethod, path: &str, body: &str) -> (r: Option<
        PayRequest,
    >)
        ensures
            self.prepared(method, path@, body@, r),
    {
        match self.build_header(method, path, body) {
            Some(headers) => {
                let mut url = self.base_url();
                url.append(path);
                Some(PayRequest { method, url, headers, body: String::from_str(body) })
            },
            None => None,
        }
    }

    /// The payment request `method` to `url` for the parameters' JSON object:
    /// its body holds the merchant's `appid`, `mchid` and `notify_url`.
    pub fn pay(&self, method: HttpMethod, url: &str, params_json: &str) -> (r: Result<
        Option<PayRequest>,
        PayError,
    >)
        ensures
            self.pay_outcome(method, url@, params_json@, r),
    {
        let body = self.request_body(params_json)?;
        Ok(self.prepare_request(method, url, body.as_str()))
    }

    /// The `GET` request to `url`, with an empty body.
    pub fn get_pay(&self, url: &str) -> (r: Option<PayRequest>)
        ensures
            self.prepared(HttpMethod::GET, url@, ""@, r),
    {
        self.prepare_request(HttpMethod::GET, url, "")
    }

    /// An H5 payment.
    pub fn h5_pay(&self, params_json: &str) -> (r: Result<Option<PayRequest>, PayError>)
        ensures
            self.pay_outcome(HttpMethod::POST, "/v3/pay/transactions/h5"@, params_json@, r),
    {
        self.pay(HttpMethod::POST, "/v3/pay/transactions/h5", params_json)
    }

    /// A Native (QR code) payment.
    pub fn native_pay(&self, params_json: &str) -> (r: Result<Option<PayRequest>, PayError>)
        ensures
            self.pay_outcome(HttpMethod::POST, "/v3/pay/transactions/native"@, params_json@, r),
    {
        self.pay(HttpMethod::POST, "/v3/pay/transactions/native", params_json)
    }

    /// An App payment; sign the answer with [`WechatPay::sign_app_response`].
    pub fn app_pay(&self, params_json: &str) -> (r: Result<Option<PayRequest>, PayError>)
        ensures
            self.pay_outcome(HttpMethod::POST, "/v3/pay/transactions/app"@, params_json@, r),
    {
        self.pay(HttpMethod::POST, "/v3/pay/transactions/app", params_json)
    }

    /// A mini-program payment (it goes to the JSAPI endpoint); sign the answer
    /// with [`WechatPay::sign_micro_response`].
    pub fn micro_pay(&self, params_json: &str) -> (r: Result<Option<PayRequest>, PayError>)
        ensures
            self.pay_outcome(HttpMethod::POST, "/v3/pay/transactions/jsapi"@, params_json@, r),
    {
        self.pay(HttpMethod::POST, "/v3/pay/transactions/jsapi", params_json)
    }

    /// A JSAPI payment; sign the answer with [`WechatPay::sign_jsapi_response`].
    pub fn jsapi_pay(&self, params_json: &str) -> (r: Result<Option<PayRequest>, PayError>)
        ensures
            self.pay_outcome(HttpMethod::POST, "/v3/pay/transactions/jsapi"@, params_json@, r),
    {
        self.pay(HttpMethod::POST, "/v3/pay/transactions/jsapi", params_json)
    }

    /// The download of the platform certificates.
    pub fn certificates(&self) -> (r: Option<PayRequest>)
        ensures
            self.prepared(HttpMethod::GET, "/v3/certificates"@, ""@, r),
    {
        self.get_pay("/v3/certificates")
    }

    /// A refund; its body is the parameters' JSON as it is.
    pub fn refunds(&self, params_json: &str) -> (r: Option<PayRequest>)
        ensures
            self.prepared(HttpMethod::POST, "/v3/refund/domestic/refunds"@, params_json@, r),
    {
        self.prepare_request(HttpMethod::POST, "/v3/refund/domestic/refunds", params_json)
    }

    /// The query of an order by the merchant's order number.
    pub fn get_pay_info_by_out_trade_no(&self, out_trade_no: &str) -> (r: Option<PayRequest>)
        ensures
            self.prepared(
                HttpMethod::GET,
                "/v3/pay/transactions/out-trade-no/"@ + out_trade_no@ + "?mchid="@ + self.mch_id_view(),
                ""@,
                r,
            ),
    {
        let mut url = String::from_str("/v3/pay/transactions/out-trade-no/");
        url.append(out_trade_no);
        url.append("?mchid=");
        let mch_id = self.mch_id();
        url.append(mch_id.as_str());
        self.get_pay(url.as_str())
    }
}

/// What reading the `weixin://` link out of an H5 page gives: the first piece,
/// cut at `"`, of the first line that holds `weixin://`; an error where no
/// line holds it.
pub open spec fn weixin_outcome(text: Seq<char>, r: Result<Option<String>, PayError>) -> bool {
    match first_containing(split_by(text, '\n'), "weixin://"@) {
        None => r == Err::<Option<String>, PayError>(PayError::WeixinNotFound),
        Some(line) => r matches Ok(o) && match first_containing(split_by(line, '"'), "weixin://"@) {
            Some(link) => o matches Some(x) && x@ == link,
            None => o is None,
        },
    }
}

/// The `weixin://` link in the text of an H5 page: the first piece, cut at
/// `"`, of the first line that holds `weixin://`.
pub fn weixin_from_page(text: &str) -> (r: Result<Option<String>, PayError>)
    ensures
        weixin_outcome(text@, r),
        r matches Ok(o) ==> o matches Some(x) && contains_text(x@, "weixin://"@) && !x@.contains(
            '"',
        ) && !x@.contains('\n'),
{
    let chars = chars_of(text);
    let pat = chars_of("weixin://");
    proof {
        reveal_strlit("weixin://");
        assert(!pat@.contains('"')) by {
            if pat@.contains('"') {
                let k = choose|k: int| 0 <= k < pat@.len() && pat@[k] == '"';
            }
        }
    }
    match find_piece(&chars, '\n', &pat) {
        None => Err(PayError::WeixinNotFound),
        Some(line) => {
            proof {
                lemma_first_containing_member(split_by(text@, '\n'), pat@);
                lemma_piece_contains(line@, '"', pat@);
                lemma_first_containing_member(split_by(line@, '"'), pat@);
                lemma_split_pieces(text@, '\n');
                lemma_split_pieces(line@, '"');
            }
            match find_piece(&line, '"', &pat) {
                Some(link) => {
                    proof {
                        let k = choose|k: int|
                            0 <= k < split_by(line@, '"').len() && #[trigger] split_by(line@, '"')[k]
                                == link@;
                        let j = choose|j: int|
                            0 <= j < split_by(text@, '\n').len() && #[trigger] split_by(text@, '\n')[j]
                                == line@;
                        assert forall|x: char| link@.contains(x) implies x != '"' && x != '\n' by {
                            assert(split_by(line@, '"')[k].contains(x));
                            assert(line@.contains(x));
                            assert(split_by(text@, '\n')[j].contains(x));
                        }
                    }
                    Ok(Some(string_of(&link)))
                },
                None => Ok(None),
            }
        },
    }
}

impl WechatPay {
    /// The request that fetches an H5 page, with `referer` as its `Referer`.
    pub fn get_weixin(&self, h5_url: &str, referer: &str) -> (r: PayRequest)
        ensures
            r.method == HttpMethod::GET,
            r.url@ == h5_url@,
            pairs_view(r.headers@) == seq![("referer"@, referer@)],
            r.body@ == ""@,
    {
        let mut headers: Vec<(String, String)> = Vec::new();
        headers.push((String::from_str("referer"), String::from_str(referer)));
        assert(pairs_view(headers@) =~= seq![("referer"@, referer@)]);
        PayRequest {
            method: HttpMethod::GET,
            url: String::from_str(h5_url),
            headers,
            body: String::from_str(""),
        }
    }
}

} // verus!
