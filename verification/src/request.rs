//! HTTP methods of the API.

use vstd::prelude::*;

verus! {

/// An HTTP method.
#[derive(Debug, Clone, Copy, PartialEq, Eq)]
pub enum HttpMethod {
    GET,
    POST,
    PUT,
    DELETE,
    PATCH,
    HEAD,
    OPTIONS,
    TRACE,
}

/// The name of a method, as it stands in a request line and in the signed
/// message.
pub open spec fn method_name(m: HttpMethod) -> Seq<char> {
    match m {
        HttpMethod::GET => "GET"@,
        HttpMethod::POST => "POST"@,
        HttpMethod::PUT => "PUT"@,
        HttpMethod::DELETE => "DELETE"@,
        HttpMethod::PATCH => "PATCH"@,
        HttpMethod::HEAD => "HEAD"@,
        HttpMethod::OPTIONS => "OPTIONS"@,
        HttpMethod::TRACE => "TRACE"@,
    }
}

impl HttpMethod {
    /// The name of the method, in upper case.
    pub fn to_string(&self) -> (s: String)
        ensures
            s@ == method_name(*self),
    {
        match self {
            HttpMethod::GET => String::from_str("GET"),
            HttpMethod::POST => String::from_str("POST"),
            HttpMethod::PUT => String::from_str("PUT"),
            HttpMethod::DELETE => String::from_str("DELETE"),
            HttpMethod::PATCH => String::from_str("PATCH"),
            HttpMethod::HEAD => String::from_str("HEAD"),
            HttpMethod::OPTIONS => String::from_str("OPTIONS"),
            HttpMethod::TRACE => String::from_str("TRACE"),
        }
    }
}

/// Different methods have different names.
pub proof fn lemma_method_names_distinct(a: HttpMethod, b: HttpMethod)
    requires
        a != b,
    ensures
        method_name(a) != method_name(b),
{
    reveal_strlit("GET");
    reveal_strlit("POST");
    reveal_strlit("PUT");
    reveal_strlit("DELETE");
    reveal_strlit("PATCH");
    reveal_strlit("HEAD");
    reveal_strlit("OPTIONS");
    reveal_strlit("TRACE");
    if method_name(a) == method_name(b) {
        assert(method_name(a).len() == method_name(b).len());
        assert(method_name(a)[0] == method_name(b)[0]);
        assert(method_name(a)[1] == method_name(b)[1]);
    }
}

} // verus!
