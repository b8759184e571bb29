//! The kinds of payment.

use vstd::prelude::*;

verus! {

/// A kind of payment.
#[derive(Debug, Clone, Copy, PartialEq, Eq)]
pub enum PayType {
    Micro,
    Jsapi,
    Native,
    App,
    H5,
    Qrcode,
}

/// The name of a kind of payment: the variant's name in upper case.
pub open spec fn pay_type_name(t: PayType) -> Seq<char> {
    match t {
        PayType::Micro => "MICRO"@,
        PayType::Jsapi => "JSAPI"@,
        PayType::Native => "NATIVE"@,
        PayType::App => "APP"@,
        PayType::H5 => "H5"@,
        PayType::Qrcode => "QRCODE"@,
    }
}

impl PayType {
    /// The name of the kind of payment, in upper case.
    pub fn to_string(&self) -> (s: String)
        ensures
            s@ == pay_type_name(*self),
    {
        match self {
            PayType::Micro => String::from_str("MICRO"),
            PayType::Jsapi => String::from_str("JSAPI"),
            PayType::Native => String::from_str("NATIVE"),
            PayType::App => String::from_str("APP"),
            PayType::H5 => String::from_str("H5"),
            PayType::Qrcode => String::from_str("QRCODE"),
        }
    }
}

/// Different kinds of payment have different names.
pub proof fn lemma_pay_type_names_distinct(a: PayType, b: PayType)
    requires
        a != b,
    ensures
        pay_type_name(a) != pay_type_name(b),
{
    reveal_strlit("MICRO");
    reveal_strlit("JSAPI");
    reveal_strlit("NATIVE");
    reveal_strlit("APP");
    reveal_strlit("H5");
    reveal_strlit("QRCODE");
    if pay_type_name(a) == pay_type_name(b) {
        assert(pay_type_name(a).len() == pay_type_name(b).len());
        assert(pay_type_name(a)[0] == pay_type_name(b)[0]);
        assert(pay_type_name(a)[1] == pay_type_name(b)[1]);
    }
}

} // verus!
