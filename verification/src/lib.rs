//! Client-side logic of the WeChat Pay v3 API: request signing, callback
//! verification and decryption, request-body and header construction, and the
//! plain data types of the API.

pub mod text;
pub mod codec;
pub mod error;
pub mod sign;
pub mod model;
pub mod response;
pub mod pay_type;
pub mod request;
pub mod pay;
pub mod util;
pub mod json;
pub mod blocking;
