//! The requests of the API, prepared for a blocking HTTP client.

pub mod pay;
