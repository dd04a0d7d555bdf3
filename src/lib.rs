//! Diagnostic webhook receiver core: renders an inbound request for
//! inspection and checks its HMAC-SHA256 signature header.

pub mod request;
pub mod text;
pub mod hexcode;
pub mod mac;
pub mod signature;
pub mod render;
pub mod report;
pub mod laws;
