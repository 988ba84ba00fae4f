//! A verified client core for a signed trading API: an encrypted credential
//! store and the request-signing protocol (canonical query strings,
//! HMAC-SHA256 signatures, decimal normalization of order fields).

pub mod text;
pub mod signing;
pub mod app_settings;
pub mod api;
