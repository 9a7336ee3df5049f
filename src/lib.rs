//! Places a ladder of three discounted limit buys per symbol on a derivatives
//! exchange, signs each batch request with HMAC-SHA256, and cancels the batch
//! after a holding period.

pub mod error;
pub mod text;
pub mod price;
pub mod position;
pub mod signing;
pub mod json;
pub mod orders;
pub mod gateway;
pub mod market;
pub mod cycle;
pub mod laws;
