//! Authentication core for a ticketing platform: the anti-bot token
//! envelope, the anti-replay session token, request signing and the QR-code
//! login state machine. Transport and JSON decoding live with the caller.

pub mod params;
pub mod session;
pub mod signing;
pub mod token_store;
pub mod qrcode;
pub mod login_poll;
pub mod config;
