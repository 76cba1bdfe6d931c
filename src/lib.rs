//! A one-shot OAuth2 authorization-code callback capture.
//!
//! The library decides everything that happens between an incoming request and
//! the value handed back to the waiting caller: decoding the callback query,
//! rendering the browser page, the single-write capture slot, and routing.
//! Serving HTTP is left to the caller.
pub mod response;
pub mod ui;
pub mod form;
pub mod server;
pub mod capture;
