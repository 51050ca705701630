//! Verified core of the Pubky foreign-function bindings: host classification,
//! transport routing, identity, capabilities, sessions and storage decisions.

pub mod capabilities;
pub mod client;
pub mod encoding;
pub mod error;
pub mod ffi;
pub mod http;
pub mod json_api;
pub mod keys;
pub mod runtime;
pub mod session;
pub mod storage;
pub mod text;
