//! An HTTP filter for proxies that speak the proxy-wasm ABI: every response
//! that passes through it leaves with the header `x-wasm-custom: FOO`.
//!
//! The library holds the filter's decisions and their contracts: what to ask
//! of the host, and what to tell it. The host binding (the proxy-wasm traits,
//! the host calls and the entry point) wraps these types.

pub mod filter;
pub mod headers;
