//! The platform API as a wasm component: the same tenant API served from a wasmCloud host,
//! with configuration, key-value storage and messaging provided by the host.

pub mod config;
pub mod routes;
pub mod flow;
pub mod laws;
