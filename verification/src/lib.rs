//! Control-plane logic of a multi-tenant Supabase hosting platform.
//!
//! - `text`: string utilities specified over `Seq<char>`.
//! - `provisioner`: tenant records, naming, environment rendering and the provisioning
//!   state machines of the provisioner service.
//! - `access`: admin authorization.
//! - `platform_api`: the tenant lifecycle rules and request flows of the platform API.
//! - `component`: the platform API as a wasm component.
//! - `billing`: Stripe checkout and webhook handling.

pub mod text;
pub mod numbers;
pub mod clock;
pub mod crypto;
pub mod ids;
pub mod random;
pub mod jwt;
pub mod json;
pub mod provisioner;
pub mod access;
pub mod platform_api;
pub mod component;
pub mod billing;
