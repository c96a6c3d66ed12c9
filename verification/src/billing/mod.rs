//! The billing service: Stripe checkout sessions and Stripe webhooks.

pub mod hex;
pub mod signature;
pub mod checkout;
pub mod webhook;
pub mod laws;
