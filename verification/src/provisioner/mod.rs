//! The provisioner service: it brings each tenant's Supabase stack up or down and keeps the
//! tenant record in the store in step with what it did.

pub mod naming;
pub mod record;
pub mod jobs;
pub mod requests;
pub mod laws;
pub mod env;
pub mod layout;
pub mod secrets;
pub mod yaml;
pub mod compose;
