//! The platform API service: tenant creation and lifecycle requests.

pub mod record;
pub mod errors;
pub mod lifecycle;
pub mod messages;
pub mod flows;
pub mod laws;
