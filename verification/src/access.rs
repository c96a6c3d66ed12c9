//! Admin authorization shared by the platform API and its wasm component.

use vstd::prelude::*;
use crate::text::{concat2, opt_view, str_eq};

verus! {

/// An admin request was refused.
pub enum AuthError {
    Unauthorized,
}

/// Whether a request with this `Authorization` header text may act as admin: always when no
/// admin token is configured, otherwise exactly when the header is `Bearer {token}`.
pub open spec fn admin_allowed(admin_token: Option<Seq<char>>, authorization: Seq<char>) -> bool {
    match admin_token {
        None => true,
        Some(t) => authorization == "Bearer "@ + t,
    }
}

/// Checks an admin request (see `admin_allowed`); `authorization` is the header's text, empty
/// when the header is missing.
pub fn require_admin(admin_token: &Option<String>, authorization: &str) -> (r: Result<(), AuthError>)
    ensures
        r is Ok <==> admin_allowed(opt_view(*admin_token), authorization@),
{
    match admin_token {
        None => Ok(()),
        Some(expected) => {
            let want = concat2("Bearer ", expected.as_str());
            if str_eq(authorization, want.as_str()) {
                Ok(())
            } else {
                Err(AuthError::Unauthorized)
            }
        },
    }
}

} // verus!
