//! Which handler a request of the component goes to.

use vstd::prelude::*;
use crate::text::{
    ends_with, has_prefix, has_suffix, opt_view, starts_with, str_eq, to_chars, trim_end_matches,
    trim_end_str, trim_start_matches, trim_start_str,
};
use crate::access::{admin_allowed, require_admin};

verus! {

/// Where a request goes.
pub enum ComponentRoute {
    /// `GET /healthz`.
    Health,
    /// `POST /v1/tenants`.
    CreateTenant,
    /// `GET /v1/tenants/{id}`.
    GetTenant(String),
    /// `POST /v1/admin/tenants/{id}/reconcile`.
    AdminReconcile(String),
    /// `POST /v1/admin/tenants/{id}/deprovision`.
    AdminDeprovision(String),
    /// A tenant route whose tenant id is empty.
    BadRequest,
    /// An admin route without the admin token.
    Unauthorized,
    /// Anything else.
    NotFound,
}

/// The mathematical value of `ComponentRoute`.
pub enum ComponentRouteView {
    Health,
    CreateTenant,
    GetTenant(Seq<char>),
    AdminReconcile(Seq<char>),
    AdminDeprovision(Seq<char>),
    BadRequest,
    Unauthorized,
    NotFound,
}

impl View for ComponentRoute {
    type V = ComponentRouteView;

    open spec fn view(&self) -> ComponentRouteView {
        match self {
            ComponentRoute::Health => ComponentRouteView::Health,
            ComponentRoute::CreateTenant => ComponentRouteView::CreateTenant,
            ComponentRoute::GetTenant(id) => ComponentRouteView::GetTenant(id@),
            ComponentRoute::AdminReconcile(id) => ComponentRouteView::AdminReconcile(id@),
            ComponentRoute::AdminDeprovision(id) => ComponentRouteView::AdminDeprovision(id@),
            ComponentRoute::BadRequest => ComponentRouteView::BadRequest,
            ComponentRoute::Unauthorized => ComponentRouteView::Unauthorized,
            ComponentRoute::NotFound => ComponentRouteView::NotFound,
        }
    }
}

/// The tenant id of an admin route ending in `suffix`: the path without its
/// `/v1/admin/tenants/` prefixes, without trailing `suffix`es, without trailing slashes.
pub open spec fn admin_tenant_id(path: Seq<char>, suffix: Seq<char>) -> Seq<char> {
    trim_end_matches(trim_end_matches(trim_start_matches(path, "/v1/admin/tenants/"@), suffix), "/"@)
}

/// The route of a request: health and creation by exact method and path; a tenant read by
/// `GET` under `/v1/tenants/`; under `/v1/admin/tenants/`, whatever the method, admin routes
/// that first require the admin token (see `admin_allowed`) and then take `POST` paths
/// ending in `/reconcile` or `/deprovision`. An empty tenant id is a bad request.
pub open spec fn route_of(method: Seq<char>, path: Seq<char>, admin_token: Option<Seq<char>>, authorization: Seq<char>) -> ComponentRouteView {
    if method == "GET"@ && path == "/healthz"@ {
        ComponentRouteView::Health
    } else if method == "POST"@ && path == "/v1/tenants"@ {
        ComponentRouteView::CreateTenant
    } else if method == "GET"@ && has_prefix(path, "/v1/tenants/"@) {
        let id = trim_start_matches(path, "/v1/tenants/"@);
        if id.len() == 0 { ComponentRouteView::BadRequest } else { ComponentRouteView::GetTenant(id) }
    } else if has_prefix(path, "/v1/admin/tenants/"@) {
        if !admin_allowed(admin_token, authorization) {
            ComponentRouteView::Unauthorized
        } else if method == "POST"@ && has_suffix(path, "/reconcile"@) {
            let id = admin_tenant_id(path, "/reconcile"@);
            if id.len() == 0 { ComponentRouteView::BadRequest } else { ComponentRouteView::AdminReconcile(id) }
        } else if method == "POST"@ && has_suffix(path, "/deprovision"@) {
            let id = admin_tenant_id(path, "/deprovision"@);
            if id.len() == 0 { ComponentRouteView::BadRequest } else { ComponentRouteView::AdminDeprovision(id) }
        } else {
            ComponentRouteView::NotFound
        }
    } else {
        ComponentRouteView::NotFound
    }
}

/// The component's admin routes need the admin token when one is configured: every request
/// under `/v1/admin/tenants/` whose `Authorization` is not `Bearer {token}` is refused as
/// unauthorized, whatever its method and the rest of its path. Without a configured token
/// none is refused for that reason.
pub proof fn law_component_admin_routes_require_token(method: Seq<char>, path: Seq<char>, admin_token: Option<Seq<char>>, authorization: Seq<char>)
    requires
        has_prefix(path, "/v1/admin/tenants/"@),
    ensures
        !admin_allowed(admin_token, authorization) ==> route_of(method, path, admin_token, authorization)
            == ComponentRouteView::Unauthorized,
        admin_token is None ==> route_of(method, path, admin_token, authorization) != ComponentRouteView::Unauthorized,
{
    reveal_strlit("/v1/admin/tenants/");
    reveal_strlit("/v1/tenants/");
    reveal_strlit("/v1/tenants");
    reveal_strlit("/healthz");
    assert("/v1/admin/tenants/"@.len() == 18);
    assert(path.take(18)[4] == path[4]);
    assert("/v1/admin/tenants/"@[4] == 'a');
    assert(path[4] == 'a');
    assert(path != "/healthz"@) by {
        assert("/healthz"@.len() < 18);
    }
    assert(path != "/v1/tenants"@) by {
        assert("/v1/tenants"@.len() < 18);
    }
    assert(!has_prefix(path, "/v1/tenants/"@)) by {
        assert("/v1/tenants/"@[4] == 't');
        if has_prefix(path, "/v1/tenants/"@) {
            assert(path.take(12)[4] == path[4]);
        }
    }
}

/// The tenant id of an admin route (see `admin_tenant_id`).
fn admin_id(path: &str, suffix: &str) -> (id: String)
    ensures
        id@ == admin_tenant_id(path@, suffix@),
{
    let a = trim_start_str(path, "/v1/admin/tenants/");
    let b = trim_end_str(a.as_str(), suffix);
    trim_end_str(b.as_str(), "/")
}

/// Routes a request (see `route_of`); `authorization` is the `Authorization` header's text,
/// empty when it is missing.
pub fn route(method: &str, path: &str, admin_token: &Option<String>, authorization: &str) -> (r: ComponentRoute)
    ensures
        r@ == route_of(method@, path@, opt_view(*admin_token), authorization@),
{
    if str_eq(method, "GET") && str_eq(path, "/healthz") {
        return ComponentRoute::Health;
    }
    if str_eq(method, "POST") && str_eq(path, "/v1/tenants") {
        return ComponentRoute::CreateTenant;
    }
    if str_eq(method, "GET") && starts_with(path, "/v1/tenants/") {
        let id = trim_start_str(path, "/v1/tenants/");
        let v = to_chars(id.as_str());
        if v.len() == 0 {
            return ComponentRoute::BadRequest;
        }
        return ComponentRoute::GetTenant(id);
    }
    if starts_with(path, "/v1/admin/tenants/") {
        if require_admin(admin_token, authorization).is_err() {
            return ComponentRoute::Unauthorized;
        }
        if str_eq(method, "POST") && ends_with(path, "/reconcile") {
            let id = admin_id(path, "/reconcile");
            let v = to_chars(id.as_str());
            if v.len() == 0 {
                return ComponentRoute::BadRequest;
            }
            return ComponentRoute::AdminReconcile(id);
        }
        if str_eq(method, "POST") && ends_with(path, "/deprovision") {
            let id = admin_id(path, "/deprovision");
            let v = to_chars(id.as_str());
            if v.len() == 0 {
                return ComponentRoute::BadRequest;
            }
            return ComponentRoute::AdminDeprovision(id);
        }
        return ComponentRoute::NotFound;
    }
    ComponentRoute::NotFound
}

} // verus!
