//! The HTTP route inventory that the Settings API assembly contributes.

use vstd::prelude::*;

verus! {

/// HTTP methods used by the route inventory.
#[derive(PartialEq, Eq, Structural, Clone, Copy, Debug)]
pub enum HttpMethod {
    Get,
    Post,
    Put,
    Patch,
    Delete,
}

/// One entry of a route manifest: method, path template, owning domain,
/// operation id, whether the route takes the dual-token authentication, and
/// the permission a caller must hold.
#[derive(Debug, PartialEq, Eq)]
pub struct HttpRoute {
    pub method: HttpMethod,
    pub path: String,
    pub domain: String,
    pub operation: String,
    pub dual_token: bool,
    pub required_permission: Option<String>,
}

/// Mathematical value of an [`HttpRoute`].
pub struct HttpRouteView {
    pub method: HttpMethod,
    pub path: Seq<char>,
    pub domain: Seq<char>,
    pub operation: Seq<char>,
    pub dual_token: bool,
    pub required_permission: Option<Seq<char>>,
}

pub open spec fn opt_string_view(s: Option<String>) -> Option<Seq<char>> {
    match s {
        Some(v) => Some(v@),
        None => None,
    }
}

impl View for HttpRoute {
    type V = HttpRouteView;

    open spec fn view(&self) -> HttpRouteView {
        HttpRouteView {
            method: self.method,
            path: self.path@,
            domain: self.domain@,
            operation: self.operation@,
            dual_token: self.dual_token,
            required_permission: opt_string_view(self.required_permission),
        }
    }
}

pub open spec fn routes_view(routes: Seq<HttpRoute>) -> Seq<HttpRouteView> {
    routes.map_values(|r: HttpRoute| r@)
}

impl HttpRoute {
    /// A route that takes the dual-token authentication and needs no
    /// particular permission yet.
    pub fn dual_token(method: HttpMethod, path: &str, domain: &str, operation: &str) -> (r: HttpRoute)
        ensures
            r@ == (HttpRouteView {
                method,
                path: path@,
                domain: domain@,
                operation: operation@,
                dual_token: true,
                required_permission: None,
            }),
    {
        HttpRoute {
            method,
            path: String::from_str(path),
            domain: String::from_str(domain),
            operation: String::from_str(operation),
            dual_token: true,
            required_permission: None,
        }
    }

    /// The same route, now demanding `permission` of its callers.
    pub fn with_required_permission(self, permission: &str) -> (r: HttpRoute)
        ensures
            r@ == (HttpRouteView { required_permission: Some(permission@), ..self@ }),
    {
        HttpRoute { required_permission: Some(String::from_str(permission)), ..self }
    }
}

/// Value of a route of the `settings` domain with the dual-token authentication.
pub open spec fn settings_route_view(
    method: HttpMethod,
    path: Seq<char>,
    operation: Seq<char>,
    permission: Seq<char>,
) -> HttpRouteView {
    HttpRouteView {
        method,
        path,
        domain: "settings"@,
        operation,
        dual_token: true,
        required_permission: Some(permission),
    }
}

fn settings_route(method: HttpMethod, path: &str, operation: &str, permission: &str) -> (r: HttpRoute)
    ensures
        r@ == settings_route_view(method, path@, operation@, permission@),
{
    HttpRoute::dual_token(method, path, "settings", operation).with_required_permission(permission)
}

/// The app-api route inventory (preferences of the signed-in user).
pub open spec fn spec_app_api_routes() -> Seq<HttpRouteView> {
    seq![
        settings_route_view(HttpMethod::Get, "/settings/v1/app-api/preferences"@, "preferences.list"@, "iam:self"@),
        settings_route_view(HttpMethod::Get, "/settings/v1/app-api/preferences/{namespace}"@, "preferences.entries.list"@, "iam:self"@),
        settings_route_view(HttpMethod::Get, "/settings/v1/app-api/preferences/{namespace}/{key}"@, "preferences.entries.retrieve"@, "iam:self"@),
        settings_route_view(HttpMethod::Put, "/settings/v1/app-api/preferences/{namespace}/{key}"@, "preferences.entries.update"@, "iam:self"@),
        settings_route_view(HttpMethod::Delete, "/settings/v1/app-api/preferences/{namespace}/{key}"@, "preferences.entries.delete"@, "iam:self"@),
        settings_route_view(HttpMethod::Post, "/settings/v1/app-api/preferences:batchUpdate"@, "preferences.batchUpdate"@, "iam:self"@),
    ]
}

/// The backend-api route inventory (tenant configuration, system settings, revisions).
pub open spec fn spec_backend_api_routes() -> Seq<HttpRouteView> {
    seq![
        settings_route_view(HttpMethod::Get, "/settings/v1/backend-api/tenant-configs"@, "tenantConfigs.list"@, "iam:tenant:admin"@),
        settings_route_view(HttpMethod::Get, "/settings/v1/backend-api/tenant-configs/{namespace}/{key}"@, "tenantConfigs.retrieve"@, "iam:tenant:admin"@),
        settings_route_view(HttpMethod::Put, "/settings/v1/backend-api/tenant-configs/{namespace}/{key}"@, "tenantConfigs.update"@, "iam:tenant:admin"@),
        settings_route_view(HttpMethod::Get, "/settings/v1/backend-api/system-settings"@, "systemSettings.list"@, "iam:system:admin"@),
        settings_route_view(HttpMethod::Get, "/settings/v1/backend-api/system-settings/{namespace}/{key}"@, "systemSettings.retrieve"@, "iam:system:admin"@),
        settings_route_view(HttpMethod::Put, "/settings/v1/backend-api/system-settings/{namespace}/{key}"@, "systemSettings.update"@, "iam:system:admin"@),
        settings_route_view(HttpMethod::Get, "/settings/v1/backend-api/revisions"@, "revisions.list"@, "iam:tenant:admin"@),
    ]
}

/// Builds the app-api route inventory.
pub fn app_api_routes() -> (routes: Vec<HttpRoute>)
    ensures
        routes_view(routes@) == spec_app_api_routes(),
{
    let mut routes: Vec<HttpRoute> = Vec::new();
    routes.push(settings_route(HttpMethod::Get, "/settings/v1/app-api/preferences", "preferences.list", "iam:self"));
    routes.push(settings_route(HttpMethod::Get, "/settings/v1/app-api/preferences/{namespace}", "preferences.entries.list", "iam:self"));
    routes.push(settings_route(HttpMethod::Get, "/settings/v1/app-api/preferences/{namespace}/{key}", "preferences.entries.retrieve", "iam:self"));
    routes.push(settings_route(HttpMethod::Put, "/settings/v1/app-api/preferences/{namespace}/{key}", "preferences.entries.update", "iam:self"));
    routes.push(settings_route(HttpMethod::Delete, "/settings/v1/app-api/preferences/{namespace}/{key}", "preferences.entries.delete", "iam:self"));
    routes.push(settings_route(HttpMethod::Post, "/settings/v1/app-api/preferences:batchUpdate", "preferences.batchUpdate", "iam:self"));
    assert(routes_view(routes@) =~= spec_app_api_routes());
    routes
}

/// Builds the backend-api route inventory.
pub fn backend_api_routes() -> (routes: Vec<HttpRoute>)
    ensures
        routes_view(routes@) == spec_backend_api_routes(),
{
    let mut routes: Vec<HttpRoute> = Vec::new();
    routes.push(settings_route(HttpMethod::Get, "/settings/v1/backend-api/tenant-configs", "tenantConfigs.list", "iam:tenant:admin"));
    routes.push(settings_route(HttpMethod::Get, "/settings/v1/backend-api/tenant-configs/{namespace}/{key}", "tenantConfigs.retrieve", "iam:tenant:admin"));
    routes.push(settings_route(HttpMethod::Put, "/settings/v1/backend-api/tenant-configs/{namespace}/{key}", "tenantConfigs.update", "iam:tenant:admin"));
    routes.push(settings_route(HttpMethod::Get, "/settings/v1/backend-api/system-settings", "systemSettings.list", "iam:system:admin"));
    routes.push(settings_route(HttpMethod::Get, "/settings/v1/backend-api/system-settings/{namespace}/{key}", "systemSettings.retrieve", "iam:system:admin"));
    routes.push(settings_route(HttpMethod::Put, "/settings/v1/backend-api/system-settings/{namespace}/{key}", "systemSettings.update", "iam:system:admin"));
    routes.push(settings_route(HttpMethod::Get, "/settings/v1/backend-api/revisions", "revisions.list", "iam:tenant:admin"));
    assert(routes_view(routes@) =~= spec_backend_api_routes());
    routes
}

/// A set of routes handed to the gateway as one unit.
#[derive(Debug, PartialEq, Eq)]
pub struct HttpRouteManifest {
    routes: Vec<HttpRoute>,
}

impl View for HttpRouteManifest {
    type V = Seq<HttpRouteView>;

    closed spec fn view(&self) -> Seq<HttpRouteView> {
        routes_view(self.routes@)
    }
}

impl HttpRouteManifest {
    /// A manifest made of the given routes, in their order.
    pub fn from_owned_routes(routes: Vec<HttpRoute>) -> (m: HttpRouteManifest)
        ensures
            m@ == routes_view(routes@),
    {
        HttpRouteManifest { routes }
    }

    /// The routes of the manifest.
    pub fn routes(&self) -> (r: &Vec<HttpRoute>)
        ensures
            routes_view(r@) == self@,
    {
        &self.routes
    }

    /// Number of routes in the manifest.
    pub fn len(&self) -> (n: usize)
        ensures
            n == self@.len(),
    {
        self.routes.len()
    }
}

/// The combined inventory: the app-api routes followed by the backend-api routes.
pub open spec fn spec_combined_routes() -> Seq<HttpRouteView> {
    spec_app_api_routes() + spec_backend_api_routes()
}

/// Builds the manifest of every business route of the assembly.
pub fn combined_route_manifest() -> (m: HttpRouteManifest)
    ensures
        m@ == spec_combined_routes(),
        m@.len() == 13,
{
    let mut routes = app_api_routes();
    let mut backend = backend_api_routes();
    let ghost app_view = routes_view(routes@);
    let ghost backend_view = routes_view(backend@);
    routes.append(&mut backend);
    assert(routes_view(routes@) =~= app_view + backend_view);
    HttpRouteManifest::from_owned_routes(routes)
}

/// Number of route crates that the assembly composes: the app-api crate and
/// the backend-api crate.
pub const ROUTE_CRATE_COUNT: usize = 2;

/// Number of route crates that the assembly composes.
pub fn assembly_route_count() -> (n: usize)
    ensures
        n == ROUTE_CRATE_COUNT,
        n == 2,
{
    ROUTE_CRATE_COUNT
}

/// Path prefix of the app-api surface.
pub open spec fn app_api_prefix() -> Seq<char> {
    "/settings/v1/app-api/"@
}

/// Path prefix of the backend-api surface.
pub open spec fn backend_api_prefix() -> Seq<char> {
    "/settings/v1/backend-api/"@
}

/// Path prefix of the system settings resource.
pub open spec fn system_settings_prefix() -> Seq<char> {
    "/settings/v1/backend-api/system-settings"@
}

/// The permission that a resource calls for: the user's own preferences need
/// self access, system settings need the system administrator, and the other
/// backend resources (tenant configuration, revisions) the tenant administrator.
pub open spec fn permission_for_path(path: Seq<char>) -> Seq<char> {
    if app_api_prefix().is_prefix_of(path) {
        "iam:self"@
    } else if system_settings_prefix().is_prefix_of(path) {
        "iam:system:admin"@
    } else {
        "iam:tenant:admin"@
    }
}

proof fn lemma_not_prefix(p: Seq<char>, s: Seq<char>, i: int)
    requires
        0 <= i < p.len(),
        i < s.len(),
        p[i] != s[i],
    ensures
        !p.is_prefix_of(s),
{
    if p.is_prefix_of(s) {
        assert(p[i] == s.subrange(0, p.len() as int)[i]);
    }
}

/// Facts of the route inventory that the laws below draw on.
proof fn lemma_route_inventory()
    ensures
        forall|i: int|
            0 <= i < spec_combined_routes().len() ==> #[trigger] spec_combined_routes()[i].required_permission
                == Some(permission_for_path(spec_combined_routes()[i].path)),
        forall|i: int, j: int|
            0 <= i < j < spec_combined_routes().len() ==> (#[trigger] spec_combined_routes()[i]).method
                != (#[trigger] spec_combined_routes()[j]).method || spec_combined_routes()[i].path
                != spec_combined_routes()[j].path,
        forall|i: int|
            0 <= i < spec_combined_routes().len() ==> {
                let route = #[trigger] spec_combined_routes()[i];
                &&& route.domain == "settings"@
                &&& route.dual_token
                &&& (i < 6 ==> app_api_prefix().is_prefix_of(route.path))
                &&& (i >= 6 ==> backend_api_prefix().is_prefix_of(route.path))
            },
        ROUTE_CRATE_COUNT == 2,
{
    reveal_strlit("/settings/v1/app-api/");
    reveal_strlit("/settings/v1/app-api/preferences");
    reveal_strlit("/settings/v1/app-api/preferences/{namespace}");
    reveal_strlit("/settings/v1/app-api/preferences/{namespace}/{key}");
    reveal_strlit("/settings/v1/app-api/preferences:batchUpdate");
    reveal_strlit("/settings/v1/backend-api/revisions");
    reveal_strlit("/settings/v1/backend-api/system-settings");
    reveal_strlit("/settings/v1/backend-api/system-settings/{namespace}/{key}");
    reveal_strlit("/settings/v1/backend-api/tenant-configs");
    reveal_strlit("/settings/v1/backend-api/tenant-configs/{namespace}/{key}");
    reveal_strlit("iam:self");
    reveal_strlit("iam:system:admin");
    reveal_strlit("iam:tenant:admin");
    reveal_strlit("settings");
    let r = spec_combined_routes();
    assert(r[0].path == "/settings/v1/app-api/preferences"@);
    assert(r[1].path == "/settings/v1/app-api/preferences/{namespace}"@);
    assert(r[2].path == "/settings/v1/app-api/preferences/{namespace}/{key}"@);
    assert(r[3].path == "/settings/v1/app-api/preferences/{namespace}/{key}"@);
    assert(r[4].path == "/settings/v1/app-api/preferences/{namespace}/{key}"@);
    assert(r[5].path == "/settings/v1/app-api/preferences:batchUpdate"@);
    assert(r[6].path == "/settings/v1/backend-api/tenant-configs"@);
    lemma_not_prefix(app_api_prefix(), r[6].path, 13);
    lemma_not_prefix(system_settings_prefix(), r[6].path, 25);
    assert(r[7].path == "/settings/v1/backend-api/tenant-configs/{namespace}/{key}"@);
    lemma_not_prefix(app_api_prefix(), r[7].path, 13);
    lemma_not_prefix(system_settings_prefix(), r[7].path, 25);
    assert(r[8].path == "/settings/v1/backend-api/tenant-configs/{namespace}/{key}"@);
    lemma_not_prefix(app_api_prefix(), r[8].path, 13);
    lemma_not_prefix(system_settings_prefix(), r[8].path, 25);
    assert(r[9].path == "/settings/v1/backend-api/system-settings"@);
    lemma_not_prefix(app_api_prefix(), r[9].path, 13);
    assert(r[10].path == "/settings/v1/backend-api/system-settings/{namespace}/{key}"@);
    lemma_not_prefix(app_api_prefix(), r[10].path, 13);
    assert(r[11].path == "/settings/v1/backend-api/system-settings/{namespace}/{key}"@);
    lemma_not_prefix(app_api_prefix(), r[11].path, 13);
    assert(r[12].path == "/settings/v1/backend-api/revisions"@);
    lemma_not_prefix(app_api_prefix(), r[12].path, 13);
    lemma_not_prefix(system_settings_prefix(), r[12].path, 25);
    assert(r[0].path.len() != r[1].path.len());
    assert(r[0].path.len() != r[2].path.len());
    assert(r[0].path.len() != r[6].path.len());
    assert(r[0].path.len() != r[7].path.len());
    assert(r[0].path.len() != r[9].path.len());
    assert(r[0].path.len() != r[10].path.len());
    assert(r[0].path.len() != r[12].path.len());
    assert(r[1].path.len() != r[2].path.len());
    assert(r[1].path.len() != r[6].path.len());
    assert(r[1].path.len() != r[7].path.len());
    assert(r[1].path.len() != r[9].path.len());
    assert(r[1].path.len() != r[10].path.len());
    assert(r[1].path.len() != r[12].path.len());
    assert(r[2].path.len() != r[6].path.len());
    assert(r[2].path.len() != r[7].path.len());
    assert(r[2].path.len() != r[9].path.len());
    assert(r[2].path.len() != r[10].path.len());
    assert(r[2].path.len() != r[12].path.len());
    assert(r[3].path.len() != r[8].path.len());
    assert(r[3].path.len() != r[11].path.len());
    assert(r[6].path.len() != r[7].path.len());
    assert(r[6].path.len() != r[9].path.len());
    assert(r[6].path.len() != r[10].path.len());
    assert(r[6].path.len() != r[12].path.len());
    assert(r[7].path.len() != r[9].path.len());
    assert(r[7].path.len() != r[10].path.len());
    assert(r[7].path.len() != r[12].path.len());
    assert(r[8].path.len() != r[11].path.len());
    assert(r[9].path.len() != r[10].path.len());
    assert(r[9].path.len() != r[12].path.len());
    assert(r[10].path.len() != r[12].path.len());
    reveal_strlit("/settings/v1/backend-api/");
    assert forall|i: int| 0 <= i < r.len() implies #[trigger] r[i].required_permission == Some(permission_for_path(r[i].path)) by {
        assert(0 <= i < 13);
    }
    assert forall|i: int, j: int| 0 <= i < j < r.len() implies (#[trigger] r[i]).method != (#[trigger] r[j]).method
        || r[i].path != r[j].path by {
        assert(0 <= i < 13 && 0 <= j < 13);
    }
    assert forall|i: int| 0 <= i < r.len() implies {
        let route = #[trigger] r[i];
        &&& route.domain == "settings"@
        &&& route.dual_token
        &&& (i < 6 ==> app_api_prefix().is_prefix_of(route.path))
        &&& (i >= 6 ==> backend_api_prefix().is_prefix_of(route.path))
    } by {
        assert(0 <= i < 13);
    }
}

/// Every route of the assembly demands the permission that its resource
/// calls for: self access for the user's preferences, the system
/// administrator for system settings, the tenant administrator for tenant
/// configuration and revisions.
pub proof fn lemma_route_permissions_follow_resource()
    ensures
        forall|i: int|
            0 <= i < spec_combined_routes().len() ==> #[trigger] spec_combined_routes()[i].required_permission
                == Some(permission_for_path(spec_combined_routes()[i].path)),
{
    lemma_route_inventory();
}

/// No two routes of the assembly share both method and path, so the gateway
/// can mount every route.
pub proof fn lemma_routes_are_distinct()
    ensures
        forall|i: int, j: int|
            0 <= i < j < spec_combined_routes().len() ==> (#[trigger] spec_combined_routes()[i]).method
                != (#[trigger] spec_combined_routes()[j]).method || spec_combined_routes()[i].path
                != spec_combined_routes()[j].path,
{
    lemma_route_inventory();
}

/// Every route belongs to the `settings` domain, takes the dual-token
/// authentication, and lies under the path prefix of one of the
/// [`ROUTE_CRATE_COUNT`] route crates: the first six under the app-api prefix,
/// the rest under the backend-api prefix.
pub proof fn lemma_routes_belong_to_route_crates()
    ensures
        forall|i: int|
            0 <= i < spec_combined_routes().len() ==> {
                let route = #[trigger] spec_combined_routes()[i];
                &&& route.domain == "settings"@
                &&& route.dual_token
                &&& (i < 6 ==> app_api_prefix().is_prefix_of(route.path))
                &&& (i >= 6 ==> backend_api_prefix().is_prefix_of(route.path))
            },
        ROUTE_CRATE_COUNT == 2,
{
    lemma_route_inventory();
}

} // verus!
