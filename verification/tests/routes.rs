use sdkwork_settings::routes::{
    app_api_routes, assembly_route_count, backend_api_routes, combined_route_manifest, HttpMethod,
    HttpRoute, ROUTE_CRATE_COUNT,
};

#[test]
fn assembly_route_count_is_two_route_crates() {
    assert_eq!(assembly_route_count(), 2);
    assert_eq!(ROUTE_CRATE_COUNT, 2);
}

#[test]
fn combined_manifest_has_app_then_backend_routes() {
    let manifest = combined_route_manifest();
    assert_eq!(manifest.len(), 13);
    let routes = manifest.routes();
    let app = app_api_routes();
    let backend = backend_api_routes();
    assert_eq!(app.len(), 6);
    assert_eq!(backend.len(), 7);
    for (i, r) in app.iter().enumerate() {
        assert_eq!(&routes[i], r);
    }
    for (i, r) in backend.iter().enumerate() {
        assert_eq!(&routes[6 + i], r);
    }
}

#[test]
fn first_and_last_routes() {
    let manifest = combined_route_manifest();
    let routes = manifest.routes();
    assert_eq!(routes[0].method, HttpMethod::Get);
    assert_eq!(routes[0].path, "/settings/v1/app-api/preferences");
    assert_eq!(routes[0].operation, "preferences.list");
    assert_eq!(routes[12].path, "/settings/v1/backend-api/revisions");
    assert_eq!(routes[12].operation, "revisions.list");
    assert_eq!(routes[12].required_permission.as_deref(), Some("iam:tenant:admin"));
}

#[test]
fn permissions_follow_the_resource() {
    for r in combined_route_manifest().routes() {
        let expected = if r.path.starts_with("/settings/v1/app-api/") {
            "iam:self"
        } else if r.path.starts_with("/settings/v1/backend-api/system-settings") {
            "iam:system:admin"
        } else {
            "iam:tenant:admin"
        };
        assert_eq!(r.required_permission.as_deref(), Some(expected), "{}", r.path);
        assert_eq!(r.domain, "settings");
        assert!(r.dual_token);
    }
}

#[test]
fn no_two_routes_share_method_and_path() {
    let manifest = combined_route_manifest();
    let routes = manifest.routes();
    for i in 0..routes.len() {
        for j in (i + 1)..routes.len() {
            assert!(routes[i].method != routes[j].method || routes[i].path != routes[j].path);
        }
    }
}

#[test]
fn route_builders() {
    let r = HttpRoute::dual_token(HttpMethod::Patch, "/x", "d", "op");
    assert_eq!(r.required_permission, None);
    assert!(r.dual_token);
    let r = r.with_required_permission("p");
    assert_eq!(r.path, "/x");
    assert_eq!(r.domain, "d");
    assert_eq!(r.operation, "op");
    assert_eq!(r.required_permission.as_deref(), Some("p"));
}
