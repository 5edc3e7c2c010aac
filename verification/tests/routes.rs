use file::routes::DisabledRoutes;
use file::{DisabledRoutesBuilder, Route, ServiceError};

#[test]
fn default_routes_are_enabled() {
    let routes = DisabledRoutes::default();
    assert!(!routes.init_upload);
    assert!(!routes.url);
    assert!(!routes.is_disabled("/upload/init_upload"));
    assert!(!routes.is_disabled("/upload/url"));
}

#[test]
fn builder_disables_only_the_chosen_route() {
    let routes = DisabledRoutes::new(DisabledRoutes::builder().disable(Route::InitUpload));
    assert!(routes.init_upload);
    assert!(!routes.url);
    assert!(routes.is_disabled("/upload/init_upload"));
    assert!(routes.is_disabled("init_upload"));
    assert!(!routes.is_disabled("/upload/url"));
}

#[test]
fn builder_disables_both_routes_in_any_order() {
    let a = DisabledRoutes::new(DisabledRoutes::builder().disable(Route::Url).disable(Route::InitUpload));
    let b = DisabledRoutes::new(DisabledRoutesBuilder::default().disable(Route::InitUpload).disable(Route::Url));
    assert!(a.init_upload && a.url);
    assert!(b.init_upload && b.url);
    assert!(a.is_disabled("/upload/url"));
    assert!(a.is_disabled("url"));
}

#[test]
fn unknown_paths_are_never_disabled() {
    let routes = DisabledRoutes::new(DisabledRoutes::builder().disable(Route::Url).disable(Route::InitUpload));
    assert!(!routes.is_disabled("/upload/other"));
    assert!(!routes.is_disabled("/other/url"));
    assert!(!routes.is_disabled(""));
    assert!(!routes.is_disabled("/upload/"));
    assert!(!routes.is_disabled("/upload/url/"));
}

#[test]
fn disabled_route_is_rejected_with_403() {
    let routes = DisabledRoutes::new(DisabledRoutes::builder().disable(Route::Url));
    assert_eq!(
        routes.rejection("/upload/url"),
        Some(ServiceError::HttpMessage(403, "this route is disabled".to_string()))
    );
    assert_eq!(routes.rejection("/upload/init_upload"), None);
}
