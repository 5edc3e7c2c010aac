//! Which of the service's routes a deployment has switched off.

use vstd::prelude::*;
use crate::error::ServiceError;
use crate::text::{str_equals, strip_prefix_or_whole, strip_prefix_or_keep};

verus! {

/// For each route, whether it is disabled.
pub struct DisabledRoutes {
    pub init_upload: bool,
    pub url: bool,
}

/// A route of the service.
pub enum Route {
    InitUpload,
    Url,
}

/// Collects the routes to disable before a [`DisabledRoutes`] is made.
pub struct DisabledRoutesBuilder {
    init_upload: Option<bool>,
    url: Option<bool>,
}

impl View for DisabledRoutesBuilder {
    /// What was set for `init_upload` and for `url`.
    type V = (Option<bool>, Option<bool>);

    closed spec fn view(&self) -> (Option<bool>, Option<bool>) {
        (self.init_upload, self.url)
    }
}

/// The settings after `route` is disabled.
pub open spec fn spec_disable(b: (Option<bool>, Option<bool>), route: Route) -> (Option<bool>, Option<bool>) {
    match route {
        Route::InitUpload => (Some(true), b.1),
        Route::Url => (b.0, Some(true)),
    }
}

/// The routes that the settings `b` disable: a route left unset stays enabled.
pub open spec fn spec_routes(b: (Option<bool>, Option<bool>)) -> DisabledRoutes {
    DisabledRoutes {
        init_upload: match b.0 { Some(v) => v, None => false },
        url: match b.1 { Some(v) => v, None => false },
    }
}

/// The name a request path is looked up under: the path with a leading
/// `/upload/` taken off.
pub open spec fn route_name(path: Seq<char>) -> Seq<char> {
    strip_prefix_or_keep(path, "/upload/"@)
}

/// Whether a request for `path` falls on a disabled route.
pub open spec fn spec_is_disabled(routes: DisabledRoutes, path: Seq<char>) -> bool {
    let name = route_name(path);
    if name == "init_upload"@ {
        routes.init_upload
    } else if name == "url"@ {
        routes.url
    } else {
        false
    }
}

/// The full path of a route as the service mounts it.
pub open spec fn route_path(route: Route) -> Seq<char> {
    match route {
        Route::InitUpload => "/upload/init_upload"@,
        Route::Url => "/upload/url"@,
    }
}

impl Default for DisabledRoutesBuilder {
    fn default() -> (b: Self)
        ensures
            b@ == (None::<bool>, None::<bool>),
    {
        DisabledRoutesBuilder { init_upload: None, url: None }
    }
}

impl Default for DisabledRoutes {
    fn default() -> (r: Self)
        ensures
            !r.init_upload,
            !r.url,
    {
        DisabledRoutes { init_upload: false, url: false }
    }
}

impl DisabledRoutesBuilder {
    /// Marks `route` as disabled.
    pub fn disable(self, route: Route) -> (b: Self)
        ensures
            b@ == spec_disable(self@, route),
    {
        let mut b = self;
        match route {
            Route::InitUpload => b.init_upload = Some(true),
            Route::Url => b.url = Some(true),
        }
        b
    }
}

impl DisabledRoutes {
    /// A builder with no route disabled yet.
    pub fn builder() -> (b: DisabledRoutesBuilder)
        ensures
            b@ == (None::<bool>, None::<bool>),
    {
        DisabledRoutesBuilder::default()
    }

    /// The routes that `builder` disabled; the others stay enabled.
    pub fn new(builder: DisabledRoutesBuilder) -> (r: Self)
        ensures
            r == spec_routes(builder@),
    {
        DisabledRoutes {
            init_upload: match builder.init_upload {
                Some(v) => v,
                None => false,
            },
            url: match builder.url {
                Some(v) => v,
                None => false,
            },
        }
    }

    /// Whether a request for `path` falls on a disabled route. The path is matched
    /// with or without its leading `/upload/`; an unknown path is never disabled.
    pub fn is_disabled(&self, path: &str) -> (r: bool)
        ensures
            r == spec_is_disabled(*self, path@),
    {
        let name = strip_prefix_or_whole(path, "/upload/");
        if str_equals(name.as_str(), "init_upload") {
            self.init_upload
        } else if str_equals(name.as_str(), "url") {
            self.url
        } else {
            false
        }
    }

    /// The refusal for a request to `path`: `403 this route is disabled` when the
    /// route is disabled, nothing when the request may go on.
    pub fn rejection(&self, path: &str) -> (r: Option<ServiceError>)
        ensures
            spec_is_disabled(*self, path@) ==> (r matches Some(ServiceError::HttpMessage(status, msg))
                && status == 403 && msg@ == "this route is disabled"@),
            !spec_is_disabled(*self, path@) ==> r is None,
    {
        if self.is_disabled(path) {
            Some(ServiceError::HttpMessage(403, "this route is disabled".to_string()))
        } else {
            None
        }
    }
}

/// A route that the builder disabled is reported disabled under its full path and
/// under its bare name, and disabling one route leaves the other as it was.
pub proof fn law_disabled_route_is_disabled(b: DisabledRoutesBuilder, route: Route)
    ensures
        spec_is_disabled(spec_routes(spec_disable(b@, route)), route_path(route)),
        spec_is_disabled(
            spec_routes(spec_disable(b@, route)),
            route_path(route).skip(8),
        ),
        route matches Route::InitUpload ==> spec_routes(spec_disable(b@, route)).url
            == spec_routes(b@).url,
        route matches Route::Url ==> spec_routes(spec_disable(b@, route)).init_upload
            == spec_routes(b@).init_upload,
{
    reveal_strlit("/upload/");
    reveal_strlit("/upload/init_upload");
    reveal_strlit("/upload/url");
    reveal_strlit("init_upload");
    reveal_strlit("url");
    assert("/upload/"@.is_prefix_of("/upload/init_upload"@));
    assert("/upload/init_upload"@.skip(8) =~= "init_upload"@);
    assert("/upload/"@.is_prefix_of("/upload/url"@));
    assert("/upload/url"@.skip(8) =~= "url"@);
    assert("/upload/"@[0] != "init_upload"@[0]);
    assert(!"/upload/"@.is_prefix_of("init_upload"@));
    assert(!"/upload/"@.is_prefix_of("url"@));
    assert("init_upload"@ != "url"@);
}

/// Disabling two routes gives the same settings in either order.
pub proof fn law_disable_order_does_not_matter(b: DisabledRoutesBuilder, first: Route, second: Route)
    ensures
        spec_disable(spec_disable(b@, first), second) == spec_disable(spec_disable(b@, second), first),
{
}

/// With nothing disabled, no path is refused.
pub proof fn law_default_disables_nothing(path: Seq<char>)
    ensures
        !spec_is_disabled(spec_routes((None::<bool>, None::<bool>)), path),
{
}

} // verus!
