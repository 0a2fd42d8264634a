//! Which requests the server answers, and from which origins.
use vstd::prelude::*;

verus! {

/// A request method that the server answers.
#[derive(Debug, Clone, Copy, PartialEq, Eq, Structural)]
pub enum Method {
    Get,
    Post,
}

/// What answers a request.
#[derive(Debug, Clone, Copy, PartialEq, Eq, Structural)]
pub enum Endpoint {
    /// Add a new chain; the request's body is read as JSON.
    AddChain,
    /// List the registered chains.
    ListChains,
    /// Tell that the server is up.
    HealthCheck,
}

/// A route: requests with this method, whose path begins with these segments, go to
/// this endpoint.
#[derive(Debug, PartialEq, Eq)]
pub struct Route {
    pub segments: Vec<String>,
    pub method: Method,
    pub endpoint: Endpoint,
}

/// The model of a `Route`.
#[verifier::ext_equal]
pub struct RouteView {
    pub segments: Seq<Seq<char>>,
    pub method: Method,
    pub endpoint: Endpoint,
}

impl RouteView {
    /// Whether a request with this method and these path segments takes the route.
    pub open spec fn takes(self, method: Method, path: Seq<Seq<char>>) -> bool {
        &&& method == self.method
        &&& self.segments.len() <= path.len()
        &&& path.take(self.segments.len() as int) == self.segments
    }
}

impl DeepView for Route {
    type V = RouteView;

    open spec fn deep_view(&self) -> RouteView {
        RouteView {
            segments: self.segments.deep_view(),
            method: self.method,
            endpoint: self.endpoint,
        }
    }
}

/// What pages of other origins may ask of the server.
#[derive(Debug, PartialEq, Eq)]
pub struct CorsPolicy {
    /// Whether any origin may.
    pub allow_any_origin: bool,
    /// The request headers that they may set.
    pub allow_headers: Vec<String>,
    /// The methods that they may use.
    pub allow_methods: Vec<Method>,
}

/// The routes, in the order in which they are tried, and the policy for all of them.
#[derive(Debug, PartialEq, Eq)]
pub struct ApiRoutes {
    pub routes: Vec<Route>,
    pub cors: CorsPolicy,
}

/// The path segments of the chains resource.
pub open spec fn chains_path() -> Seq<Seq<char>> {
    seq!["api"@, "v1"@, "chains"@]
}

/// The path segments of the health check.
pub open spec fn health_path() -> Seq<Seq<char>> {
    seq!["health"@]
}

/// The routes, in the order in which they are tried.
pub open spec fn route_table() -> Seq<RouteView> {
    seq![
        RouteView {
            segments: chains_path(),
            method: Method::Post,
            endpoint: Endpoint::AddChain,
        },
        RouteView {
            segments: chains_path(),
            method: Method::Get,
            endpoint: Endpoint::ListChains,
        },
        RouteView {
            segments: health_path(),
            method: Method::Get,
            endpoint: Endpoint::HealthCheck,
        },
    ]
}

fn chains_segments() -> (segments: Vec<String>)
    ensures
        segments.deep_view() == chains_path(),
{
    let segments: Vec<String> = vec!["api".to_owned(), "v1".to_owned(), "chains".to_owned()];
    assert(segments.deep_view() =~= chains_path());
    segments
}

/// Create the API routes.
pub fn create_routes() -> (api: ApiRoutes)
    ensures
        api.routes.deep_view() == route_table(),
        api.cors.allow_any_origin,
        api.cors.allow_headers.deep_view() == seq!["content-type"@],
        api.cors.allow_methods@ == seq![Method::Get, Method::Post],
{
    let add_chain_route = Route {
        segments: chains_segments(),
        method: Method::Post,
        endpoint: Endpoint::AddChain,
    };
    let list_chains_route = Route {
        segments: chains_segments(),
        method: Method::Get,
        endpoint: Endpoint::ListChains,
    };
    let health_segments: Vec<String> = vec!["health".to_owned()];
    assert(health_segments.deep_view() =~= health_path());
    let health_route = Route {
        segments: health_segments,
        method: Method::Get,
        endpoint: Endpoint::HealthCheck,
    };
    let routes: Vec<Route> = vec![add_chain_route, list_chains_route, health_route];
    assert(routes.deep_view() =~= route_table());
    let allow_headers: Vec<String> = vec!["content-type".to_owned()];
    assert(allow_headers.deep_view() =~= seq!["content-type"@]);
    let allow_methods: Vec<Method> = vec![Method::Get, Method::Post];
    assert(allow_methods@ =~= seq![Method::Get, Method::Post]);
    ApiRoutes {
        routes,
        cors: CorsPolicy { allow_any_origin: true, allow_headers, allow_methods },
    }
}

/// The routes do not overlap: no request takes two of them, so their order does not
/// matter.
pub proof fn routes_do_not_overlap(method: Method, path: Seq<Seq<char>>, i: int, j: int)
    requires
        0 <= i < route_table().len(),
        0 <= j < route_table().len(),
        route_table()[i].takes(method, path),
        route_table()[j].takes(method, path),
    ensures
        i == j,
{
    reveal_strlit("api");
    reveal_strlit("health");
    let a = route_table()[i].segments;
    let b = route_table()[j].segments;
    assert(a[0] == path.take(a.len() as int)[0]);
    assert(b[0] == path.take(b.len() as int)[0]);
    assert(chains_path()[0] == "api"@);
    assert(health_path()[0] == "health"@);
    assert("api"@.len() != "health"@.len());
}

/// Every method that a route uses is one that pages of other origins may use.
pub proof fn cors_covers_routes(i: int)
    requires
        0 <= i < route_table().len(),
    ensures
        seq![Method::Get, Method::Post].contains(route_table()[i].method),
{
    assert(seq![Method::Get, Method::Post][0] == Method::Get);
    assert(seq![Method::Get, Method::Post][1] == Method::Post);
}

/// Which endpoint a request goes to: a `POST` below `/api/v1/chains` adds a chain, a
/// `GET` there lists the chains, a `GET` below `/health` checks the health, and no
/// other request takes a route.
pub proof fn requests_find_their_endpoint(method: Method, path: Seq<Seq<char>>, endpoint: Endpoint)
    ensures
        (exists|i: int|
            0 <= i < route_table().len() && #[trigger] route_table()[i].takes(method, path)
                && route_table()[i].endpoint == endpoint) <==> match endpoint {
            Endpoint::AddChain => method == Method::Post && path.len() >= 3 && path[0] == "api"@ && path[1] == "v1"@ && path[2]
                == "chains"@,
            Endpoint::ListChains => method == Method::Get && path.len() >= 3 && path[0] == "api"@ && path[1] == "v1"@ && path[2]
                == "chains"@,
            Endpoint::HealthCheck => method == Method::Get && path.len() >= 1 && path[0]
                == "health"@,
        },
{
    let chains = seq!["api"@, "v1"@, "chains"@];
    let below = path.len() >= 3 && path[0] == "api"@ && path[1] == "v1"@ && path[2] == "chains"@;
    if path.len() >= 3 && path.take(3) == chains {
        assert(path.take(3)[0] == path[0]);
        assert(path.take(3)[1] == path[1]);
        assert(path.take(3)[2] == path[2]);
    }
    if below {
        assert(path.take(3) =~= chains);
    }
    if path.len() >= 1 && path.take(1) == seq!["health"@] {
        assert(path.take(1)[0] == path[0]);
    }
    if path.len() >= 1 && path[0] == "health"@ {
        assert(path.take(1) =~= seq!["health"@]);
    }
    assert(route_table().len() == 3);
    assert(route_table()[0].takes(method, path) <==> method == Method::Post && below);
    assert(route_table()[1].takes(method, path) <==> method == Method::Get && below);
    assert(route_table()[2].takes(method, path) <==> method == Method::Get && path.len() >= 1
        && path[0] == "health"@);
}

/// The model of a route tells all of it.
pub proof fn route_model_is_complete(a: Route, b: Route)
    requires
        a.deep_view() == b.deep_view(),
    ensures
        a.segments.deep_view() == b.segments.deep_view(),
        a.method == b.method,
        a.endpoint == b.endpoint,
{
}

/// The routes that the server has are those of the table, and pages of any origin may
/// use them, with the content type and with each of their methods.
pub proof fn server_has_these_routes(api: ApiRoutes)
    requires
        call_ensures(create_routes, (), api),
    ensures
        api.routes.deep_view() == route_table(),
        api.cors.allow_any_origin,
        api.cors.allow_headers.len() == 1,
        api.cors.allow_headers[0]@ == "content-type"@,
        forall|i: int|
            0 <= i < api.routes.len() ==> api.cors.allow_methods@.contains(
                (#[trigger] api.routes[i]).method,
            ),
        forall|method: Method| #[trigger] api.cors.allow_methods@.contains(method) ==> exists|i: int|
            0 <= i < api.routes.len() && (#[trigger] api.routes[i]).method == method,
{
    assert(api.cors.allow_headers.deep_view().len() == 1);
    assert(api.cors.allow_headers.deep_view()[0] == "content-type"@);
    assert(api.routes.deep_view().len() == 3);
    assert forall|i: int| 0 <= i < api.routes.len() implies api.cors.allow_methods@.contains(
        (#[trigger] api.routes[i]).method,
    ) by {
        assert(api.routes.deep_view()[i] == route_table()[i]);
        cors_covers_routes(i);
    }
    assert forall|method: Method| #[trigger] api.cors.allow_methods@.contains(
        method,
    ) implies exists|i: int|
        0 <= i < api.routes.len() && (#[trigger] api.routes[i]).method == method by {
        assert(api.routes.deep_view()[0] == route_table()[0]);
        assert(api.routes.deep_view()[1] == route_table()[1]);
        assert(api.routes[0].method == Method::Post);
        assert(api.routes[1].method == Method::Get);
    }
}

} // verus!
