use vstd::prelude::*;

verus! {

/// The request methods the service tells apart.
#[derive(Clone, Copy, Debug, PartialEq, Eq, Structural)]
pub enum Method {
    Get,
    Head,
    Post,
    Put,
    Patch,
    Delete,
    Options,
}

/// The operations the service can answer with.
#[derive(Clone, Copy, Debug, PartialEq, Eq, Structural)]
pub enum Handler {
    /// The fixed greeting.
    Index,
    /// The lookup of the watched network assertion.
    ListNetworkAssertions,
}

/// One entry of the routing table.
#[derive(Clone, Debug)]
pub struct Route {
    pub method: Method,
    pub path: String,
    pub handler: Handler,
}

/// An explicit routing table: the first entry whose method and path match a
/// request decides its handler.
#[derive(Clone, Debug)]
pub struct Router {
    pub routes: Vec<Route>,
}

/// A route as a triple of method, path and handler.
pub open spec fn route_view(r: Route) -> (Method, Seq<char>, Handler) {
    (r.method, r.path@, r.handler)
}

impl View for Router {
    type V = Seq<(Method, Seq<char>, Handler)>;

    open spec fn view(&self) -> Seq<(Method, Seq<char>, Handler)> {
        self.routes@.map_values(|r: Route| route_view(r))
    }
}

/// The handler of the first of `routes[from..]` that matches `method` and `path`.
pub open spec fn resolve_from(
    routes: Seq<(Method, Seq<char>, Handler)>,
    method: Method,
    path: Seq<char>,
    from: int,
) -> Option<Handler>
    decreases routes.len() - from,
{
    if from < 0 || from >= routes.len() {
        None
    } else if routes[from].0 == method && routes[from].1 == path {
        Some(routes[from].2)
    } else {
        resolve_from(routes, method, path, from + 1)
    }
}

/// The handler that a routing table picks for a request.
pub open spec fn spec_resolve(
    routes: Seq<(Method, Seq<char>, Handler)>,
    method: Method,
    path: Seq<char>,
) -> Option<Handler> {
    resolve_from(routes, method, path, 0)
}

/// The service's routes: `GET /` greets, `GET /NetworkAssertions` looks up the
/// watched assertion.
pub open spec fn service_routes() -> Seq<(Method, Seq<char>, Handler)> {
    seq![
        (Method::Get, "/"@, Handler::Index),
        (Method::Get, "/NetworkAssertions"@, Handler::ListNetworkAssertions),
    ]
}

/// The routing table of the service.
pub fn rocket() -> (r: Router)
    ensures
        r@ == service_routes(),
{
    let mut routes: Vec<Route> = Vec::new();
    routes.push(Route { method: Method::Get, path: String::from_str("/"), handler: Handler::Index });
    routes.push(
        Route {
            method: Method::Get,
            path: String::from_str("/NetworkAssertions"),
            handler: Handler::ListNetworkAssertions,
        },
    );
    let r = Router { routes };
    assert(r@ =~= service_routes());
    r
}

impl Router {
    /// The handler for a request with this method and path, if any route matches.
    pub fn resolve(&self, method: Method, path: &str) -> (r: Option<Handler>)
        ensures
            r == spec_resolve(self@, method, path@),
    {
        let wanted = String::from_str(path);
        let mut i: usize = 0;
        while i < self.routes.len()
            invariant
                i <= self.routes@.len(),
                wanted@ == path@,
                spec_resolve(self@, method, path@) == resolve_from(
                    self@,
                    method,
                    path@,
                    i as int,
                ),
            decreases self.routes@.len() - i,
        {
            let route = &self.routes[i];
            if route.method == method && route.path == wanted {
                return Some(route.handler);
            }
            i += 1;
        }
        None
    }
}

/// A response: a status code and a plain-text body.
#[derive(Clone, Debug)]
pub struct Response {
    pub status: u16,
    pub body: String,
}

/// What went wrong when the client asked the cluster API, as the client
/// reports it.
#[derive(Clone, Copy, Debug, PartialEq, Eq, Structural)]
pub enum ClientFailure {
    /// No client could be set up, or the API server could not be reached.
    Connect,
    /// The API server answered with this error status.
    Status(u16),
    /// The API server's answer could not be decoded.
    Decode,
}

/// Why the watched assertion could not be looked up.
#[derive(Clone, Copy, Debug, PartialEq, Eq, Structural)]
pub enum LookupError {
    /// The cluster API could not be reached.
    Unreachable,
    /// The assertion does not exist.
    NotFound,
    /// The service may not read the assertion.
    Forbidden,
    /// The cluster API refused the request with this status.
    Rejected(u16),
    /// The cluster API's answer was not a usable assertion.
    Decode,
}

/// How a client failure is classified.
pub open spec fn spec_classify(f: ClientFailure) -> LookupError {
    match f {
        ClientFailure::Connect => LookupError::Unreachable,
        ClientFailure::Status(code) => if code == 404 {
            LookupError::NotFound
        } else if code == 401 || code == 403 {
            LookupError::Forbidden
        } else {
            LookupError::Rejected(code)
        },
        ClientFailure::Decode => LookupError::Decode,
    }
}

/// The status code that answers a lookup error.
pub open spec fn spec_error_status(e: LookupError) -> u16 {
    match e {
        LookupError::Unreachable => 503,
        LookupError::NotFound => 404,
        LookupError::Forbidden => 403,
        LookupError::Rejected(_) => 502,
        LookupError::Decode => 502,
    }
}

/// The body that answers a lookup error.
pub open spec fn spec_error_message(e: LookupError) -> Seq<char> {
    match e {
        LookupError::Unreachable => "cluster API unreachable"@,
        LookupError::NotFound => "network assertion not found"@,
        LookupError::Forbidden => "access to network assertion denied"@,
        LookupError::Rejected(_) => "cluster API rejected the request"@,
        LookupError::Decode => "cluster API answer could not be decoded"@,
    }
}

impl LookupError {
    /// Classifies a client failure: 404 is a missing assertion, 401 and 403 a
    /// denied access, any other status a refusal.
    pub fn from_failure(f: ClientFailure) -> (r: Self)
        ensures
            r == spec_classify(f),
    {
        match f {
            ClientFailure::Connect => LookupError::Unreachable,
            ClientFailure::Status(code) => if code == 404 {
                LookupError::NotFound
            } else if code == 401 || code == 403 {
                LookupError::Forbidden
            } else {
                LookupError::Rejected(code)
            },
            ClientFailure::Decode => LookupError::Decode,
        }
    }

    /// The status code that answers this error.
    pub fn status_code(&self) -> (r: u16)
        ensures
            r == spec_error_status(*self),
    {
        match self {
            LookupError::Unreachable => 503,
            LookupError::NotFound => 404,
            LookupError::Forbidden => 403,
            LookupError::Rejected(_) => 502,
            LookupError::Decode => 502,
        }
    }

    /// The body that answers this error.
    pub fn message(&self) -> (r: String)
        ensures
            r@ == spec_error_message(*self),
    {
        match self {
            LookupError::Unreachable => String::from_str("cluster API unreachable"),
            LookupError::NotFound => String::from_str("network assertion not found"),
            LookupError::Forbidden => String::from_str("access to network assertion denied"),
            LookupError::Rejected(_) => String::from_str("cluster API rejected the request"),
            LookupError::Decode => String::from_str("cluster API answer could not be decoded"),
        }
    }
}

/// The namespace of the watched assertion.
pub fn assertion_namespace() -> (r: &'static str)
    ensures
        r@ == "netchecks"@,
{
    "netchecks"
}

/// The name of the watched assertion.
pub fn assertion_name() -> (r: &'static str)
    ensures
        r@ == "aws-dns-should-work"@,
{
    "aws-dns-should-work"
}

/// The lookup's outcome with names as character sequences.
pub open spec fn outcome_view(o: Result<Option<String>, LookupError>) -> Result<
    Option<Seq<char>>,
    LookupError,
> {
    match o {
        Ok(Some(name)) => Ok(Some(name@)),
        Ok(None) => Ok(None),
        Err(e) => Err(e),
    }
}

/// The answer to a lookup: the object's name after a greeting when it was
/// found with a name; an object without a name counts as undecodable.
pub open spec fn spec_lookup_response(o: Result<Option<Seq<char>>, LookupError>) -> (
    u16,
    Seq<char>,
) {
    match o {
        Ok(Some(name)) => (200, "Hello "@ + name),
        Ok(None) => (
            spec_error_status(LookupError::Decode),
            spec_error_message(LookupError::Decode),
        ),
        Err(e) => (spec_error_status(e), spec_error_message(e)),
    }
}

/// Whether `needle` occurs in `hay` as a contiguous run.
pub open spec fn contains(hay: Seq<char>, needle: Seq<char>) -> bool {
    exists|i: int| 0 <= i && i + needle.len() <= hay.len() && #[trigger] hay.subrange(i, i + needle.len()) == needle
}

/// A GET of the root path is routed to the greeting, and so is every request
/// for the root path that the service routes at all, whatever its method.
pub proof fn root_path_greets(method: Method)
    ensures
        spec_resolve(service_routes(), Method::Get, "/"@) == Some(Handler::Index),
        spec_resolve(service_routes(), method, "/"@) is Some ==> spec_resolve(
            service_routes(),
            method,
            "/"@,
        ) == Some(Handler::Index),
{
    reveal_strlit("/");
    reveal_strlit("/NetworkAssertions");
    assert("/"@ != "/NetworkAssertions"@) by {
        assert("/"@.len() != "/NetworkAssertions"@.len());
    }
    let routes = service_routes();
    assert(resolve_from(routes, method, "/"@, 2) is None);
    assert(resolve_from(routes, method, "/"@, 1) is None);
}

/// A lookup that found an object with a name answers with success, and its
/// body holds that name.
pub proof fn found_lookup_names_object(name: Seq<char>)
    ensures
        spec_lookup_response(Ok(Some(name))).0 == 200,
        contains(spec_lookup_response(Ok(Some(name))).1, name),
{
    reveal_strlit("Hello ");
    let body = spec_lookup_response(Ok(Some(name))).1;
    assert(body.subrange(6, 6 + name.len() as int) =~= name);
}

/// A lookup that failed, or found an object without a name, answers with an
/// error status; a missing object and an unreachable cluster answer
/// differently.
pub proof fn failed_lookup_fails(e: LookupError)
    ensures
        spec_lookup_response(Err(e)).0 >= 400,
        spec_lookup_response(Ok(None)).0 >= 400,
        spec_lookup_response(Err(LookupError::NotFound)) != spec_lookup_response(
            Err(LookupError::Unreachable),
        ),
{
}

/// The answer to the greeting route.
pub fn index_response() -> (r: Response)
    ensures
        r.status == 200,
        r.body@ == "Hello"@,
{
    Response { status: 200, body: crate::index() }
}

/// The answer to the lookup route, given what the cluster API returned: the
/// name of the object found, or why none was.
pub fn lookup_response(outcome: Result<Option<String>, LookupError>) -> (r: Response)
    ensures
        (r.status, r.body@) == spec_lookup_response(outcome_view(outcome)),
{
    match outcome {
        Ok(Some(name)) => {
            let body = String::from_str("Hello ").concat(name.as_str());
            Response { status: 200, body }
        },
        Ok(None) => {
            let e = LookupError::Decode;
            Response { status: e.status_code(), body: e.message() }
        },
        Err(e) => Response { status: e.status_code(), body: e.message() },
    }
}

} // verus!
