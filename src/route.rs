use vstd::prelude::*;
use crate::message::{bytes_equal, Method, Request, Response};
use crate::service::Service;

verus! {

/// An exact matching key: a method and a path, compared byte for byte.
#[derive(Debug)]
pub struct RouteSpec {
    pub method: Method,
    pub path: Vec<u8>,
}

/// Whether `req` has exactly the method and the path of `spec`.
pub open spec fn route_matches(spec: RouteSpec, req: Request) -> bool {
    req.method@ == spec.method@ && req.path@ == spec.path@
}

impl Clone for RouteSpec {
    fn clone(&self) -> (r: RouteSpec)
        ensures
            r.method@ == self.method@,
            r.path@ == self.path@,
    {
        let path = self.path.clone();
        assert(path@ =~= self.path@);
        RouteSpec { method: self.method.clone(), path }
    }
}

impl RouteSpec {
    /// The key for `method` on `path`.
    pub fn new(method: Method, path: Vec<u8>) -> (r: RouteSpec)
        ensures
            r.method@ == method@,
            r.path@ == path@,
    {
        RouteSpec { method, path }
    }

    /// Whether `req` has exactly this method and this path: no prefix, no
    /// case folding, no trailing-slash rule.
    pub fn matches(&self, req: &Request) -> (r: bool)
        ensures
            r == route_matches(*self, *req),
    {
        req.method.same_as(&self.method) && bytes_equal(&req.path, &self.path)
    }
}

/// A unit that hands a request to `handler` when it matches `route_spec`, and
/// to `fallback` otherwise.
pub struct Route<H, F> {
    handler: H,
    route_spec: RouteSpec,
    fallback: F,
}

impl<H, F> Route<H, F> {
    /// The route that sends what matches `route_spec` to `handler`, the rest to `fallback`.
    pub fn new(handler: H, route_spec: RouteSpec, fallback: F) -> (r: Route<H, F>)
        ensures
            r.handler() == handler,
            r.route_spec() == route_spec,
            r.fallback() == fallback,
    {
        Route { handler, route_spec, fallback }
    }

    /// The unit that takes the requests that match.
    pub closed spec fn handler(&self) -> H {
        self.handler
    }

    /// The key that a request must match to reach the handler.
    pub closed spec fn route_spec(&self) -> RouteSpec {
        self.route_spec
    }

    /// The unit that takes the requests that do not match.
    pub closed spec fn fallback(&self) -> F {
        self.fallback
    }
}

impl<H: Clone, F: Clone> Clone for Route<H, F> {
    fn clone(&self) -> (r: Route<H, F>)
        ensures
            cloned(self.handler(), r.handler()),
            r.route_spec().method@ == self.route_spec().method@,
            r.route_spec().path@ == self.route_spec().path@,
            cloned(self.fallback(), r.fallback()),
    {
        let handler = self.handler.clone();
        assert(cloned(self.handler, handler));
        let fallback = self.fallback.clone();
        assert(cloned(self.fallback, fallback));
        Route { handler, route_spec: self.route_spec.clone(), fallback }
    }
}

impl<H: Service, F: Service> Service for Route<H, F> {
    open spec fn always_ready(&self) -> bool {
        self.handler().always_ready() && self.fallback().always_ready()
    }

    open spec fn accepts(&self, req: Request) -> bool {
        if route_matches(self.route_spec(), req) {
            self.handler().accepts(req)
        } else {
            self.fallback().accepts(req)
        }
    }

    open spec fn serves(&self, req: Request, res: Result<Response, http::Error>) -> bool {
        if route_matches(self.route_spec(), req) {
            self.handler().serves(req, res)
        } else {
            self.fallback().serves(req, res)
        }
    }

    fn poll_ready(&mut self) -> (r: Result<(), http::Error>) {
        self.handler.poll_ready()?;
        self.fallback.poll_ready()
    }

    fn call(&mut self, req: Request) -> (r: Result<Response, http::Error>) {
        if self.route_spec.matches(&req) {
            self.handler.call(req)
        } else {
            self.fallback.call(req)
        }
    }
}

} // verus!
