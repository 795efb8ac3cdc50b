use vstd::prelude::*;
use crate::message::{Request, Response};

verus! {

/// The status code of a response for which no route was found.
pub open spec fn not_found_code() -> u16 {
    404
}

/// Relies on http::StatusCode::NOT_FOUND and StatusCode::as_u16: the
/// "Not Found" constant is the code 404.
#[verifier::external_body]
fn not_found_status() -> (r: u16)
    ensures
        r == not_found_code(),
{
    http::StatusCode::NOT_FOUND.as_u16()
}

/// A unit that requests can be dispatched to: first asked whether it is
/// ready, then handed a request, which it consumes to give a response or an
/// error.
pub trait Service: Sized {
    /// Whether the unit never holds a call back.
    spec fn always_ready(&self) -> bool;

    /// Whether the unit may be handed `req`.
    spec fn accepts(&self, req: Request) -> bool;

    /// Whether `res` is an outcome that handing `req` to the unit may give.
    spec fn serves(&self, req: Request, res: Result<Response, http::Error>) -> bool;

    /// Reports whether the unit can take a call now. Asking does not change
    /// which requests the unit takes nor how it answers them.
    fn poll_ready(&mut self) -> (r: Result<(), http::Error>)
        ensures
            old(self).always_ready() ==> r is Ok && *final(self) == *old(self),
            final(self).always_ready() == old(self).always_ready(),
            forall|q: Request| #[trigger] final(self).accepts(q) == old(self).accepts(q),
            forall|q: Request, s: Result<Response, http::Error>|
                #[trigger] final(self).serves(q, s) == old(self).serves(q, s),
    ;

    /// Dispatches `req` to the unit.
    fn call(&mut self, req: Request) -> (r: Result<Response, http::Error>)
        requires
            old(self).accepts(req),
        ensures
            old(self).serves(req, r),
    ;
}

/// Whether `res` is the response to a request that no route took: status
/// 404, no headers and an empty body.
pub open spec fn is_not_found(res: Result<Response, http::Error>) -> bool {
    match res {
        Ok(resp) => resp.status == not_found_code() && resp.headers@.len() == 0 && resp.body@.len() == 0,
        Err(_) => false,
    }
}

/// The unit at the end of every dispatch: always ready, it answers every
/// request with "not found".
#[derive(Clone, Copy)]
pub struct EmptyRouter(());

impl EmptyRouter {
    /// The one value of the unit.
    pub closed spec fn terminal() -> EmptyRouter {
        EmptyRouter(())
    }

    /// The unit that answers "not found".
    pub fn new() -> (r: EmptyRouter)
        ensures
            r == EmptyRouter::terminal(),
    {
        EmptyRouter(())
    }
}

impl Service for EmptyRouter {
    open spec fn always_ready(&self) -> bool {
        true
    }

    open spec fn accepts(&self, req: Request) -> bool {
        true
    }

    open spec fn serves(&self, req: Request, res: Result<Response, http::Error>) -> bool {
        is_not_found(res)
    }

    fn poll_ready(&mut self) -> (r: Result<(), http::Error>) {
        Ok(())
    }

    fn call(&mut self, req: Request) -> (r: Result<Response, http::Error>) {
        let mut res = Response::new(Vec::new());
        res.status = not_found_status();
        Ok(res)
    }
}

/// The root of an application: it holds one unit, and answers each request
/// by handing it to a fresh clone of that unit.
#[derive(Clone)]
pub struct App<R> {
    router: R,
}

impl<R> App<R> {
    /// The unit that the application holds.
    pub closed spec fn router(&self) -> R {
        self.router
    }
}

impl App<EmptyRouter> {
    /// An application that answers every request with "not found".
    pub fn new() -> (r: App<EmptyRouter>)
        ensures
            r.router() == EmptyRouter::terminal(),
            forall|req: Request| r.accepts(req),
            forall|req: Request, res: Result<Response, http::Error>|
                r.dispatches(req, res) ==> is_not_found(res),
    {
        App { router: EmptyRouter(()) }
    }
}

impl<R: Service + Clone> App<R> {
    /// An application that hands each request to `router`.
    pub fn with_router(router: R) -> (r: App<R>)
        ensures
            r.router() == router,
    {
        App { router }
    }

    /// Whether every clone of the held unit may be handed `req`.
    pub open spec fn accepts(&self, req: Request) -> bool {
        forall|u: R| cloned(self.router(), u) ==> #[trigger] u.accepts(req)
    }

    /// Whether `res` is an outcome of asking a clone of the held unit whether
    /// it is ready and, where it is, handing it `req`: an error where the
    /// clone may refuse, else what the clone may answer.
    pub open spec fn dispatches(&self, req: Request, res: Result<Response, http::Error>) -> bool {
        exists|u: R|
            #[trigger] cloned(self.router(), u) && (u.serves(req, res) || (!u.always_ready() && res is Err))
    }

    /// Asks a clone of the held unit whether it is ready; where it is,
    /// dispatches `req` to it and returns its outcome, else the clone's error.
    pub fn call(&self, req: Request) -> (r: Result<Response, http::Error>)
        requires
            self.accepts(req),
        ensures
            self.dispatches(req, r),
    {
        let mut svc = self.router.clone();
        let ghost u = svc;
        assert(cloned(self.router, u));
        let ready = svc.poll_ready();
        let ghost polled = svc;
        assert(polled.accepts(req) == u.accepts(req));
        match ready {
            Ok(()) => {
                let r = svc.call(req);
                assert(polled.serves(req, r) == u.serves(req, r));
                assert(u.serves(req, r));
                r
            },
            Err(e) => {
                let r: Result<Response, http::Error> = Err(e);
                assert(!u.always_ready());
                r
            },
        }
    }
}

/// Every request may be dispatched through the default application, and
/// every outcome of doing so is a "not found" response, whatever the
/// request's method, path, headers or body.
pub proof fn lemma_empty_app_not_found(app: App<EmptyRouter>, req: Request, res: Result<Response, http::Error>)
    ensures
        app.accepts(req),
        app.dispatches(req, res) ==> is_not_found(res),
{
}

} // verus!
