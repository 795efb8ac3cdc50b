use vstd::prelude::*;
use crate::extract::FromRequest;
use crate::message::{Request, Response};
use crate::service::Service;

verus! {

/// A function that handles a request, shaped by the values `Out` that it
/// draws from the request before it runs.
pub trait Handler<Out>: Sized {
    /// Whether the handler may be handed `req`.
    spec fn accepts(&self, req: Request) -> bool;

    /// Whether `res` is an outcome that handing `req` to the handler may give.
    spec fn handles(&self, req: Request, res: Result<Response, http::Error>) -> bool;

    /// Runs the extractions in declared order, then the function.
    fn call(self, req: Request) -> (r: Result<Response, http::Error>)
        requires
            self.accepts(req),
        ensures
            self.handles(req, r),
    ;
}

impl<F> Handler<()> for F where F: Fn(Request) -> Result<Response, http::Error> {
    open spec fn accepts(&self, req: Request) -> bool {
        call_requires(*self, (req,))
    }

    open spec fn handles(&self, req: Request, res: Result<Response, http::Error>) -> bool {
        call_ensures(*self, (req,), res)
    }

    fn call(self, req: Request) -> (r: Result<Response, http::Error>) {
        let res = self(req)?;
        Ok(res)
    }
}

impl<F, T1> Handler<(T1,)> for F where
    F: Fn(Request, T1) -> Result<Response, http::Error>,
    T1: FromRequest,
 {
    open spec fn accepts(&self, req: Request) -> bool {
        forall|after: Request, t1: T1|
            #[trigger] T1::extracted(req, after, t1) ==> call_requires(*self, (after, t1))
    }

    open spec fn handles(&self, req: Request, res: Result<Response, http::Error>) -> bool {
        exists|after: Request, t1: T1|
            #[trigger] T1::extracted(req, after, t1) && call_ensures(*self, (after, t1), res)
    }

    fn call(self, req: Request) -> (r: Result<Response, http::Error>) {
        let mut req = req;
        let t1 = T1::from_request(&mut req);
        let res = self(req, t1)?;
        Ok(res)
    }
}

impl<F, T1, T2> Handler<(T1, T2)> for F where
    F: Fn(Request, T1, T2) -> Result<Response, http::Error>,
    T1: FromRequest,
    T2: FromRequest,
 {
    open spec fn accepts(&self, req: Request) -> bool {
        forall|mid: Request, after: Request, t1: T1, t2: T2|
            #[trigger] T1::extracted(req, mid, t1) && #[trigger] T2::extracted(mid, after, t2)
                ==> call_requires(*self, (after, t1, t2))
    }

    open spec fn handles(&self, req: Request, res: Result<Response, http::Error>) -> bool {
        exists|mid: Request, after: Request, t1: T1, t2: T2|
            #[trigger] T1::extracted(req, mid, t1) && #[trigger] T2::extracted(mid, after, t2)
                && call_ensures(*self, (after, t1, t2), res)
    }

    fn call(self, req: Request) -> (r: Result<Response, http::Error>) {
        let mut req = req;
        let t1 = T1::from_request(&mut req);
        let t2 = T2::from_request(&mut req);
        let res = self(req, t1, t2)?;
        Ok(res)
    }
}

/// A handler that draws nothing is handed the request exactly as it came:
/// its outcomes are those of the function on that request.
pub proof fn lemma_zero_arity_passes_request<F>(f: F, req: Request, res: Result<Response, http::Error>)
    where
        F: Fn(Request) -> Result<Response, http::Error>,
    ensures
        <F as Handler<()>>::accepts(&f, req) == call_requires(f, (req,)),
        <F as Handler<()>>::handles(&f, req, res) == call_ensures(f, (req,), res),
{
}

/// A handler that draws two values runs the first extraction on the request
/// as it came, the second on the request that the first left, and only then
/// the function, on the request that the second left.
pub proof fn lemma_extractions_in_declared_order<F, T1, T2>(
    f: F,
    req: Request,
    res: Result<Response, http::Error>,
)
    where
        F: Fn(Request, T1, T2) -> Result<Response, http::Error>,
        T1: FromRequest,
        T2: FromRequest,
    requires
        <F as Handler<(T1, T2)>>::handles(&f, req, res),
    ensures
        exists|mid: Request, after: Request, t1: T1, t2: T2|
            #[trigger] T1::extracted(req, mid, t1) && #[trigger] T2::extracted(mid, after, t2)
                && call_ensures(f, (after, t1, t2), res),
{
}

/// A handler seen as a dispatchable unit: always ready, it answers each
/// request by running a fresh clone of the handler on it.
pub struct HandlerService<H, Out> {
    handler: H,
    shape: core::marker::PhantomData<Out>,
}

impl<H, Out> HandlerService<H, Out> {
    /// The unit that runs `handler`.
    pub fn new(handler: H) -> (r: HandlerService<H, Out>)
        ensures
            r.handler() == handler,
    {
        HandlerService { handler, shape: core::marker::PhantomData }
    }

    /// The handler that the unit runs.
    pub closed spec fn handler(&self) -> H {
        self.handler
    }
}

impl<H: Clone, Out> Clone for HandlerService<H, Out> {
    fn clone(&self) -> (r: HandlerService<H, Out>)
        ensures
            cloned(self.handler(), r.handler()),
    {
        let handler = self.handler.clone();
        assert(cloned(self.handler, handler));
        HandlerService { handler, shape: core::marker::PhantomData }
    }
}

impl<H: Handler<Out> + Clone, Out> Service for HandlerService<H, Out> {
    open spec fn always_ready(&self) -> bool {
        true
    }

    open spec fn accepts(&self, req: Request) -> bool {
        forall|u: H| cloned(self.handler(), u) ==> #[trigger] u.accepts(req)
    }

    open spec fn serves(&self, req: Request, res: Result<Response, http::Error>) -> bool {
        exists|u: H| cloned(self.handler(), u) && #[trigger] u.handles(req, res)
    }

    fn poll_ready(&mut self) -> (r: Result<(), http::Error>) {
        Ok(())
    }

    fn call(&mut self, req: Request) -> (r: Result<Response, http::Error>) {
        let h = self.handler.clone();
        assert(cloned(self.handler, h));
        h.call(req)
    }
}

} // verus!
