//! Requests, events and their handlers.
use vstd::prelude::*;

verus! {

/// Represents a request to the mediator.
pub trait Request<Res> {}

/// Handles a request from the mediator.
pub trait RequestHandler<Req, Res> where Req: Request<Res> {
    /// Whether the handler may be given the request: any request, unless the
    /// handler says otherwise.
    open spec fn accepts(&self, req: Req) -> bool {
        true
    }

    /// Handle a request and returns the response.
    fn handle(&mut self, req: Req) -> Res
        requires
            old(self).accepts(req),
    ;
}

/// Represents an application event.
pub trait Event: Clone {}

/// A handler for application events.
pub trait EventHandler<E: Event> {
    /// Whether the handler may be given the event: any event, unless the
    /// handler says otherwise.
    open spec fn accepts(&self, event: E) -> bool {
        true
    }

    /// Handles an event.
    fn handle(&mut self, event: E)
        requires
            old(self).accepts(event),
    ;
}

/// Provides a way to capture the requests.
pub trait Interceptor<Req, Res> {
    /// Handles the request: `next` passes it on to the next interceptor, or
    /// to the handler.
    fn handle<N: FnOnce(Req) -> Res>(&mut self, req: Req, next: N) -> Res
        requires
            call_requires(next, (req,)),
    ;
}

/// Calls a closure that handles a value (`FnMut::call_mut`).
///
/// The closure may only be called where its precondition holds of the
/// value; what comes back is then a result the closure may give for it.
#[verifier::external_body]
fn call_handler<A, R, F: FnMut(A) -> R>(f: &mut F, a: A) -> (r: R)
    requires
        call_requires(*old(f), (a,)),
    ensures
        call_ensures(*old(f), (a,), r),
{
    f(a)
}

impl<Req, Res, F> RequestHandler<Req, Res> for F where F: FnMut(Req) -> Res, Req: Request<Res> {
    /// A closure may be given what its precondition accepts.
    open spec fn accepts(&self, req: Req) -> bool {
        call_requires(*self, (req,))
    }

    fn handle(&mut self, req: Req) -> (r: Res)
        ensures
            call_ensures(*old(self), (req,), r),
    {
        call_handler(self, req)
    }
}

impl<E, F> EventHandler<E> for F where E: Event, F: FnMut(E) {
    /// A closure may be given what its precondition accepts.
    open spec fn accepts(&self, event: E) -> bool {
        call_requires(*self, (event,))
    }

    fn handle(&mut self, event: E)
        ensures
            call_ensures(*old(self), (event,), ()),
    {
        call_handler(self, event)
    }
}

} // verus!
