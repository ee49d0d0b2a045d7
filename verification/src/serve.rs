//! Shared service handler primitives.
use core::marker::PhantomData;
use vstd::prelude::*;

use crate::RequestName;
use crate::ServerError;
use crate::context::Context;

verus! {

/// A one-shot handler: equivalent to an `FnOnce(Context, Req)` producing a
/// response or a server-side error. The instance is consumed by its single
/// invocation and must not be invoked again; a fresh logical copy is made per
/// inbound request so concurrent requests share no invocation state.
pub trait Serve: Sized {
    /// Type of request.
    type Req: RequestName;

    /// Type of response.
    type Resp;

    /// What a call of `serve` may assume of its arguments.
    spec fn serve_requires(self, ctx: Context, req: Self::Req) -> bool;

    /// What `serve` guarantees of the result it resolves to.
    spec fn serve_ensures(self, ctx: Context, req: Self::Req, r: Result<Self::Resp, ServerError>) -> bool;

    /// Responds to a single request, consuming the instance.
    fn serve(self, ctx: Context, req: Self::Req) -> (r: Result<Self::Resp, ServerError>)
        requires
            self.serve_requires(ctx, req),
        ensures
            self.serve_ensures(ctx, req, r),
    ;
}

/// A [`Serve`] wrapper around a function value. Wrapping adds no state of its
/// own: the wrapper's behaviour is exactly that of the wrapped function.
#[derive(Debug)]
pub struct ServeFn<Req, Resp, F> {
    f: F,
    data: PhantomData<(Req, Resp)>,
}

impl<Req, Resp, F> ServeFn<Req, Resp, F> {
    /// The wrapped function value.
    pub closed spec fn func(self) -> F {
        self.f
    }
}

impl<Req, Resp, F> Clone for ServeFn<Req, Resp, F> where F: Clone {
    /// Duplicates the wrapper by duplicating the wrapped function value, so
    /// one long-lived handler definition can spawn many concurrent per-request
    /// instances. The duplicate wraps a clone of the wrapped value and
    /// nothing else.
    fn clone(&self) -> (r: Self)
        ensures
            cloned::<F>(self.func(), r.func()),
    {
        ServeFn { f: self.f.clone(), data: PhantomData }
    }
}

impl<Req, Resp, F> Copy for ServeFn<Req, Resp, F> where F: Copy {
}

/// Creates a [`Serve`] wrapper around an `FnOnce(Context, Req) -> Result<Resp,
/// ServerError>`. The adapter itself cannot fail; failures surface only from
/// invoking `serve` on the result.
pub fn serve<Req, Resp, F>(f: F) -> (s: ServeFn<Req, Resp, F>) where
    F: FnOnce(Context, Req) -> Result<Resp, ServerError>,

    ensures
        s.func() == f,
{
    ServeFn { f, data: PhantomData }
}

impl<Req, Resp, F> Serve for ServeFn<Req, Resp, F> where
    Req: RequestName,
    F: FnOnce(Context, Req) -> Result<Resp, ServerError>,
 {
    type Req = Req;

    type Resp = Resp;

    /// The wrapped function must accept the pair of arguments.
    open spec fn serve_requires(self, ctx: Context, req: Req) -> bool {
        call_requires(self.func(), (ctx, req))
    }

    /// The result is a possible return of the wrapped function on exactly
    /// these arguments.
    open spec fn serve_ensures(self, ctx: Context, req: Req, r: Result<Resp, ServerError>) -> bool {
        call_ensures(self.func(), (ctx, req), r)
    }

    fn serve(self, ctx: Context, req: Req) -> (r: Result<Resp, ServerError>) {
        (self.f)(ctx, req)
    }
}

} // verus!
