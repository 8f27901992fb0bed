//! What answers a request that matches no asset.

use crate::http::{Request, Response, ResponseModel};
use vstd::prelude::*;

verus! {

/// The body of the default answer to a request that matches no asset: the
/// text `404 Not Found` in ASCII.
pub open spec fn not_found_text() -> Seq<u8> {
    seq![52u8, 48u8, 52u8, 32u8, 78u8, 111u8, 116u8, 32u8, 70u8, 111u8, 117u8, 110u8, 100u8]
}

/// The default answer to a request that matches no asset: status 404, no
/// header, and a short text.
pub open spec fn not_found() -> ResponseModel {
    ResponseModel { status: 404, headers: Seq::empty(), body: not_found_text() }
}

/// Fallback handlers are called when no matching asset is found.
///
/// A handler answers every request: it is run without a look at the request
/// first, so `accepts` has to hold of every request.
pub trait FallbackHandler: 'static + Clone {
    /// Whether the handler may be run on `req`.
    spec fn accepts(&self, req: &Request) -> bool;

    /// Whether `resp` is an answer that the handler gives to `req`.
    spec fn answers(&self, req: &Request, resp: &Response) -> bool;

    /// Answers `req`.
    fn execute(&self, req: &Request) -> (resp: Response)
        requires
            self.accepts(req),
        ensures
            self.answers(req, &resp),
    ;
}

impl<T> FallbackHandler for T where T: Fn(&Request) -> Response + Clone + 'static {
    open spec fn accepts(&self, req: &Request) -> bool {
        call_requires(*self, (req,))
    }

    open spec fn answers(&self, req: &Request, resp: &Response) -> bool {
        call_ensures(*self, (req,), *resp)
    }

    fn execute(&self, req: &Request) -> (resp: Response) {
        (self)(req)
    }
}

/// The default fallback handler.
///
/// It answers 404 whatever the request.
#[derive(Debug, Clone)]
pub struct DefaultFallbackHandler;

impl FallbackHandler for DefaultFallbackHandler {
    open spec fn accepts(&self, req: &Request) -> bool {
        true
    }

    open spec fn answers(&self, req: &Request, resp: &Response) -> bool {
        resp@ == not_found()
    }

    fn execute(&self, req: &Request) -> (resp: Response) {
        let body: Vec<u8> = vec![
            52u8, 48u8, 52u8, 32u8, 78u8, 111u8, 116u8, 32u8, 70u8, 111u8, 117u8, 110u8, 100u8,
        ];
        let resp = Response { status: 404, headers: Vec::new(), body };
        assert(resp@.headers =~= Seq::empty());
        assert(resp@.body =~= not_found_text());
        resp
    }
}

} // verus!
