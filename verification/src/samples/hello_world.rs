//! A request that is answered with a greeting.
use vstd::prelude::*;

use crate::request::{Request, RequestHandler};
use crate::text::push_str;

verus! {

/// A request for a greeting of the one named, or of the world.
pub struct HelloRequest(pub Option<&'static str>);

impl Request<String> for HelloRequest {}

/// Answers a greeting request.
pub struct HelloRequestHandler;

/// The greeting of `name`, or of the world where no name is given.
pub open spec fn greeting(name: Option<Seq<char>>) -> Seq<char> {
    match name {
        Some(n) => "Hello, "@ + n + "!"@,
        None => "Hello World!"@,
    }
}

/// The name a greeting request holds.
pub open spec fn request_name(req: HelloRequest) -> Option<Seq<char>> {
    match req.0 {
        Some(n) => Some(n@),
        None => None,
    }
}

impl RequestHandler<HelloRequest, String> for HelloRequestHandler {
    fn handle(&mut self, req: HelloRequest) -> (r: String)
        ensures
            r@ == greeting(request_name(req)),
    {
        proof {
            reveal_strlit("Hello, ");
            reveal_strlit("!");
            reveal_strlit("Hello World!");
        }
        match req.0 {
            Some(name) => {
                let mut s = "Hello, ".to_owned();
                push_str(&mut s, name);
                push_str(&mut s, "!");
                s
            },
            None => "Hello World!".to_owned(),
        }
    }
}

} // verus!
