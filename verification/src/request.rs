//! The request and response values a pipeline stage works on.
//!
//! A request carries its request line's target: a standard absolute path,
//! or some other form (a proxy-style target, a malformed request line) that
//! prefix routing never applies to.  The response is opaque to the router
//! and is handed to nested stages untouched.

use vstd::prelude::*;

verus! {

/// The target of a request line.
#[derive(Clone, Debug, PartialEq, Eq)]
pub enum RequestUri {
    /// A well-formed absolute path, the only form prefix routing applies to.
    AbsolutePath(String),
    /// Any other form of target.
    NotAbsolutePath,
}

/// A request: its mutable path field, as a pipeline stage sees it.
#[derive(Clone, Debug, PartialEq, Eq)]
pub struct Request {
    pub request_uri: RequestUri,
}

/// A response under construction.  The router never touches it; nested
/// stages may append to its body.
#[derive(Clone, Debug, PartialEq, Eq)]
pub struct Response {
    pub body: Vec<u8>,
}

impl View for Request {
    type V = Option<Seq<char>>;

    /// The request's absolute path, if it has one.
    open spec fn view(&self) -> Option<Seq<char>> {
        match self.request_uri {
            RequestUri::AbsolutePath(p) => Some(p@),
            RequestUri::NotAbsolutePath => None,
        }
    }
}

impl View for Response {
    type V = Seq<u8>;

    open spec fn view(&self) -> Seq<u8> {
        self.body@
    }
}

} // verus!
